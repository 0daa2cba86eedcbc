use vga_text::{Color, ColorCode};

fn all_colors() -> Vec<Color> {
    vec![
        Color::Black,
        Color::Blue,
        Color::Green,
        Color::Cyan,
        Color::Red,
        Color::Magenta,
        Color::Brown,
        Color::LightGray,
        Color::DarkGray,
        Color::LightBlue,
        Color::LightGreen,
        Color::LightCyan,
        Color::LightRed,
        Color::Pink,
        Color::Yellow,
        Color::White,
    ]
}

#[test]
fn ordinals_run_from_zero_to_fifteen() {
    let colors = all_colors();
    assert_eq!(colors.len(), 16);
    for (i, c) in colors.iter().enumerate() {
        assert_eq!(c.to_ordinal() as usize, i);
        assert_eq!(*c as u8, c.to_ordinal());
    }
}

#[test]
fn named_ordinals() {
    assert_eq!(Color::Black.to_ordinal(), 0);
    assert_eq!(Color::LightGray.to_ordinal(), 7);
    assert_eq!(Color::LightRed.to_ordinal(), 12);
    assert_eq!(Color::White.to_ordinal(), 15);
}

#[test]
fn from_nibble_ignores_the_high_nibble() {
    assert_eq!(Color::from_nibble(0x04), Color::Red);
    assert_eq!(Color::from_nibble(0xf4), Color::Red);
    assert_eq!(Color::from_nibble(0x1f), Color::White);
    assert_eq!(Color::from_nibble(0x10), Color::Black);
}

#[test]
fn attribute_packs_background_high_foreground_low() {
    assert_eq!(ColorCode::new(Color::LightGray, Color::Black).as_u8(), 0x07);
    assert_eq!(ColorCode::new(Color::LightRed, Color::LightGray).as_u8(), 0x7c);
    assert_eq!(ColorCode::new(Color::Black, Color::White).as_u8(), 0xf0);
    assert_eq!(ColorCode::new(Color::White, Color::White).as_u8(), 0xff);
    assert_eq!(ColorCode::new(Color::Black, Color::Black).as_u8(), 0x00);
    assert_eq!(ColorCode::new(Color::Yellow, Color::Blue).as_u8(), 0x1e);
}

#[test]
fn attribute_round_trip_for_every_pair() {
    for fg in all_colors() {
        for bg in all_colors() {
            let code = ColorCode::new(fg, bg);
            assert_eq!(code.as_u8(), (bg.to_ordinal() << 4) | fg.to_ordinal());
            assert_eq!(code.as_u8() & 0x0f, fg as u8);
            assert_eq!(code.as_u8() >> 4, bg as u8);
            assert_eq!(code.foreground_color(), fg);
            assert_eq!(code.background_color(), bg);
        }
    }
}

#[test]
fn equal_pairs_give_equal_attributes() {
    assert_eq!(
        ColorCode::new(Color::Green, Color::Brown),
        ColorCode::new(Color::Green, Color::Brown)
    );
    assert_ne!(
        ColorCode::new(Color::Green, Color::Brown),
        ColorCode::new(Color::Brown, Color::Green)
    );
}
