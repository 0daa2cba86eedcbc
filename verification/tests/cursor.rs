use vga_text::cursor::{CURSOR_HIGH, CURSOR_LOW, DATA_PORT, INDEX_PORT};
use vga_text::{cursor_position_writes, PortWrite};

fn expected(pos: u16) -> Vec<PortWrite> {
    vec![
        PortWrite { value: 0x0f, port: 0x3d4 },
        PortWrite { value: (pos & 0xff) as u8, port: 0x3d5 },
        PortWrite { value: 0x0e, port: 0x3d4 },
        PortWrite { value: (pos >> 8) as u8, port: 0x3d5 },
    ]
}

#[test]
fn ports_and_registers() {
    assert_eq!(INDEX_PORT, 0x3d4);
    assert_eq!(DATA_PORT, 0x3d5);
    assert_eq!(CURSOR_LOW, 0x0f);
    assert_eq!(CURSOR_HIGH, 0x0e);
}

#[test]
fn cursor_at_inclusive_bound_then_out_of_range() {
    let first = cursor_position_writes(80, 25);
    assert_eq!(
        first,
        vec![
            PortWrite { value: 0x0f, port: 0x3d4 },
            PortWrite { value: 0x20, port: 0x3d5 },
            PortWrite { value: 0x0e, port: 0x3d4 },
            PortWrite { value: 0x08, port: 0x3d5 },
        ]
    );
    assert_eq!(first, expected(25 * 80 + 80));
    let second = cursor_position_writes(81, 0);
    assert!(second.is_empty());
}

#[test]
fn cursor_at_origin() {
    assert_eq!(
        cursor_position_writes(0, 0),
        vec![
            PortWrite { value: 0x0f, port: 0x3d4 },
            PortWrite { value: 0x00, port: 0x3d5 },
            PortWrite { value: 0x0e, port: 0x3d4 },
            PortWrite { value: 0x00, port: 0x3d5 },
        ]
    );
}

#[test]
fn cursor_at_start_of_last_row() {
    // 24 * 80 = 1920 = 0x780
    assert_eq!(
        cursor_position_writes(0, 24),
        vec![
            PortWrite { value: 0x0f, port: 0x3d4 },
            PortWrite { value: 0x80, port: 0x3d5 },
            PortWrite { value: 0x0e, port: 0x3d4 },
            PortWrite { value: 0x07, port: 0x3d5 },
        ]
    );
}

#[test]
fn cursor_offset_crosses_a_byte() {
    // 3 * 80 + 15 = 255, 3 * 80 + 16 = 256
    assert_eq!(cursor_position_writes(15, 3), expected(255));
    assert_eq!(cursor_position_writes(15, 3)[1].value, 0xff);
    assert_eq!(cursor_position_writes(15, 3)[3].value, 0x00);
    assert_eq!(cursor_position_writes(16, 3)[1].value, 0x00);
    assert_eq!(cursor_position_writes(16, 3)[3].value, 0x01);
}

#[test]
fn cursor_out_of_range_gives_no_write() {
    assert!(cursor_position_writes(0, 26).is_empty());
    assert!(cursor_position_writes(81, 25).is_empty());
    assert!(cursor_position_writes(80, 26).is_empty());
    assert!(cursor_position_writes(u16::MAX, u16::MAX).is_empty());
    assert!(cursor_position_writes(0, u16::MAX).is_empty());
}

#[test]
fn cursor_in_range_everywhere() {
    for y in 0..=25u16 {
        for x in 0..=80u16 {
            assert_eq!(cursor_position_writes(x, y), expected(y * 80 + x));
        }
    }
}
