//! The sixteen colors of text mode and the attribute byte that packs two of them.

use vstd::prelude::*;

verus! {

/// One of the sixteen colors of text mode, in the order of their ordinals 0 to 15.
#[derive(Debug, Clone, Copy, PartialEq, Eq, Structural)]
pub enum Color {
    Black,
    Blue,
    Green,
    Cyan,
    Red,
    Magenta,
    Brown,
    LightGray,
    DarkGray,
    LightBlue,
    LightGreen,
    LightCyan,
    LightRed,
    Pink,
    Yellow,
    White,
}

impl Color {
    /// The ordinal of the color, 0 for `Black` up to 15 for `White`.
    pub open spec fn ordinal(self) -> u8 {
        match self {
            Color::Black => 0,
            Color::Blue => 1,
            Color::Green => 2,
            Color::Cyan => 3,
            Color::Red => 4,
            Color::Magenta => 5,
            Color::Brown => 6,
            Color::LightGray => 7,
            Color::DarkGray => 8,
            Color::LightBlue => 9,
            Color::LightGreen => 10,
            Color::LightCyan => 11,
            Color::LightRed => 12,
            Color::Pink => 13,
            Color::Yellow => 14,
            Color::White => 15,
        }
    }

    /// The color whose ordinal is the low nibble of `n`.
    pub open spec fn of_nibble(n: u8) -> Color {
        let k = n % 16;
        if k == 0 {
            Color::Black
        } else if k == 1 {
            Color::Blue
        } else if k == 2 {
            Color::Green
        } else if k == 3 {
            Color::Cyan
        } else if k == 4 {
            Color::Red
        } else if k == 5 {
            Color::Magenta
        } else if k == 6 {
            Color::Brown
        } else if k == 7 {
            Color::LightGray
        } else if k == 8 {
            Color::DarkGray
        } else if k == 9 {
            Color::LightBlue
        } else if k == 10 {
            Color::LightGreen
        } else if k == 11 {
            Color::LightCyan
        } else if k == 12 {
            Color::LightRed
        } else if k == 13 {
            Color::Pink
        } else if k == 14 {
            Color::Yellow
        } else {
            Color::White
        }
    }

    /// The ordinal as a byte.
    pub fn to_ordinal(self) -> (n: u8)
        ensures
            n == self.ordinal(),
            n < 16,
    {
        match self {
            Color::Black => 0,
            Color::Blue => 1,
            Color::Green => 2,
            Color::Cyan => 3,
            Color::Red => 4,
            Color::Magenta => 5,
            Color::Brown => 6,
            Color::LightGray => 7,
            Color::DarkGray => 8,
            Color::LightBlue => 9,
            Color::LightGreen => 10,
            Color::LightCyan => 11,
            Color::LightRed => 12,
            Color::Pink => 13,
            Color::Yellow => 14,
            Color::White => 15,
        }
    }

    /// The color whose ordinal is the low nibble of `n`; the high nibble is ignored.
    pub fn from_nibble(n: u8) -> (c: Color)
        ensures
            c == Color::of_nibble(n),
            c.ordinal() == n % 16,
    {
        let k: u8 = n % 16;
        match k {
            0 => Color::Black,
            1 => Color::Blue,
            2 => Color::Green,
            3 => Color::Cyan,
            4 => Color::Red,
            5 => Color::Magenta,
            6 => Color::Brown,
            7 => Color::LightGray,
            8 => Color::DarkGray,
            9 => Color::LightBlue,
            10 => Color::LightGreen,
            11 => Color::LightCyan,
            12 => Color::LightRed,
            13 => Color::Pink,
            14 => Color::Yellow,
            _ => Color::White,
        }
    }
}

/// An attribute byte: the foreground ordinal in the low nibble, the background
/// ordinal in the high nibble.
#[derive(Debug, Clone, Copy, PartialEq, Eq, Structural)]
pub struct ColorCode(u8);

/// The attribute byte of a color pair: sixteen times the background ordinal plus
/// the foreground ordinal.
pub open spec fn pack(foreground: Color, background: Color) -> u8 {
    (background.ordinal() * 16 + foreground.ordinal()) as u8
}

impl View for ColorCode {
    type V = u8;

    /// The attribute byte itself.
    closed spec fn view(&self) -> u8 {
        self.0
    }
}

impl ColorCode {
    /// The foreground color: the one whose ordinal is the low nibble.
    pub open spec fn foreground(self) -> Color {
        Color::of_nibble(self@ % 16)
    }

    /// The background color: the one whose ordinal is the high nibble.
    pub open spec fn background(self) -> Color {
        Color::of_nibble(self@ / 16)
    }

    /// Packs a color pair as `(background << 4) | foreground`.
    pub fn new(foreground: Color, background: Color) -> (code: ColorCode)
        ensures
            code@ == pack(foreground, background),
            code@ == (background.ordinal() << 4) | foreground.ordinal(),
            code.foreground() == foreground,
            code.background() == background,
    {
        let fg: u8 = foreground.to_ordinal();
        let bg: u8 = background.to_ordinal();
        assert((bg << 4) | fg == bg * 16 + fg) by (bit_vector)
            requires
                fg < 16,
                bg < 16,
        ;
        ColorCode((bg << 4) | fg)
    }

    /// The attribute byte.
    pub fn as_u8(&self) -> (bits: u8)
        ensures
            bits == self@,
    {
        self.0
    }

    /// Decodes the low nibble.
    pub fn foreground_color(&self) -> (c: Color)
        ensures
            c == self.foreground(),
    {
        Color::from_nibble(self.0 % 16)
    }

    /// Decodes the high nibble.
    pub fn background_color(&self) -> (c: Color)
        ensures
            c == self.background(),
    {
        Color::from_nibble(self.0 / 16)
    }
}

/// Two attributes with the same byte are the same attribute.
pub proof fn lemma_color_code_ext(a: ColorCode, b: ColorCode)
    requires
        a@ == b@,
    ensures
        a == b,
{
}

/// Decoding the ordinal of a color gives the color back.
pub proof fn lemma_ordinal_round_trip(c: Color)
    ensures
        c.ordinal() < 16,
        Color::of_nibble(c.ordinal()) == c,
{
}

/// Packing a pair of colors and decoding the two nibbles gives the pair back,
/// whatever the two colors are.
pub proof fn lemma_attribute_round_trip(foreground: Color, background: Color, code: ColorCode)
    requires
        code@ == pack(foreground, background),
    ensures
        code@ % 16 == foreground.ordinal(),
        code@ / 16 == background.ordinal(),
        code.foreground() == foreground,
        code.background() == background,
{
}

} // verus!
