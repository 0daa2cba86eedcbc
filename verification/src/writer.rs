//! The writer: it owns the cursor, the current attribute and the grid, and
//! renders bytes into the grid with wrapping and scrolling.

use vstd::prelude::*;
use vstd::string::StringSliceAdditionalSpecFns;
use crate::buffer::{grid_fill_row, grid_scroll, Buffer, ScreenChar, BUFFER_HEIGHT, BUFFER_WIDTH};
use crate::color::{Color, ColorCode};
use crate::screen::{glyph, Screen, BLANK, FALLBACK_GLYPH, LINE_FEED};

verus! {

/// The cursor, the current attribute and the grid that is written to.
pub struct Writer {
    pub column_position: usize,
    pub row_position: usize,
    pub color_code: ColorCode,
    pub buffer: &'static mut Buffer,
}

/// The glyph of a byte of a string: the byte itself where it is printable or a
/// line feed, the fallback glyph otherwise.
pub fn glyph_of(byte: u8) -> (g: u8)
    ensures
        g == glyph(byte),
{
    match byte {
        0x20..=0x7e | LINE_FEED => byte,
        _ => FALLBACK_GLYPH,
    }
}

impl View for Writer {
    type V = Screen;

    open spec fn view(&self) -> Screen {
        Screen {
            column: self.column_position as nat,
            row: self.row_position as nat,
            color: self.color_code,
            grid: self.buffer@,
        }
    }
}

impl Writer {
    /// A writer on `buffer` with the cursor at the top left and light gray on
    /// black as the current attribute. The grid is left as it is.
    pub fn new(buffer: &'static mut Buffer) -> (writer: Writer)
        ensures
            writer@.column == 0,
            writer@.row == 0,
            writer@.color@ == crate::color::pack(Color::LightGray, Color::Black),
            writer@.grid == old(buffer)@,
            writer@.wf(),
            writer@.cursor_in_grid(),
    {
        Writer {
            column_position: 0,
            row_position: 0,
            color_code: ColorCode::new(Color::LightGray, Color::Black),
            buffer,
        }
    }

    /// Whether `byte` can be written: it is a line feed, or the cell that it
    /// goes to lies in the grid.
    pub fn accepts_byte(&self, byte: u8) -> (ok: bool)
        ensures
            ok == self@.accepts_byte(byte),
    {
        byte == LINE_FEED || self.column_position >= BUFFER_WIDTH || self.row_position
            < BUFFER_HEIGHT
    }

    /// Whether `s` can be written from the cursor.
    pub fn accepts_string(&self, s: &str) -> (ok: bool)
        ensures
            ok == self@.accepts(s.spec_bytes()),
    {
        let bytes = s.as_bytes();
        bytes.len() == 0 || self.accepts_byte(glyph_of(bytes[0]))
    }

    /// Whether `s` can be written to row `r`, after clearing it if `clear` is set.
    pub fn accepts_string_in_row(&self, s: &str, r: usize, clear: bool) -> (ok: bool)
        ensures
            ok == self@.accepts_in_row(s.spec_bytes(), r as nat, clear),
    {
        let bytes = s.as_bytes();
        r != BUFFER_HEIGHT || (!clear && (bytes.len() == 0 || bytes[0] == LINE_FEED))
    }

    /// Replaces the current attribute. Cells already written keep theirs.
    pub fn set_color_code(&mut self, c: ColorCode)
        ensures
            final(self)@ == old(self)@.set_color(c),
    {
        self.color_code = c;
    }

    /// Writes `s` from the first column of row `r`, after clearing that row if
    /// `clear` is set. A row past `BUFFER_HEIGHT` is ignored.
    pub fn write_string_in_row(&mut self, s: &str, r: usize, clear: bool)
        requires
            old(self)@.accepts_in_row(s.spec_bytes(), r as nat, clear),
        ensures
            final(self)@ == old(self)@.write_in_row(s.spec_bytes(), r as nat, clear),
    {
        if r <= BUFFER_HEIGHT {
            if clear {
                self.clear_row(r);
            }
            self.column_position = 0;
            self.row_position = r;
            self.write_string(s);
        }
    }

    /// Writes one byte: a line break for a line feed; any other byte goes to
    /// the cursor with the current attribute, after a line break where the row
    /// is full.
    pub fn write_byte(&mut self, byte: u8)
        requires
            old(self)@.accepts_byte(byte),
        ensures
            final(self)@ == old(self)@.write_byte(byte),
    {
        match byte {
            LINE_FEED => self.new_line(),
            byte => {
                if self.column_position >= BUFFER_WIDTH {
                    self.new_line();
                }
                let row: usize = self.row_position;
                let col: usize = self.column_position;
                let color_code = self.color_code;
                self.buffer.write(row, col, ScreenChar { ascii_character: byte, color_code });
                self.column_position += 1;
            },
        }
    }

    /// Breaks the line: the cursor goes to the first column of the next row,
    /// or, from the second-to-last row on, the grid scrolls by one row and the
    /// cursor stays on the second-to-last row.
    pub fn new_line(&mut self)
        ensures
            final(self)@ == old(self)@.new_line(),
    {
        if self.row_position >= BUFFER_HEIGHT - 2 {
            let ghost before = self.buffer@;
            for row in 1..BUFFER_HEIGHT
                invariant
                    self.column_position == old(self).column_position,
                    self.row_position == old(self).row_position,
                    self.color_code == old(self).color_code,
                    before == old(self).buffer@,
                    forall|r: int| 0 <= r < row - 1 ==> #[trigger] self.buffer@[r] == before[r + 1],
                    forall|r: int| row - 1 <= r < BUFFER_HEIGHT ==> #[trigger] self.buffer@[r] == before[r],
            {
                let ghost at_row = self.buffer@;
                for col in 0..BUFFER_WIDTH
                    invariant
                        1 <= row < BUFFER_HEIGHT,
                        self.column_position == old(self).column_position,
                        self.row_position == old(self).row_position,
                        self.color_code == old(self).color_code,
                        forall|r: int|
                            0 <= r < BUFFER_HEIGHT && r != row - 1 ==> #[trigger] self.buffer@[r]
                                == at_row[r],
                        forall|c: int|
                            0 <= c < col ==> #[trigger] self.buffer@[row - 1][c] == at_row[row as int][c],
                {
                    let character = self.buffer.read(row, col);
                    self.buffer.write(row - 1, col, character);
                }
            }
            self.row_position = BUFFER_HEIGHT - 2;
            assert(self.buffer@ =~= grid_scroll(before));
        } else {
            self.row_position += 1;
        }
        self.column_position = 0;
    }

    /// Overwrites every cell of `row` with a space in the current attribute.
    pub fn clear_row(&mut self, row: usize)
        requires
            row < BUFFER_HEIGHT,
        ensures
            final(self)@ == old(self)@.clear_row(row as int),
    {
        let blank = ScreenChar { ascii_character: BLANK, color_code: self.color_code };
        let ghost before = self.buffer@;
        for col in 0..BUFFER_WIDTH
            invariant
                row < BUFFER_HEIGHT,
                self.column_position == old(self).column_position,
                self.row_position == old(self).row_position,
                self.color_code == old(self).color_code,
                before == old(self).buffer@,
                forall|r: int| 0 <= r < BUFFER_HEIGHT && r != row ==> #[trigger] self.buffer@[r] == before[r],
                forall|c: int| 0 <= c < col ==> #[trigger] self.buffer@[row as int][c] == blank,
        {
            self.buffer.write(row, col, blank);
        }
        assert(self.buffer@ =~~= grid_fill_row(before, row as int, blank));
    }

    /// Writes the bytes of `s`, first to last: a printable byte or a line feed
    /// as it is, the fallback glyph for any other.
    pub fn write_string(&mut self, s: &str)
        requires
            old(self)@.accepts(s.spec_bytes()),
        ensures
            final(self)@ == old(self)@.write_all(s.spec_bytes()),
    {
        let bytes = s.as_bytes();
        let n: usize = bytes.len();
        for i in 0..n
            invariant
                n == bytes@.len(),
                bytes@ == s.spec_bytes(),
                old(self)@.accepts(bytes@),
                i > 0 ==> self@.row < BUFFER_HEIGHT,
                self@ == old(self)@.write_all(bytes@.take(i as int)),
        {
            assert(bytes@.take(i + 1).drop_last() =~= bytes@.take(i as int));
            match bytes[i] {
                0x20..=0x7e | LINE_FEED => self.write_byte(bytes[i]),
                _ => self.write_byte(FALLBACK_GLYPH),
            }
        }
        assert(bytes@.take(n as int) =~= bytes@);
    }
}

/// The outside type `core::fmt::Error`: what a sink for formatted text fails
/// with. It is a unit struct and says nothing of the cause.
#[verifier::external_type_specification]
pub struct ExFmtError(core::fmt::Error);

impl core::fmt::Write for Writer {
    /// Writes `s` as `write_string` does. Where `s` cannot be written from the
    /// cursor, nothing is written and the error is returned.
    fn write_str(&mut self, s: &str) -> (r: core::fmt::Result)
        ensures
            old(self)@.accepts(s.spec_bytes()) ==> r is Ok && final(self)@ == old(self)@.write_all(
                s.spec_bytes(),
            ),
            !old(self)@.accepts(s.spec_bytes()) ==> r is Err && final(self)@ == old(self)@,
    {
        if self.accepts_string(s) {
            self.write_string(s);
            Ok(())
        } else {
            Err(core::fmt::Error)
        }
    }
}

} // verus!
