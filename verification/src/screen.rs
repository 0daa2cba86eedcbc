//! The mathematical model of the writer: a cursor, a current attribute and the
//! contents of the grid, with one function for each operation of the writer.

use vstd::prelude::*;
use crate::buffer::{grid_fill_row, grid_put, grid_scroll, grid_shaped, Grid, ScreenChar};
use crate::buffer::{BUFFER_HEIGHT, BUFFER_WIDTH};
use crate::color::ColorCode;

verus! {

/// The line-feed byte.
pub const LINE_FEED: u8 = 0x0a;

/// The space byte, with which a row is cleared.
pub const BLANK: u8 = 0x20;

/// The glyph shown in place of a byte that cannot be rendered.
pub const FALLBACK_GLYPH: u8 = 0xfe;

/// The printable ASCII bytes, 0x20 to 0x7e.
pub open spec fn is_printable(b: u8) -> bool {
    0x20 <= b <= 0x7e
}

/// The byte that is handed on for a byte of a string: the byte itself where it
/// is printable or a line feed, the fallback glyph otherwise.
pub open spec fn glyph(b: u8) -> u8 {
    if is_printable(b) || b == LINE_FEED {
        b
    } else {
        FALLBACK_GLYPH
    }
}

/// A byte that the grid shows as it is: a printable one or the fallback glyph.
pub open spec fn is_renderable(b: u8) -> bool {
    is_printable(b) || b == FALLBACK_GLYPH
}

/// Every cell of the grid holds a renderable byte.
pub open spec fn grid_renderable(g: Grid) -> bool {
    forall|r: int, c: int|
        0 <= r < BUFFER_HEIGHT && 0 <= c < BUFFER_WIDTH ==> is_renderable(
            (#[trigger] g[r][c]).ascii_character,
        )
}

/// What a writer is at one moment.
pub struct Screen {
    /// The column of the next character; `BUFFER_WIDTH` once a row is full.
    pub column: nat,
    /// The row of the next character.
    pub row: nat,
    /// The attribute given to the cells written from now on.
    pub color: ColorCode,
    /// The contents of the grid.
    pub grid: Grid,
}

impl Screen {
    /// The grid has its fixed shape.
    pub open spec fn wf(self) -> bool {
        grid_shaped(self.grid)
    }

    /// The cursor is where a writer keeps it: on a row of the grid, and at most
    /// one column past the end of that row.
    pub open spec fn cursor_in_grid(self) -> bool {
        self.row < BUFFER_HEIGHT && self.column <= BUFFER_WIDTH
    }

    /// The state after a change of the current attribute: the grid stays.
    pub open spec fn set_color(self, color: ColorCode) -> Screen {
        Screen { color, ..self }
    }

    /// The state after a line break. Below the second-to-last row the cursor
    /// goes down one row; from there on the grid scrolls and the cursor stays
    /// on the second-to-last row. The column is 0 either way.
    pub open spec fn new_line(self) -> Screen {
        if self.row >= BUFFER_HEIGHT - 2 {
            Screen {
                column: 0,
                row: (BUFFER_HEIGHT - 2) as nat,
                grid: grid_scroll(self.grid),
                ..self
            }
        } else {
            Screen { column: 0, row: self.row + 1, ..self }
        }
    }

    /// The state from which a byte other than a line feed is placed: after a
    /// line break where the row is full, the state itself otherwise.
    pub open spec fn wrapped(self) -> Screen {
        if self.column >= BUFFER_WIDTH {
            self.new_line()
        } else {
            self
        }
    }

    /// The byte `b` can be written: it is a line feed, or the cell that it goes
    /// to lies in the grid.
    pub open spec fn accepts_byte(self, b: u8) -> bool {
        b == LINE_FEED || self.wrapped().row < BUFFER_HEIGHT
    }

    /// The state after the byte `b` is written: a line break for a line feed;
    /// else the byte stands with the current attribute at the cursor, after a
    /// line break where the row was full, and the column has gone on by one.
    pub open spec fn write_byte(self, b: u8) -> Screen {
        if b == LINE_FEED {
            self.new_line()
        } else {
            let at = self.wrapped();
            Screen {
                column: at.column + 1,
                grid: grid_put(
                    at.grid,
                    at.row as int,
                    at.column as int,
                    ScreenChar { ascii_character: b, color_code: at.color },
                ),
                ..at
            }
        }
    }

    /// The bytes of a string can be written: there is none, or the first can be.
    /// After the first byte the cursor is on a row of the grid for good.
    pub open spec fn accepts(self, bytes: Seq<u8>) -> bool {
        bytes.len() > 0 ==> self.accepts_byte(glyph(bytes[0]))
    }

    /// The state after the bytes of a string are written, first to last, each
    /// as its glyph.
    pub open spec fn write_all(self, bytes: Seq<u8>) -> Screen
        decreases bytes.len(),
    {
        if bytes.len() == 0 {
            self
        } else {
            self.write_all(bytes.drop_last()).write_byte(glyph(bytes.last()))
        }
    }

    /// The state after a row is cleared: each of its cells holds a space with
    /// the current attribute; the cursor stays.
    pub open spec fn clear_row(self, row: int) -> Screen {
        Screen {
            grid: grid_fill_row(
                self.grid,
                row,
                ScreenChar { ascii_character: BLANK, color_code: self.color },
            ),
            ..self
        }
    }

    /// The cursor at the start of `row`.
    pub open spec fn at_row(self, row: nat) -> Screen {
        Screen { column: 0, row, ..self }
    }

    /// A string can be written to `row`: a row past `BUFFER_HEIGHT` is ignored;
    /// `BUFFER_HEIGHT` itself is one past the grid, so that nothing can be
    /// cleared there and only a line feed can come first.
    pub open spec fn accepts_in_row(self, bytes: Seq<u8>, row: nat, clear: bool) -> bool {
        row == BUFFER_HEIGHT ==> !clear && (bytes.len() > 0 ==> bytes[0] == LINE_FEED)
    }

    /// The state after a string is written to `row`: unchanged where `row` is
    /// past `BUFFER_HEIGHT`; else the row is cleared if asked for, and the
    /// string is written from its first column.
    pub open spec fn write_in_row(self, bytes: Seq<u8>, row: nat, clear: bool) -> Screen {
        if row <= BUFFER_HEIGHT {
            let cleared = if clear {
                self.clear_row(row as int)
            } else {
                self
            };
            cleared.at_row(row).write_all(bytes)
        } else {
            self
        }
    }
}

/// The cell that shows the byte `b` with the attribute `color`.
pub open spec fn cell_of(b: u8, color: ColorCode) -> ScreenChar {
    ScreenChar { ascii_character: b, color_code: color }
}

/// Every operation keeps the shape of the grid: a change of attribute, a line
/// break, a byte that can be written, and the clearing of a row of the grid.
pub proof fn lemma_shape_kept(s: Screen, b: u8, row: int, color: ColorCode)
    requires
        s.wf(),
        s.accepts_byte(b),
        0 <= row < BUFFER_HEIGHT,
    ensures
        s.set_color(color).wf(),
        s.new_line().wf(),
        s.write_byte(b).wf(),
        s.clear_row(row).wf(),
{
}

/// A cursor in the grid stays there, and every string can be written from it:
/// no line break, byte, string, cleared row or change of attribute takes it to
/// a row past the grid or further than one column past the end of a row.
pub proof fn lemma_cursor_stays_in_grid(s: Screen, b: u8, bytes: Seq<u8>, row: int, color: ColorCode)
    requires
        s.cursor_in_grid(),
    ensures
        s.accepts_byte(b),
        s.accepts(bytes),
        s.new_line().cursor_in_grid(),
        s.write_byte(b).cursor_in_grid(),
        s.write_all(bytes).cursor_in_grid(),
        s.clear_row(row).cursor_in_grid(),
        s.set_color(color).cursor_in_grid(),
    decreases bytes.len(),
{
    if bytes.len() > 0 {
        lemma_cursor_stays_in_grid(s, b, bytes.drop_last(), row, color);
    }
}

/// A written byte leaves the cursor on a row of the grid, and so does every
/// byte that follows it.
pub proof fn lemma_row_in_grid_after_byte(s: Screen, b: u8)
    requires
        s.accepts_byte(b),
    ensures
        s.write_byte(b).row < BUFFER_HEIGHT,
        forall|next: u8| s.write_byte(b).accepts_byte(next),
{
}

/// A string written in two parts gives what the whole string gives.
pub proof fn lemma_write_all_concat(s: Screen, first: Seq<u8>, second: Seq<u8>)
    ensures
        s.write_all(first + second) == s.write_all(first).write_all(second),
    decreases second.len(),
{
    if second.len() == 0 {
        assert(first + second =~= first);
    } else {
        lemma_write_all_concat(s, first, second.drop_last());
        assert((first + second).drop_last() =~= first + second.drop_last());
        assert((first + second).last() == second.last());
    }
}

/// A byte written in the last column fills the row and leaves the column at
/// `BUFFER_WIDTH`; the next byte that is no line feed then wraps: it lands in
/// column 0 of the next row, or of the second-to-last row of the scrolled grid.
pub proof fn lemma_wrap_after_last_column(s: Screen, b: u8, next: u8)
    requires
        s.wf(),
        s.row < BUFFER_HEIGHT,
        s.column == BUFFER_WIDTH - 1,
        is_printable(b),
        next != LINE_FEED,
    ensures
        s.accepts_byte(b),
        s.write_byte(b).accepts_byte(next),
        s.write_byte(b).row == s.row,
        s.write_byte(b).column == BUFFER_WIDTH,
        s.write_byte(b).grid[s.row as int][BUFFER_WIDTH - 1] == cell_of(b, s.color),
        s.write_byte(b).write_byte(next).column == 1,
        s.row < BUFFER_HEIGHT - 2 ==> s.write_byte(b).write_byte(next).row == s.row + 1,
        s.row >= BUFFER_HEIGHT - 2 ==> s.write_byte(b).write_byte(next).row == BUFFER_HEIGHT - 2,
        s.write_byte(b).write_byte(next).grid[s.write_byte(b).write_byte(next).row as int][0]
            == cell_of(next, s.color),
        s.write_byte(b).write_byte(next).grid == grid_put(
            s.write_byte(b).new_line().grid,
            s.write_byte(b).new_line().row as int,
            0,
            cell_of(next, s.color),
        ),
{
}

/// A byte of a string that is neither printable nor a line feed is shown as
/// the fallback glyph: the cell before the cursor holds that glyph with the
/// current attribute, never the byte itself.
pub proof fn lemma_unprintable_shows_fallback(s: Screen, b: u8)
    requires
        s.wf(),
        !is_printable(b),
        b != LINE_FEED,
        s.accepts(seq![b]),
    ensures
        s.write_all(seq![b]) == s.write_byte(FALLBACK_GLYPH),
        s.write_all(seq![b]).row < BUFFER_HEIGHT,
        1 <= s.write_all(seq![b]).column <= BUFFER_WIDTH,
        s.write_all(seq![b]).grid[s.write_all(seq![b]).row as int][s.write_all(seq![b]).column
            - 1] == cell_of(FALLBACK_GLYPH, s.color),
{
    let one = seq![b];
    assert(one.drop_last() =~= Seq::<u8>::empty());
    assert(one.last() == b);
    assert(s.write_all(one.drop_last()) == s);
    assert(s.write_all(one) == s.write_byte(glyph(b)));
}

/// A string never brings a byte into the grid that cannot be rendered: where
/// every cell is renderable before, every cell is renderable after.
pub proof fn lemma_write_all_renderable(s: Screen, bytes: Seq<u8>)
    requires
        s.wf(),
        s.accepts(bytes),
        grid_renderable(s.grid),
    ensures
        s.write_all(bytes).wf(),
        grid_renderable(s.write_all(bytes).grid),
        bytes.len() > 0 ==> s.write_all(bytes).row < BUFFER_HEIGHT,
    decreases bytes.len(),
{
    if bytes.len() > 0 {
        let front = bytes.drop_last();
        let g = glyph(bytes.last());
        if front.len() > 0 {
            assert(front[0] == bytes[0]);
        }
        lemma_write_all_renderable(s, front);
        let mid = s.write_all(front);
        assert(mid.accepts_byte(g)) by {
            if front.len() == 0 {
                assert(bytes.last() == bytes[0]);
            }
        }
        let end = mid.write_byte(g);
        assert(grid_renderable(end.grid)) by {
            assert forall|r: int, c: int|
                0 <= r < BUFFER_HEIGHT && 0 <= c < BUFFER_WIDTH implies is_renderable(
                (#[trigger] end.grid[r][c]).ascii_character,
            ) by {
                if g == LINE_FEED {
                    if mid.row >= BUFFER_HEIGHT - 2 {
                        if r + 1 < BUFFER_HEIGHT {
                            assert(is_renderable(mid.grid[r + 1][c].ascii_character));
                        } else {
                            assert(is_renderable(mid.grid[r][c].ascii_character));
                        }
                    } else {
                        assert(is_renderable(mid.grid[r][c].ascii_character));
                    }
                } else {
                    let at = mid.wrapped();
                    assert(is_renderable(at.grid[r][c].ascii_character)) by {
                        if mid.column >= BUFFER_WIDTH && mid.row >= BUFFER_HEIGHT - 2 {
                            if r + 1 < BUFFER_HEIGHT {
                                assert(is_renderable(mid.grid[r + 1][c].ascii_character));
                            } else {
                                assert(is_renderable(mid.grid[r][c].ascii_character));
                            }
                        } else {
                            assert(is_renderable(mid.grid[r][c].ascii_character));
                        }
                    }
                }
            }
        }
    }
}

/// A line feed above the second-to-last row moves the cursor down by exactly
/// one row and leaves the grid alone. From the second-to-last row on it leaves
/// the cursor on the second-to-last row and moves the cells of every row but
/// the first up by one row. The column is 0 and the attribute is kept either way.
pub proof fn lemma_line_feed(s: Screen)
    requires
        s.wf(),
    ensures
        s.accepts_byte(LINE_FEED),
        s.write_byte(LINE_FEED) == s.new_line(),
        s.new_line().column == 0,
        s.new_line().color == s.color,
        s.row < BUFFER_HEIGHT - 2 ==> s.new_line().row == s.row + 1 && s.new_line().grid == s.grid,
        s.row >= BUFFER_HEIGHT - 2 ==> s.new_line().row == BUFFER_HEIGHT - 2,
        s.row >= BUFFER_HEIGHT - 2 ==> forall|r: int|
            1 <= r < BUFFER_HEIGHT ==> #[trigger] s.new_line().grid[r - 1] == s.grid[r],
        s.row >= BUFFER_HEIGHT - 2 ==> s.new_line().grid[BUFFER_HEIGHT - 1] == s.grid[BUFFER_HEIGHT
            - 1],
{
}

/// Every cell of a cleared row holds a space with the attribute that was
/// current when the row was cleared, also after the attribute has changed;
/// the other rows and the cursor are as before.
pub proof fn lemma_cleared_row_keeps_attribute(s: Screen, row: int, later: ColorCode)
    requires
        s.wf(),
        0 <= row < BUFFER_HEIGHT,
    ensures
        forall|c: int|
            0 <= c < BUFFER_WIDTH ==> #[trigger] s.clear_row(row).grid[row][c] == cell_of(
                BLANK,
                s.color,
            ),
        forall|r: int|
            0 <= r < BUFFER_HEIGHT && r != row ==> #[trigger] s.clear_row(row).grid[r] == s.grid[r],
        s.clear_row(row).set_color(later).grid == s.clear_row(row).grid,
        s.clear_row(row).set_color(later).color == later,
        s.clear_row(row).column == s.column,
        s.clear_row(row).row == s.row,
{
}

} // verus!
