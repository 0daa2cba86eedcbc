//! The hardware cursor: the register writes that move the blinking cursor to a
//! position. The writes are computed here and sent by whoever owns the ports.

use vstd::prelude::*;

verus! {

/// The port that selects a register of the display controller.
pub const INDEX_PORT: u16 = 0x3d4;

/// The port through which the selected register is written.
pub const DATA_PORT: u16 = 0x3d5;

/// The register that holds the low byte of the cursor's offset.
pub const CURSOR_LOW: u8 = 0x0f;

/// The register that holds the high byte of the cursor's offset.
pub const CURSOR_HIGH: u8 = 0x0e;

/// The largest column that is accepted: one past the last column of the grid.
pub const MAX_X: u16 = 80;

/// The largest row that is accepted: one past the last row of the grid.
pub const MAX_Y: u16 = 25;

/// One byte written to one port.
#[derive(Debug, Clone, Copy, PartialEq, Eq, Structural)]
pub struct PortWrite {
    pub value: u8,
    pub port: u16,
}

/// The position is one that the cursor is moved to; both bounds are inclusive.
pub open spec fn cursor_in_range(x: u16, y: u16) -> bool {
    x <= MAX_X && y <= MAX_Y
}

/// The linear offset of a position: eighty cells for each row, then the column.
pub open spec fn cursor_offset(x: u16, y: u16) -> int {
    y * 80 + x
}

/// The register writes for a position, in the order in which they are sent:
/// select the low register, write the low byte of the offset, select the high
/// register, write the high byte. None for a position out of range.
pub open spec fn cursor_writes(x: u16, y: u16) -> Seq<PortWrite> {
    if cursor_in_range(x, y) {
        seq![
            PortWrite { value: CURSOR_LOW, port: INDEX_PORT },
            PortWrite { value: (cursor_offset(x, y) % 256) as u8, port: DATA_PORT },
            PortWrite { value: CURSOR_HIGH, port: INDEX_PORT },
            PortWrite { value: (cursor_offset(x, y) / 256) as u8, port: DATA_PORT },
        ]
    } else {
        Seq::empty()
    }
}

/// Computes the register writes that move the hardware cursor to column `x` of
/// row `y`. A position out of range gives no write at all.
pub fn cursor_position_writes(x: u16, y: u16) -> (writes: Vec<PortWrite>)
    ensures
        writes@ == cursor_writes(x, y),
{
    let mut writes: Vec<PortWrite> = Vec::new();
    if x <= MAX_X && y <= MAX_Y {
        let pos: u16 = y * 80 + x;
        let low: u16 = pos & 0xff;
        let high: u16 = (pos >> 8) & 0xff;
        assert(low == pos % 256 && high == pos / 256 && low < 256 && high < 256) by (bit_vector)
            requires
                low == pos & 0xff,
                high == (pos >> 8) & 0xff,
        ;
        writes.push(PortWrite { value: CURSOR_LOW, port: INDEX_PORT });
        writes.push(PortWrite { value: low as u8, port: DATA_PORT });
        writes.push(PortWrite { value: CURSOR_HIGH, port: INDEX_PORT });
        writes.push(PortWrite { value: high as u8, port: DATA_PORT });
        assert(writes@ =~= cursor_writes(x, y));
    }
    writes
}

} // verus!
