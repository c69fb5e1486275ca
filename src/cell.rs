use vstd::prelude::*;

verus! {

/// One square of the board or of a piece preview, as the engine shows it:
/// a color index (zero for an empty square) and whether the square belongs
/// to a line that is being cleared.
#[derive(Clone, Copy, Debug, PartialEq, Eq, Structural)]
pub struct Cell {
    pub color: u32,
    pub clearing: bool,
}

/// The byte that encodes a color index: its low eight bits.
pub open spec fn color_byte(c: Cell) -> u8 {
    (c.color % 256) as u8
}

/// The byte that encodes the clearing flag: exactly one or zero.
pub open spec fn clear_byte(c: Cell) -> u8 {
    if c.clearing {
        1
    } else {
        0
    }
}

impl Cell {
    /// A square with the given color index and clearing flag.
    pub fn new(color: u32, clearing: bool) -> (r: Cell)
        ensures
            r.color == color,
            r.clearing == clearing,
    {
        Cell { color, clearing }
    }

    /// An empty square that is not being cleared.
    pub fn empty() -> (r: Cell)
        ensures
            r.color == 0,
            !r.clearing,
    {
        Cell { color: 0, clearing: false }
    }

    /// The color index as one byte.
    pub fn color_byte(&self) -> (r: u8)
        ensures
            r == color_byte(*self),
    {
        (self.color % 256) as u8
    }

    /// The clearing flag as one byte.
    pub fn clear_byte(&self) -> (r: u8)
        ensures
            r == clear_byte(*self),
            r == 0 || r == 1,
    {
        if self.clearing {
            1
        } else {
            0
        }
    }
}

} // verus!
