//! The colours a tile can be painted with, and when a pointer paints.

use vstd::prelude::*;

verus! {

/// The colour of one tile.
#[derive(Debug, Clone, Copy, PartialEq, Eq, Structural)]
pub enum TileColor {
    Empty,
    Primary,
    Secondary,
}

impl Default for TileColor {
    /// Tiles start unpainted.
    fn default() -> (r: Self)
        ensures
            r == TileColor::Empty,
    {
        TileColor::Empty
    }
}

/// Whether a pointer whose pressed buttons are the bit set `buttons` paints
/// the tile under it: it does while the primary button, bit 0, is held.
pub fn paints(buttons: u16) -> (r: bool)
    ensures
        r == (buttons % 2 == 1),
{
    let held: u16 = buttons & 1;
    assert(held == buttons % 2) by (bit_vector)
        requires
            held == buttons & 1,
    ;
    held == 1
}

} // verus!
