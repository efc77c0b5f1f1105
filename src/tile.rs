use vstd::prelude::*;

verus! {

/// One cell of the map.
#[derive(Clone, Copy, Debug, PartialEq, Eq, Structural)]
pub struct Tile {
    pub blocked: bool,
    pub block_sight: bool,
}

impl Tile {
    /// Open floor: neither blocks movement nor sight.
    pub fn empty() -> (t: Tile)
        ensures
            !t.blocked,
            !t.block_sight,
    {
        Tile { blocked: false, block_sight: false }
    }

    /// A wall: blocks movement and sight.
    pub fn wall() -> (t: Tile)
        ensures
            t.blocked,
            t.block_sight,
    {
        Tile { blocked: true, block_sight: true }
    }
}

} // verus!
