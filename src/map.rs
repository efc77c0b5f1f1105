use vstd::prelude::*;
use crate::tile::Tile;

verus! {

/// Number of columns of the map.
pub const MAP_WIDTH: i32 = 80;

/// Number of rows of the map.
pub const MAP_HEIGHT: i32 = 45;

/// Row that holds both pillars.
pub const PILLAR_Y: i32 = 22;

/// Column of the left pillar.
pub const LEFT_PILLAR_X: i32 = 30;

/// Column of the right pillar.
pub const RIGHT_PILLAR_X: i32 = 50;

/// Whether `(x, y)` lies on the map.
pub open spec fn in_bounds(x: int, y: int) -> bool {
    0 <= x < MAP_WIDTH && 0 <= y < MAP_HEIGHT
}

/// Whether `(x, y)` is one of the two pillars that a new map holds.
pub open spec fn is_pillar(x: int, y: int) -> bool {
    y == PILLAR_Y && (x == LEFT_PILLAR_X || x == RIGHT_PILLAR_X)
}

/// The tile that a new map holds at `(x, y)`.
pub open spec fn initial_tile(x: int, y: int) -> Tile {
    if is_pillar(x, y) {
        Tile { blocked: true, block_sight: true }
    } else {
        Tile { blocked: false, block_sight: false }
    }
}

/// A grid of tiles, stored column by column and indexed by `(x, y)`.
/// Its size is fixed at `MAP_WIDTH` by `MAP_HEIGHT`.
pub struct GameMap {
    tiles: Vec<Vec<Tile>>,
}

impl View for GameMap {
    type V = Seq<Seq<Tile>>;

    closed spec fn view(&self) -> Seq<Seq<Tile>> {
        self.tiles@.map_values(|col: Vec<Tile>| col@)
    }
}

impl GameMap {
    /// The grid has the fixed size.
    pub open spec fn wf(&self) -> bool {
        &&& self@.len() == MAP_WIDTH
        &&& forall|x: int| 0 <= x < self@.len() ==> #[trigger] self@[x].len() == MAP_HEIGHT
    }

    /// The tile at `(x, y)`, meaningful where `in_bounds(x, y)`.
    pub open spec fn tile_at(&self, x: int, y: int) -> Tile {
        self@[x][y]
    }

    /// What `is_blocked` answers: off the map counts as blocked.
    pub open spec fn spec_is_blocked(&self, x: int, y: int) -> bool {
        !in_bounds(x, y) || self.tile_at(x, y).blocked
    }

    /// What `blocks_sight` answers: off the map counts as opaque.
    pub open spec fn spec_blocks_sight(&self, x: int, y: int) -> bool {
        !in_bounds(x, y) || self.tile_at(x, y).block_sight
    }

    /// The tile at `(x, y)`, or `None` off the map.
    pub fn get(&self, x: i32, y: i32) -> (r: Option<Tile>)
        requires
            self.wf(),
        ensures
            r == (if in_bounds(x as int, y as int) {
                Some(self.tile_at(x as int, y as int))
            } else {
                None
            }),
    {
        if 0 <= x && x < MAP_WIDTH && 0 <= y && y < MAP_HEIGHT {
            let col = &self.tiles[x as usize];
            assert(col@ == self@[x as int]);
            Some(col[y as usize])
        } else {
            None
        }
    }

    /// Whether `(x, y)` blocks movement; every cell off the map does.
    pub fn is_blocked(&self, x: i32, y: i32) -> (r: bool)
        requires
            self.wf(),
        ensures
            r == self.spec_is_blocked(x as int, y as int),
    {
        match self.get(x, y) {
            Some(t) => t.blocked,
            None => true,
        }
    }

    /// Whether `(x, y)` blocks sight; every cell off the map does.
    pub fn blocks_sight(&self, x: i32, y: i32) -> (r: bool)
        requires
            self.wf(),
        ensures
            r == self.spec_blocks_sight(x as int, y as int),
    {
        match self.get(x, y) {
            Some(t) => t.block_sight,
            None => true,
        }
    }
}

/// Builds the map: open floor everywhere but the two pillars, which are walls.
pub fn make_map() -> (m: GameMap)
    ensures
        m.wf(),
        forall|x: int, y: int| in_bounds(x, y) ==> #[trigger] m.tile_at(x, y) == initial_tile(x, y),
        forall|x: int, y: int| in_bounds(x, y) ==> #[trigger] m.spec_is_blocked(x, y) == is_pillar(x, y),
        forall|x: int, y: int| in_bounds(x, y) ==> #[trigger] m.spec_blocks_sight(x, y) == is_pillar(x, y),
{
    let mut tiles: Vec<Vec<Tile>> = Vec::new();
    let mut x: i32 = 0;
    while x < MAP_WIDTH
        invariant
            0 <= x <= MAP_WIDTH,
            tiles@.len() == x,
            forall|i: int| 0 <= i < x ==> #[trigger] tiles@[i]@.len() == MAP_HEIGHT,
            forall|i: int, j: int|
                0 <= i < x && 0 <= j < MAP_HEIGHT ==> #[trigger] tiles@[i]@[j] == initial_tile(i, j),
        decreases MAP_WIDTH - x,
    {
        let mut col: Vec<Tile> = Vec::new();
        let mut y: i32 = 0;
        while y < MAP_HEIGHT
            invariant
                0 <= x < MAP_WIDTH,
                0 <= y <= MAP_HEIGHT,
                col@.len() == y,
                forall|j: int| 0 <= j < y ==> #[trigger] col@[j] == initial_tile(x as int, j),
            decreases MAP_HEIGHT - y,
        {
            let pillar = y == PILLAR_Y && (x == LEFT_PILLAR_X || x == RIGHT_PILLAR_X);
            if pillar {
                col.push(Tile::wall());
            } else {
                col.push(Tile::empty());
            }
            y = y + 1;
        }
        tiles.push(col);
        x = x + 1;
    }
    let m = GameMap { tiles };
    assert(m@.len() == MAP_WIDTH);
    assert forall|x: int| 0 <= x < m@.len() implies #[trigger] m@[x].len() == MAP_HEIGHT by {
        assert(m@[x] == m.tiles@[x]@);
    }
    assert forall|x: int, y: int| in_bounds(x, y) implies #[trigger] m.tile_at(x, y) == initial_tile(x, y) by {
        assert(m@[x] == m.tiles@[x]@);
    }
    assert forall|x: int, y: int| in_bounds(x, y) implies #[trigger] m.spec_is_blocked(x, y) == is_pillar(x, y) by {
        assert(m.tile_at(x, y) == initial_tile(x, y));
    }
    assert forall|x: int, y: int| in_bounds(x, y) implies #[trigger] m.spec_blocks_sight(x, y) == is_pillar(x, y) by {
        assert(m.tile_at(x, y) == initial_tile(x, y));
    }
    m
}

} // verus!
