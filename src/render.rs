use vstd::prelude::*;
use crate::color::{dark_ground, dark_wall, spec_dark_ground, spec_dark_wall};
use crate::frame::{Cell, Frame};
use crate::game::Game;
use crate::map::{GameMap, in_bounds, MAP_HEIGHT, MAP_WIDTH};
use crate::object::{Object, drawn_on};

verus! {

/// The cell `c` at `(x, y)` once the map's background is painted: wall colour
/// on a tile that blocks sight, ground colour on any other tile, and `c` as it
/// was off the map.
pub open spec fn with_map_background(map: GameMap, c: Cell, x: int, y: int) -> Cell {
    if in_bounds(x, y) {
        Cell {
            bg: if map.tile_at(x, y).block_sight {
                spec_dark_wall()
            } else {
                spec_dark_ground()
            },
            ..c
        }
    } else {
        c
    }
}

/// The cell `c` at `(x, y)` after `objs` were drawn in order: the last one
/// standing there wins.
pub open spec fn drawn_all(objs: Seq<Object>, c: Cell, x: int, y: int) -> Cell
    decreases objs.len(),
{
    if objs.len() == 0 {
        c
    } else {
        drawn_on(drawn_all(objs.drop_last(), c, x, y), objs.last(), x, y)
    }
}

/// The cell `c` at `(x, y)` after a whole frame was rendered.
pub open spec fn rendered(map: GameMap, objs: Seq<Object>, c: Cell, x: int, y: int) -> Cell {
    drawn_all(objs, with_map_background(map, c, x, y), x, y)
}

/// Paints the map's background on every cell of the frame that the map
/// covers, then draws the objects in order on top.
pub fn render_all(game: &Game, objects: &[Object], con: &mut Frame)
    requires
        game.wf(),
        old(con).wf(),
    ensures
        final(con).wf(),
        final(con).spec_width() == old(con).spec_width(),
        final(con).spec_height() == old(con).spec_height(),
        forall|i: int, j: int| #[trigger] final(con).contains(i, j) ==>
            final(con).cell_at(i, j) == rendered(game.map, objects@, old(con).cell_at(i, j), i, j),
{
    let ghost start = *con;
    let width = con.width();
    let height = con.height();
    let mut x: i32 = 0;
    while x < width
        invariant
            game.wf(),
            con.wf(),
            width == start.spec_width(),
            height == start.spec_height(),
            con.spec_width() == width,
            con.spec_height() == height,
            0 <= x <= width,
            forall|i: int, j: int| #[trigger] con.contains(i, j) ==>
                con.cell_at(i, j) == (if i < x {
                    with_map_background(game.map, start.cell_at(i, j), i, j)
                } else {
                    start.cell_at(i, j)
                }),
        decreases width - x,
    {
        let mut y: i32 = 0;
        while y < height
            invariant
                game.wf(),
                con.wf(),
                width == start.spec_width(),
                height == start.spec_height(),
                con.spec_width() == width,
                con.spec_height() == height,
                0 <= x < width,
                0 <= y <= height,
                forall|i: int, j: int| #[trigger] con.contains(i, j) ==>
                    con.cell_at(i, j) == (if i < x || (i == x && j < y) {
                        with_map_background(game.map, start.cell_at(i, j), i, j)
                    } else {
                        start.cell_at(i, j)
                    }),
            decreases height - y,
        {
            let ghost before = *con;
            if x < MAP_WIDTH && y < MAP_HEIGHT {
                let bg = if game.map.blocks_sight(x, y) {
                    dark_wall()
                } else {
                    dark_ground()
                };
                con.set_background(x, y, bg);
            }
            assert forall|i: int, j: int| #[trigger] con.contains(i, j) implies
                con.cell_at(i, j) == (if i < x || (i == x && j < y + 1) {
                    with_map_background(game.map, start.cell_at(i, j), i, j)
                } else {
                    start.cell_at(i, j)
                }) by {
                assert(before.contains(i, j));
            }
            y = y + 1;
        }
        x = x + 1;
    }
    let ghost painted = *con;
    let mut k: usize = 0;
    while k < objects.len()
        invariant
            con.wf(),
            con.spec_width() == start.spec_width(),
            con.spec_height() == start.spec_height(),
            painted.spec_width() == start.spec_width(),
            painted.spec_height() == start.spec_height(),
            0 <= k <= objects@.len(),
            forall|i: int, j: int| painted.contains(i, j) ==>
                #[trigger] painted.cell_at(i, j) == with_map_background(game.map, start.cell_at(i, j), i, j),
            forall|i: int, j: int| #[trigger] con.contains(i, j) ==>
                con.cell_at(i, j) == drawn_all(objects@.subrange(0, k as int), painted.cell_at(i, j), i, j),
        decreases objects@.len() - k,
    {
        let ghost before = *con;
        objects[k].draw(con);
        assert(objects@.subrange(0, k + 1).drop_last() == objects@.subrange(0, k as int));
        assert forall|i: int, j: int| #[trigger] con.contains(i, j) implies
            con.cell_at(i, j) == drawn_all(objects@.subrange(0, k + 1), painted.cell_at(i, j), i, j) by {
            assert(before.contains(i, j));
        }
        k = k + 1;
    }
    assert(objects@.subrange(0, objects@.len() as int) == objects@);
}

} // verus!
