use vstd::prelude::*;
use crate::color::Rgb;
use crate::frame::{Cell, Frame};
use crate::game::Game;
use crate::map::GameMap;

verus! {

/// Anything shown on the map: a glyph of some colour at a position.
#[derive(Clone, Copy, Debug, PartialEq, Eq, Structural)]
pub struct Object {
    pub x: i32,
    pub y: i32,
    pub glyph: char,
    pub color: Rgb,
}

/// Where `o` stands after trying to step by `(dx, dy)` on `map`: it moves
/// exactly when the target cell does not block, and otherwise stays put.
pub open spec fn moved(o: Object, dx: int, dy: int, map: GameMap) -> Object {
    if map.spec_is_blocked(o.x + dx, o.y + dy) {
        o
    } else {
        Object { x: (o.x + dx) as i32, y: (o.y + dy) as i32, ..o }
    }
}

/// A step onto a blocking cell leaves the object where it was, however often
/// it is tried.
pub proof fn lemma_blocked_move_idempotent(o: Object, dx: int, dy: int, map: GameMap)
    requires
        map.spec_is_blocked(o.x + dx, o.y + dy),
    ensures
        moved(o, dx, dy, map) == o,
        moved(moved(o, dx, dy, map), dx, dy, map) == o,
{
}

/// The cell `c` at `(x, y)` after `o` was drawn: `o`'s glyph in `o`'s colour
/// over the old background where `o` stands, and `c` itself elsewhere.
pub open spec fn drawn_on(c: Cell, o: Object, x: int, y: int) -> Cell {
    if o.x == x && o.y == y {
        Cell { glyph: o.glyph, fg: o.color, ..c }
    } else {
        c
    }
}

impl Object {
    pub fn new(x: i32, y: i32, glyph: char, color: Rgb) -> (o: Object)
        ensures
            o.x == x,
            o.y == y,
            o.glyph == glyph,
            o.color == color,
    {
        Object { x, y, glyph, color }
    }

    /// Steps by `(dx, dy)` unless the target cell blocks; cells off the map
    /// block, so an object never leaves the map this way.
    pub fn move_by(&mut self, dx: i32, dy: i32, game: &Game)
        requires
            game.wf(),
        ensures
            *final(self) == moved(*old(self), dx as int, dy as int, game.map),
            game.map.spec_is_blocked(old(self).x + dx, old(self).y + dy) ==> *final(self) == *old(self),
            !game.map.spec_is_blocked(old(self).x + dx, old(self).y + dy) ==> {
                &&& final(self).x == old(self).x + dx
                &&& final(self).y == old(self).y + dy
                &&& final(self).glyph == old(self).glyph
                &&& final(self).color == old(self).color
            },
    {
        let tx: i64 = self.x as i64 + dx as i64;
        let ty: i64 = self.y as i64 + dy as i64;
        if i32::MIN as i64 <= tx && tx <= i32::MAX as i64 && i32::MIN as i64 <= ty && ty <= i32::MAX as i64 {
            if !game.map.is_blocked(tx as i32, ty as i32) {
                self.x = tx as i32;
                self.y = ty as i32;
            }
        }
    }

    /// Draws the glyph in the object's colour at its position, keeping the
    /// background there; an object outside the frame draws nothing.
    pub fn draw(&self, con: &mut Frame)
        requires
            old(con).wf(),
        ensures
            final(con).wf(),
            final(con).spec_width() == old(con).spec_width(),
            final(con).spec_height() == old(con).spec_height(),
            forall|i: int, j: int| #[trigger] final(con).contains(i, j) ==>
                final(con).cell_at(i, j) == drawn_on(old(con).cell_at(i, j), *self, i, j),
    {
        con.set_glyph(self.x, self.y, self.glyph, self.color);
    }
}

} // verus!
