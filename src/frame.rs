use vstd::prelude::*;
use crate::color::{Rgb, black, spec_black, spec_white, white};

verus! {

/// One character cell of a frame.
#[derive(Clone, Copy, Debug, PartialEq, Eq, Structural)]
pub struct Cell {
    pub glyph: char,
    pub fg: Rgb,
    pub bg: Rgb,
}

/// A cell that nothing has been drawn on: a space, white on black.
pub open spec fn blank_cell() -> Cell {
    Cell { glyph: ' ', fg: spec_white(), bg: spec_black() }
}

/// A drawing surface of `width` by `height` cells, indexed by `(x, y)`,
/// that is filled in before it is shown.
pub struct Frame {
    width: i32,
    height: i32,
    cols: Vec<Vec<Cell>>,
}

impl View for Frame {
    type V = Seq<Seq<Cell>>;

    closed spec fn view(&self) -> Seq<Seq<Cell>> {
        self.cols@.map_values(|col: Vec<Cell>| col@)
    }
}

/// Columns of `height` blank cells, `width` of them.
fn blank_columns(width: i32, height: i32) -> (cols: Vec<Vec<Cell>>)
    requires
        0 <= width,
        0 <= height,
    ensures
        cols@.len() == width,
        forall|x: int| 0 <= x < width ==> #[trigger] cols@[x]@.len() == height,
        forall|x: int, y: int|
            0 <= x < width && 0 <= y < height ==> #[trigger] cols@[x]@[y] == blank_cell(),
{
    let mut cols: Vec<Vec<Cell>> = Vec::new();
    let mut x: i32 = 0;
    while x < width
        invariant
            0 <= x <= width,
            0 <= height,
            cols@.len() == x,
            forall|i: int| 0 <= i < x ==> #[trigger] cols@[i]@.len() == height,
            forall|i: int, j: int|
                0 <= i < x && 0 <= j < height ==> #[trigger] cols@[i]@[j] == blank_cell(),
        decreases width - x,
    {
        let mut col: Vec<Cell> = Vec::new();
        let mut y: i32 = 0;
        while y < height
            invariant
                0 <= y <= height,
                col@.len() == y,
                forall|j: int| 0 <= j < y ==> #[trigger] col@[j] == blank_cell(),
            decreases height - y,
        {
            col.push(Cell { glyph: ' ', fg: white(), bg: black() });
            y = y + 1;
        }
        cols.push(col);
        x = x + 1;
    }
    cols
}

impl Frame {
    pub closed spec fn spec_width(&self) -> int {
        self.width as int
    }

    pub closed spec fn spec_height(&self) -> int {
        self.height as int
    }

    /// The grid has the size that the frame was made with.
    pub open spec fn wf(&self) -> bool {
        &&& 0 <= self.spec_width()
        &&& 0 <= self.spec_height()
        &&& self@.len() == self.spec_width()
        &&& forall|x: int| 0 <= x < self@.len() ==> #[trigger] self@[x].len() == self.spec_height()
    }

    /// Whether `(x, y)` is a cell of the frame.
    pub open spec fn contains(&self, x: int, y: int) -> bool {
        0 <= x < self.spec_width() && 0 <= y < self.spec_height()
    }

    /// The cell at `(x, y)`, meaningful where `contains(x, y)`.
    pub open spec fn cell_at(&self, x: int, y: int) -> Cell {
        self@[x][y]
    }

    /// Every cell is blank.
    pub open spec fn is_blank(&self) -> bool {
        forall|x: int, y: int| self.contains(x, y) ==> #[trigger] self.cell_at(x, y) == blank_cell()
    }

    /// A blank frame of the given size.
    pub fn new(width: i32, height: i32) -> (f: Frame)
        requires
            0 <= width,
            0 <= height,
        ensures
            f.wf(),
            f.spec_width() == width,
            f.spec_height() == height,
            f.is_blank(),
    {
        let cols = blank_columns(width, height);
        let f = Frame { width, height, cols };
        assert forall|x: int| 0 <= x < f@.len() implies #[trigger] f@[x].len() == f.spec_height() by {
            assert(f@[x] == f.cols@[x]@);
        }
        assert forall|x: int, y: int| f.contains(x, y) implies #[trigger] f.cell_at(x, y) == blank_cell() by {
            assert(f@[x] == f.cols@[x]@);
        }
        f
    }

    pub fn width(&self) -> (r: i32)
        ensures
            r == self.spec_width(),
    {
        self.width
    }

    pub fn height(&self) -> (r: i32)
        ensures
            r == self.spec_height(),
    {
        self.height
    }

    /// Blanks every cell; the size stays.
    pub fn clear(&mut self)
        requires
            old(self).wf(),
        ensures
            final(self).wf(),
            final(self).spec_width() == old(self).spec_width(),
            final(self).spec_height() == old(self).spec_height(),
            final(self).is_blank(),
    {
        self.cols = blank_columns(self.width, self.height);
        assert forall|x: int| 0 <= x < self@.len() implies #[trigger] self@[x].len() == self.spec_height() by {
            assert(self@[x] == self.cols@[x]@);
        }
        assert forall|x: int, y: int| self.contains(x, y) implies #[trigger] self.cell_at(x, y) == blank_cell() by {
            assert(self@[x] == self.cols@[x]@);
        }
    }

    /// The cell at `(x, y)`, or `None` outside the frame.
    pub fn get(&self, x: i32, y: i32) -> (r: Option<Cell>)
        requires
            self.wf(),
        ensures
            r == (if self.contains(x as int, y as int) {
                Some(self.cell_at(x as int, y as int))
            } else {
                None
            }),
    {
        if 0 <= x && x < self.width && 0 <= y && y < self.height {
            let col = &self.cols[x as usize];
            assert(col@ == self@[x as int]);
            Some(col[y as usize])
        } else {
            None
        }
    }

    /// Writes `cell` at `(x, y)`; outside the frame nothing changes.
    pub fn put(&mut self, x: i32, y: i32, cell: Cell)
        requires
            old(self).wf(),
        ensures
            final(self).wf(),
            final(self).spec_width() == old(self).spec_width(),
            final(self).spec_height() == old(self).spec_height(),
            forall|i: int, j: int| #[trigger] final(self).contains(i, j) ==>
                final(self).cell_at(i, j) == (if i == x && j == y {
                    cell
                } else {
                    old(self).cell_at(i, j)
                }),
    {
        if 0 <= x && x < self.width && 0 <= y && y < self.height {
            let ghost before = self@;
            assert(self.cols@[x as int]@ == self@[x as int]);
            self.cols[x as usize].set(y as usize, cell);
            assert forall|i: int| 0 <= i < self@.len() implies #[trigger] self@[i] == (if i == x {
                before[i].update(y as int, cell)
            } else {
                before[i]
            }) by {
                assert(self@[i] == self.cols@[i]@);
            }
        }
    }

    /// Draws `glyph` in colour `fg` at `(x, y)`, keeping the background;
    /// outside the frame nothing changes.
    pub fn set_glyph(&mut self, x: i32, y: i32, glyph: char, fg: Rgb)
        requires
            old(self).wf(),
        ensures
            final(self).wf(),
            final(self).spec_width() == old(self).spec_width(),
            final(self).spec_height() == old(self).spec_height(),
            forall|i: int, j: int| #[trigger] final(self).contains(i, j) ==>
                final(self).cell_at(i, j) == (if i == x && j == y {
                    Cell { glyph, fg, ..old(self).cell_at(i, j) }
                } else {
                    old(self).cell_at(i, j)
                }),
    {
        match self.get(x, y) {
            Some(c) => self.put(x, y, Cell { glyph, fg, bg: c.bg }),
            None => {},
        }
    }

    /// Paints the background of `(x, y)` with `bg`, keeping glyph and
    /// foreground; outside the frame nothing changes.
    pub fn set_background(&mut self, x: i32, y: i32, bg: Rgb)
        requires
            old(self).wf(),
        ensures
            final(self).wf(),
            final(self).spec_width() == old(self).spec_width(),
            final(self).spec_height() == old(self).spec_height(),
            forall|i: int, j: int| #[trigger] final(self).contains(i, j) ==>
                final(self).cell_at(i, j) == (if i == x && j == y {
                    Cell { bg, ..old(self).cell_at(i, j) }
                } else {
                    old(self).cell_at(i, j)
                }),
    {
        match self.get(x, y) {
            Some(c) => self.put(x, y, Cell { glyph: c.glyph, fg: c.fg, bg }),
            None => {},
        }
    }
}

} // verus!
