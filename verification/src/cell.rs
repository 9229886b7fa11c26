use vstd::prelude::*;
use vstd::string::*;

verus! {

/// A cell queued for drawing by a presentation layer: a grid coordinate and
/// the color it should be painted with.
pub struct Cell {
    x: usize,
    y: usize,
    color: String,
}

impl Cell {
    pub closed spec fn spec_x(self) -> usize {
        self.x
    }

    pub closed spec fn spec_y(self) -> usize {
        self.y
    }

    pub closed spec fn spec_color(self) -> Seq<char> {
        self.color@
    }

    pub fn new(x: usize, y: usize, color: &str) -> (cell: Cell)
        ensures
            cell.spec_x() == x,
            cell.spec_y() == y,
            cell.spec_color() == color@,
    {
        let color = String::from_str(color);
        Cell { x, y, color }
    }

    pub fn get_x(&self) -> (x: usize)
        ensures
            x == self.spec_x(),
    {
        self.x
    }

    pub fn get_y(&self) -> (y: usize)
        ensures
            y == self.spec_y(),
    {
        self.y
    }

    pub fn get_color(&self) -> (color: &str)
        ensures
            color@ == self.spec_color(),
    {
        self.color.as_str()
    }
}

} // verus!
