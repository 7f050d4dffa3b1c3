use vstd::prelude::*;

verus! {

/// The integer width of one grid coordinate.
pub type GridUnit = i16;

/// A position or offset on the grid, in whole cells.
#[derive(Debug, PartialEq, Eq, Structural, Copy, Clone)]
pub struct GridVector {
    pub x: GridUnit,
    pub y: GridUnit,
}

impl GridVector {
    pub fn new(x: GridUnit, y: GridUnit) -> (v: GridVector)
        ensures
            v.x == x,
            v.y == y,
    {
        GridVector { x, y }
    }

    /// Component-wise sum.
    pub fn add(self, rhs: GridVector) -> (r: GridVector)
        requires
            i16::MIN <= self.x + rhs.x <= i16::MAX,
            i16::MIN <= self.y + rhs.y <= i16::MAX,
        ensures
            r.x == self.x + rhs.x,
            r.y == self.y + rhs.y,
    {
        GridVector { x: self.x + rhs.x, y: self.y + rhs.y }
    }

    /// Component-wise difference.
    pub fn sub(self, rhs: GridVector) -> (r: GridVector)
        requires
            i16::MIN <= self.x - rhs.x <= i16::MAX,
            i16::MIN <= self.y - rhs.y <= i16::MAX,
        ensures
            r.x == self.x - rhs.x,
            r.y == self.y - rhs.y,
    {
        GridVector { x: self.x - rhs.x, y: self.y - rhs.y }
    }
}

/// An axis-aligned rectangular region of the grid: origin and extent.
#[derive(Debug, PartialEq, Eq, Structural, Copy, Clone)]
pub struct GridArea {
    pub pos: GridVector,
    pub size: GridVector,
}

impl GridArea {
    /// Well-formed: positive extent on both axes, with the whole region
    /// inside the coordinate range of `GridUnit`.
    pub open spec fn wf(self) -> bool {
        &&& self.size.x > 0
        &&& self.size.y > 0
        &&& self.pos.x + self.size.x <= 0x8000
        &&& self.pos.y + self.size.y <= 0x8000
    }

    /// Whether `p` lies inside the region.
    pub open spec fn contains(self, p: GridVector) -> bool {
        &&& self.pos.x <= p.x < self.pos.x + self.size.x
        &&& self.pos.y <= p.y < self.pos.y + self.size.y
    }
}

} // verus!
