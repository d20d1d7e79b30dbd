use vstd::prelude::*;

verus! {

/// A position in unsigned grid units.
#[derive(Clone, Copy, Debug, PartialEq, Eq, Structural)]
pub struct Point {
    pub x: u32,
    pub y: u32,
}

impl Point {
    /// The position `(x, y)`.
    pub fn new(x: u32, y: u32) -> (p: Point)
        ensures
            p.x == x,
            p.y == y,
    {
        Point { x, y }
    }
}

/// An axis-aligned rectangle whose two corners are both part of it.
#[derive(Clone, Copy, Debug, PartialEq, Eq, Structural)]
pub struct WRect {
    pub min: Point,
    pub max: Point,
}

impl WRect {
    /// Neither axis is inverted.
    pub open spec fn ordered(&self) -> bool {
        self.min.x <= self.max.x && self.min.y <= self.max.y
    }

    /// Number of columns covered, both border columns counted.
    pub open spec fn spec_width(&self) -> int {
        self.max.x - self.min.x + 1
    }

    /// Number of rows covered, both border rows counted.
    pub open spec fn spec_height(&self) -> int {
        self.max.y - self.min.y + 1
    }

    /// The cell halfway between the corners, rounded towards `min`.
    pub open spec fn spec_center(&self) -> Point {
        Point {
            x: ((self.min.x + self.max.x) / 2) as u32,
            y: ((self.min.y + self.max.y) / 2) as u32,
        }
    }

    /// The rectangle spanned by two opposite corners, given in any order.
    pub fn new(x0: u32, y0: u32, x1: u32, y1: u32) -> (r: WRect)
        ensures
            r.ordered(),
            r.min.x == vstd::math::min(x0 as int, x1 as int),
            r.max.x == vstd::math::max(x0 as int, x1 as int),
            r.min.y == vstd::math::min(y0 as int, y1 as int),
            r.max.y == vstd::math::max(y0 as int, y1 as int),
    {
        let (min_x, max_x) = if x0 <= x1 { (x0, x1) } else { (x1, x0) };
        let (min_y, max_y) = if y0 <= y1 { (y0, y1) } else { (y1, y0) };
        WRect { min: Point { x: min_x, y: min_y }, max: Point { x: max_x, y: max_y } }
    }

    /// The cell halfway between the corners, rounded towards `min`.
    pub fn center(&self) -> (c: Point)
        ensures
            c == self.spec_center(),
    {
        let cx: u64 = (self.min.x as u64 + self.max.x as u64) / 2;
        let cy: u64 = (self.min.y as u64 + self.max.y as u64) / 2;
        Point { x: cx as u32, y: cy as u32 }
    }

    /// Number of columns covered, both border columns counted.
    pub fn width(&self) -> (w: u32)
        requires
            self.ordered(),
            self.spec_width() <= u32::MAX,
        ensures
            w == self.spec_width(),
    {
        self.max.x - self.min.x + 1
    }

    /// Number of rows covered, both border rows counted.
    pub fn height(&self) -> (h: u32)
        requires
            self.ordered(),
            self.spec_height() <= u32::MAX,
        ensures
            h == self.spec_height(),
    {
        self.max.y - self.min.y + 1
    }
}

} // verus!
