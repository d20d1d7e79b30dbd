use vstd::prelude::*;

use crate::components::wall::{CircWall, RectWall, WResize, Wall};
use crate::math::rect::Point;
use crate::math::transformations::addressable;

verus! {

/// Any wall, whatever its shape.
#[derive(Debug, Clone, Copy, PartialEq, Eq, Structural)]
pub enum WallShape {
    Rect(RectWall),
    Circ(CircWall),
}

impl WallShape {
    /// The number by which the wall is known.
    pub open spec fn spec_id(&self) -> usize {
        match self {
            WallShape::Rect(wall) => wall.id,
            WallShape::Circ(wall) => wall.id,
        }
    }

    /// The number by which the wall is known.
    pub fn id(&self) -> (id: usize)
        ensures
            id == self.spec_id(),
    {
        match self {
            WallShape::Rect(wall) => wall.id,
            WallShape::Circ(wall) => wall.id,
        }
    }
}

impl Wall for WallShape {
    open spec fn wf(&self) -> bool {
        match self {
            WallShape::Rect(wall) => wall.wf(),
            WallShape::Circ(wall) => wall.wf(),
        }
    }

    open spec fn covers(&self, x: u32, y: u32) -> bool {
        match self {
            WallShape::Rect(wall) => wall.covers(x, y),
            WallShape::Circ(wall) => wall.covers(x, y),
        }
    }

    open spec fn on_edge(&self, x: u32, y: u32) -> bool {
        match self {
            WallShape::Rect(wall) => wall.on_edge(x, y),
            WallShape::Circ(wall) => wall.on_edge(x, y),
        }
    }

    open spec fn breaches_boundary(&self, x: u32, y: u32, boundary_width: u32) -> bool {
        match self {
            WallShape::Rect(wall) => wall.breaches_boundary(x, y, boundary_width),
            WallShape::Circ(wall) => wall.breaches_boundary(x, y, boundary_width),
        }
    }

    open spec fn deletable(&self) -> bool {
        match self {
            WallShape::Rect(wall) => wall.deletable(),
            WallShape::Circ(wall) => wall.deletable(),
        }
    }

    open spec fn center_point(&self) -> Point {
        match self {
            WallShape::Rect(wall) => wall.center_point(),
            WallShape::Circ(wall) => wall.center_point(),
        }
    }

    open spec fn reflection(&self) -> u32 {
        match self {
            WallShape::Rect(wall) => wall.reflection_factor,
            WallShape::Circ(wall) => wall.reflection_factor,
        }
    }

    open spec fn moved_to(&self, x: u32, y: u32) -> Self {
        match self {
            WallShape::Rect(wall) => WallShape::Rect(wall.moved_to(x, y)),
            WallShape::Circ(wall) => WallShape::Circ(wall.moved_to(x, y)),
        }
    }

    open spec fn has_handle(&self, handle: WResize) -> bool {
        match self {
            WallShape::Rect(wall) => wall.has_handle(handle),
            WallShape::Circ(wall) => wall.has_handle(handle),
        }
    }

    open spec fn handle_point(&self, handle: WResize) -> Point {
        match self {
            WallShape::Rect(wall) => wall.handle_point(handle),
            WallShape::Circ(wall) => wall.handle_point(handle),
        }
    }

    open spec fn takes_resize(&self, handle: WResize) -> bool {
        match self {
            WallShape::Rect(wall) => wall.takes_resize(handle),
            WallShape::Circ(wall) => wall.takes_resize(handle),
        }
    }

    open spec fn resized(&self, handle: WResize, x: u32, y: u32) -> Self {
        match self {
            WallShape::Rect(wall) => WallShape::Rect(wall.resized(handle, x, y)),
            WallShape::Circ(wall) => WallShape::Circ(wall.resized(handle, x, y)),
        }
    }

    fn contains(&self, x: u32, y: u32) -> (inside: bool) {
        match self {
            WallShape::Rect(wall) => wall.contains(x, y),
            WallShape::Circ(wall) => wall.contains(x, y),
        }
    }

    fn edge_contains(&self, x: u32, y: u32) -> (on_edge: bool) {
        match self {
            WallShape::Rect(wall) => wall.edge_contains(x, y),
            WallShape::Circ(wall) => wall.edge_contains(x, y),
        }
    }

    fn boundary_delete(&self, x: u32, y: u32, boundary_width: u32) -> (breach: bool) {
        match self {
            WallShape::Rect(wall) => wall.boundary_delete(x, y, boundary_width),
            WallShape::Circ(wall) => wall.boundary_delete(x, y, boundary_width),
        }
    }

    fn is_deletable(&self) -> (deletable: bool) {
        match self {
            WallShape::Rect(wall) => wall.is_deletable(),
            WallShape::Circ(wall) => wall.is_deletable(),
        }
    }

    fn set_center(&mut self, x: u32, y: u32) {
        match self {
            WallShape::Rect(wall) => wall.set_center(x, y),
            WallShape::Circ(wall) => wall.set_center(x, y),
        }
    }

    fn get_center(&self) -> (center: Point) {
        match self {
            WallShape::Rect(wall) => wall.get_center(),
            WallShape::Circ(wall) => wall.get_center(),
        }
    }

    fn get_reflection_factor(&self) -> (factor: u32) {
        match self {
            WallShape::Rect(wall) => wall.get_reflection_factor(),
            WallShape::Circ(wall) => wall.get_reflection_factor(),
        }
    }

    fn get_resize_point(&self, resize_type: &WResize) -> (point: Point) {
        match self {
            WallShape::Rect(wall) => wall.get_resize_point(resize_type),
            WallShape::Circ(wall) => wall.get_resize_point(resize_type),
        }
    }

    fn resize(&mut self, resize_type: &WResize, x: u32, y: u32) {
        match self {
            WallShape::Rect(wall) => wall.resize(resize_type, x, y),
            WallShape::Circ(wall) => wall.resize(resize_type, x, y),
        }
    }
}

/// A wall leaves gaps only in the absorbing ring: a cell of the padded
/// lattice at which a wall breaches the boundary never belongs to the
/// addressable area.
pub proof fn lemma_breach_lies_in_ring(wall: WallShape, x: u32, y: u32, boundary_width: u32)
    requires
        wall.breaches_boundary(x, y, boundary_width),
    ensures
        !addressable(x as int, y as int, boundary_width),
{
}

} // verus!
