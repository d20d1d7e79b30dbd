use vstd::prelude::*;

use crate::math::constants::{in_simulation_area, SIMULATION_HEIGHT, SIMULATION_WIDTH};
use crate::math::rect::{Point, WRect};
use crate::math::sqrt::{floor_sqrt, isqrt, lemma_floor_sqrt_exists, lemma_floor_sqrt_of_large};
use crate::math::transformations::{clamp_axis, clamp_to_axis};

verus! {

/// Reflection factors are carried as the bit pattern of an IEEE 754
/// single-precision number. This is the pattern of the value one: a rigid
/// wall that reflects everything.
pub const FULL_REFLECTION: u32 = 0x3F80_0000;

/// Bit pattern of negative zero.
pub const NEGATIVE_ZERO: u32 = 0x8000_0000;

/// The pattern stands for the value zero, of either sign.
pub open spec fn is_zero_factor(bits: u32) -> bool {
    bits == 0 || bits == NEGATIVE_ZERO
}

/// The pattern stands for a value greater than zero and at most one. For
/// positive numbers the order of the patterns is the order of the values.
pub open spec fn is_unit_fraction(bits: u32) -> bool {
    0 < bits <= FULL_REFLECTION
}

/// The factor a wall cell gets from a shape with factor `bits`: zero is not a
/// reflection factor and counts as full reflection.
pub open spec fn effective_reflection(bits: u32) -> u32 {
    if is_zero_factor(bits) {
        FULL_REFLECTION
    } else {
        bits
    }
}

/// One entry of the obstacle map.
#[derive(Debug, Clone, Copy, PartialEq, Eq, Structural)]
pub struct WallCell {
    pub is_wall: bool,
    pub reflection_factor: u32,
}

impl WallCell {
    /// A cell that no wall covers.
    pub open spec fn open_cell() -> WallCell {
        WallCell { is_wall: false, reflection_factor: FULL_REFLECTION }
    }
}

impl Default for WallCell {
    fn default() -> (cell: WallCell)
        ensures
            cell == WallCell::open_cell(),
    {
        WallCell { is_wall: false, reflection_factor: FULL_REFLECTION }
    }
}

/// The handle by which a wall is being resized.
#[derive(Debug, Clone, Copy, PartialEq, Eq, Structural)]
pub enum WResize {
    Menu,
    Draw,
    TopLeft,
    TopRight,
    BottomRight,
    BottomLeft,
    Radius,
}

/// What every wall shape offers. Coordinates are cells of the addressable
/// area unless a method says otherwise.
pub trait Wall: Sized {
    /// The shape's own invariant.
    spec fn wf(&self) -> bool;

    /// The shape acts on cell `(x, y)`.
    spec fn covers(&self, x: u32, y: u32) -> bool;

    /// Cell `(x, y)` lies on the shape's outline.
    spec fn on_edge(&self, x: u32, y: u32) -> bool;

    /// The shape touches the border of the addressable area in such a way
    /// that cell `(x, y)` of the padded lattice, which lies in the absorbing
    /// ring, continues it.
    spec fn breaches_boundary(&self, x: u32, y: u32, boundary_width: u32) -> bool;

    /// The shape has collapsed and may be removed.
    spec fn deletable(&self) -> bool;

    /// The cell in the middle of the shape.
    spec fn center_point(&self) -> Point;

    /// The reflection factor the shape was given, as a bit pattern.
    spec fn reflection(&self) -> u32;

    /// The shape after its center was dragged to `(x, y)`.
    spec fn moved_to(&self, x: u32, y: u32) -> Self;

    /// The shape has a grab point for this handle.
    spec fn has_handle(&self, handle: WResize) -> bool;

    /// Where the handle is grabbed.
    spec fn handle_point(&self, handle: WResize) -> Point;

    /// The shape can be resized by this handle.
    spec fn takes_resize(&self, handle: WResize) -> bool;

    /// The shape after the handle was dragged to `(x, y)`.
    spec fn resized(&self, handle: WResize, x: u32, y: u32) -> Self;

    /// Whether the shape acts on cell `(x, y)`: for a hollow shape, whether
    /// the cell lies on its outline.
    fn contains(&self, x: u32, y: u32) -> (inside: bool)
        ensures
            inside == self.covers(x, y),
    ;

    /// Whether cell `(x, y)` lies on the shape's outline.
    fn edge_contains(&self, x: u32, y: u32) -> (on_edge: bool)
        ensures
            on_edge == self.on_edge(x, y),
    ;

    /// Whether the shape, touching the border of the addressable area,
    /// leaves a gap in the absorbing ring at cell `(x, y)` of the padded
    /// lattice.
    fn boundary_delete(&self, x: u32, y: u32, boundary_width: u32) -> (breach: bool)
        ensures
            breach == self.breaches_boundary(x, y, boundary_width),
    ;

    /// Whether the shape has collapsed. The shape is not removed: that is
    /// the caller's decision.
    fn is_deletable(&self) -> (deletable: bool)
        ensures
            deletable == self.deletable(),
    ;

    /// Drags the center of the shape to `(x, y)`.
    fn set_center(&mut self, x: u32, y: u32)
        requires
            old(self).wf(),
        ensures
            final(self).wf(),
            *final(self) == old(self).moved_to(x, y),
    ;

    fn get_center(&self) -> (center: Point)
        ensures
            center == self.center_point(),
    ;

    fn get_reflection_factor(&self) -> (factor: u32)
        ensures
            factor == self.reflection(),
    ;

    /// The grab point of a handle.
    fn get_resize_point(&self, resize_type: &WResize) -> (point: Point)
        requires
            self.has_handle(*resize_type),
        ensures
            point == self.handle_point(*resize_type),
    ;

    /// Drags a handle to `(x, y)`.
    fn resize(&mut self, resize_type: &WResize, x: u32, y: u32)
        requires
            old(self).wf(),
            old(self).takes_resize(*resize_type),
        ensures
            final(self).wf(),
            *final(self) == old(self).resized(*resize_type, x, y),
    ;
}

/// A rectangular wall. Its corners lie in the addressable area.
#[derive(Debug, Clone, Copy, PartialEq, Eq, Structural)]
pub struct RectWall {
    pub rect: WRect,
    pub is_hollow: bool,
    pub reflection_factor: u32,
    pub id: usize,
    /// The corner that stays put while the wall is being drawn.
    pub draw_pin: Point,
}

/// Where the low border of the span `lo..=hi` goes when it is dragged to
/// `target`: no further than one cell short of the high border.
pub open spec fn drag_low(target: u32, hi: u32) -> u32 {
    vstd::math::min(target as int, vstd::math::max(hi - 1, 0)) as u32
}

/// Where the high border of the span `lo..=hi` goes when it is dragged to
/// `target` on an axis with `limit` cells: no nearer than one cell after the
/// low border, and no further than the last cell of the axis.
pub open spec fn drag_high(target: u32, lo: u32, limit: u32) -> u32 {
    vstd::math::min(vstd::math::max(target as int, lo + 1), limit - 1) as u32
}

/// The span `lo..=hi` after its middle was dragged towards `target` on an
/// axis with `limit` cells. The span keeps its length and stops at either
/// end of the axis.
pub open spec fn slide_span(lo: u32, hi: u32, target: u32, limit: u32) -> (u32, u32) {
    let middle = (lo + hi) / 2;
    if target < middle {
        let shift = vstd::math::min(middle - target, lo as int);
        ((lo - shift) as u32, (hi - shift) as u32)
    } else {
        let shift = vstd::math::min(target - middle, limit - 1 - hi);
        ((lo + shift) as u32, (hi + shift) as u32)
    }
}

fn drag_low_border(target: u32, hi: u32) -> (r: u32)
    ensures
        r == drag_low(target, hi),
{
    if hi == 0 {
        0
    } else if target > hi - 1 {
        hi - 1
    } else {
        target
    }
}

fn drag_high_border(target: u32, lo: u32, limit: u32) -> (r: u32)
    requires
        limit > 0,
        lo < limit,
    ensures
        r == drag_high(target, lo, limit),
{
    if target < lo + 1 {
        clamp_axis(lo + 1, limit)
    } else {
        clamp_axis(target, limit)
    }
}

fn slide(lo: u32, hi: u32, target: u32, limit: u32) -> (r: (u32, u32))
    requires
        lo <= hi < limit,
    ensures
        r == slide_span(lo, hi, target, limit),
{
    let middle: u32 = lo + (hi - lo) / 2;
    if target < middle {
        let wanted: u32 = middle - target;
        let shift: u32 = if wanted > lo { lo } else { wanted };
        (lo - shift, hi - shift)
    } else {
        let wanted: u32 = target - middle;
        let room: u32 = limit - 1 - hi;
        let shift: u32 = if wanted > room { room } else { wanted };
        (lo + shift, hi + shift)
    }
}

impl RectWall {
    /// A wall spanned by the corners `(x0, y0)` and `(x1, y1)`, each pulled
    /// into the addressable area first. The first corner is the one that
    /// stays put while the wall is drawn.
    pub fn new(
        x0: u32,
        y0: u32,
        x1: u32,
        y1: u32,
        is_hollow: bool,
        reflection_factor: u32,
        id: usize,
    ) -> (wall: RectWall)
        ensures
            wall.wf(),
            wall.draw_pin.x == clamp_to_axis(x0, SIMULATION_WIDTH),
            wall.draw_pin.y == clamp_to_axis(y0, SIMULATION_HEIGHT),
            wall.rect.min.x == vstd::math::min(
                wall.draw_pin.x as int,
                clamp_to_axis(x1, SIMULATION_WIDTH) as int,
            ),
            wall.rect.max.x == vstd::math::max(
                wall.draw_pin.x as int,
                clamp_to_axis(x1, SIMULATION_WIDTH) as int,
            ),
            wall.rect.min.y == vstd::math::min(
                wall.draw_pin.y as int,
                clamp_to_axis(y1, SIMULATION_HEIGHT) as int,
            ),
            wall.rect.max.y == vstd::math::max(
                wall.draw_pin.y as int,
                clamp_to_axis(y1, SIMULATION_HEIGHT) as int,
            ),
            wall.is_hollow == is_hollow,
            wall.reflection_factor == reflection_factor,
            wall.id == id,
    {
        let x0 = clamp_axis(x0, SIMULATION_WIDTH);
        let y0 = clamp_axis(y0, SIMULATION_HEIGHT);
        let x1 = clamp_axis(x1, SIMULATION_WIDTH);
        let y1 = clamp_axis(y1, SIMULATION_HEIGHT);
        RectWall {
            rect: WRect::new(x0, y0, x1, y1),
            is_hollow,
            reflection_factor,
            id,
            draw_pin: Point { x: x0, y: y0 },
        }
    }

    /// Whether the wall's invariant holds, for callers that have written to
    /// its fields.
    pub fn is_valid(&self) -> (valid: bool)
        ensures
            valid == self.wf(),
    {
        self.rect.min.x <= self.rect.max.x && self.rect.min.y <= self.rect.max.y
            && self.rect.max.x < SIMULATION_WIDTH && self.rect.max.y < SIMULATION_HEIGHT
            && self.draw_pin.x < SIMULATION_WIDTH && self.draw_pin.y < SIMULATION_HEIGHT
    }

    /// Cell `(x, y)` lies within the corners.
    pub open spec fn spans(&self, x: u32, y: u32) -> bool {
        self.rect.min.x <= x <= self.rect.max.x && self.rect.min.y <= y <= self.rect.max.y
    }

    /// Row `y` of the padded lattice crosses the wall.
    pub open spec fn crosses_row(&self, y: u32, boundary_width: u32) -> bool {
        self.rect.min.y + boundary_width <= y <= self.rect.max.y + boundary_width
    }

    /// Column `x` of the padded lattice crosses the wall.
    pub open spec fn crosses_column(&self, x: u32, boundary_width: u32) -> bool {
        self.rect.min.x + boundary_width <= x <= self.rect.max.x + boundary_width
    }
}

impl Wall for RectWall {
    open spec fn wf(&self) -> bool {
        &&& self.rect.ordered()
        &&& in_simulation_area(self.rect.max.x as int, self.rect.max.y as int)
        &&& in_simulation_area(self.draw_pin.x as int, self.draw_pin.y as int)
    }

    open spec fn covers(&self, x: u32, y: u32) -> bool {
        if self.is_hollow {
            self.on_edge(x, y)
        } else {
            self.spans(x, y)
        }
    }

    open spec fn on_edge(&self, x: u32, y: u32) -> bool {
        ||| ((x == self.rect.min.x || x == self.rect.max.x) && self.rect.min.y <= y
            <= self.rect.max.y)
        ||| ((y == self.rect.min.y || y == self.rect.max.y) && self.rect.min.x <= x
            <= self.rect.max.x)
    }

    open spec fn breaches_boundary(&self, x: u32, y: u32, boundary_width: u32) -> bool {
        ||| (self.rect.min.x == 0 && x < boundary_width && self.crosses_row(y, boundary_width))
        ||| (self.rect.max.x == SIMULATION_WIDTH - 1 && x > self.rect.max.x + boundary_width
            && self.crosses_row(y, boundary_width))
        ||| (self.rect.min.y == 0 && y < boundary_width && self.crosses_column(
            x,
            boundary_width,
        ))
        ||| (self.rect.max.y == SIMULATION_HEIGHT - 1 && y > self.rect.max.y + boundary_width
            && self.crosses_column(x, boundary_width))
    }

    /// One cell wide or one cell high.
    open spec fn deletable(&self) -> bool {
        self.rect.spec_width() == 1 || self.rect.spec_height() == 1
    }

    open spec fn center_point(&self) -> Point {
        self.rect.spec_center()
    }

    open spec fn reflection(&self) -> u32 {
        self.reflection_factor
    }

    open spec fn moved_to(&self, x: u32, y: u32) -> Self {
        let (min_x, max_x) = slide_span(self.rect.min.x, self.rect.max.x, x, SIMULATION_WIDTH);
        let (min_y, max_y) = slide_span(self.rect.min.y, self.rect.max.y, y, SIMULATION_HEIGHT);
        RectWall {
            rect: WRect { min: Point { x: min_x, y: min_y }, max: Point { x: max_x, y: max_y } },
            ..*self
        }
    }

    open spec fn has_handle(&self, handle: WResize) -> bool {
        handle != WResize::Radius
    }

    open spec fn handle_point(&self, handle: WResize) -> Point {
        match handle {
            WResize::TopLeft => self.rect.min,
            WResize::TopRight => Point { x: self.rect.max.x, y: self.rect.min.y },
            WResize::BottomLeft => Point { x: self.rect.min.x, y: self.rect.max.y },
            WResize::Draw | WResize::BottomRight => self.rect.max,
            WResize::Menu | WResize::Radius => self.rect.spec_center(),
        }
    }

    open spec fn takes_resize(&self, handle: WResize) -> bool {
        handle != WResize::Radius
    }

    open spec fn resized(&self, handle: WResize, x: u32, y: u32) -> Self {
        let r = self.rect;
        let left = drag_low(x, r.max.x);
        let top = drag_low(y, r.max.y);
        let right = drag_high(x, r.min.x, SIMULATION_WIDTH);
        let bottom = drag_high(y, r.min.y, SIMULATION_HEIGHT);
        let to_x = clamp_to_axis(x, SIMULATION_WIDTH);
        let to_y = clamp_to_axis(y, SIMULATION_HEIGHT);
        let rect = match handle {
            WResize::TopLeft => WRect { min: Point { x: left, y: top }, max: r.max },
            WResize::TopRight => WRect {
                min: Point { x: r.min.x, y: top },
                max: Point { x: right, y: r.max.y },
            },
            WResize::BottomRight => WRect { min: r.min, max: Point { x: right, y: bottom } },
            WResize::BottomLeft => WRect {
                min: Point { x: left, y: r.min.y },
                max: Point { x: r.max.x, y: bottom },
            },
            WResize::Draw => WRect {
                min: Point {
                    x: vstd::math::min(to_x as int, self.draw_pin.x as int) as u32,
                    y: vstd::math::min(to_y as int, self.draw_pin.y as int) as u32,
                },
                max: Point {
                    x: vstd::math::max(to_x as int, self.draw_pin.x as int) as u32,
                    y: vstd::math::max(to_y as int, self.draw_pin.y as int) as u32,
                },
            },
            WResize::Menu | WResize::Radius => r,
        };
        RectWall { rect, ..*self }
    }

    fn get_center(&self) -> (center: Point) {
        self.rect.center()
    }

    fn get_resize_point(&self, resize_type: &WResize) -> (point: Point) {
        match resize_type {
            WResize::Draw => self.rect.max,
            WResize::TopLeft => self.rect.min,
            WResize::TopRight => Point { x: self.rect.max.x, y: self.rect.min.y },
            WResize::BottomRight => self.rect.max,
            WResize::BottomLeft => Point { x: self.rect.min.x, y: self.rect.max.y },
            WResize::Menu | WResize::Radius => self.rect.center(),
        }
    }

    fn contains(&self, x: u32, y: u32) -> (inside: bool) {
        if self.is_hollow {
            return self.edge_contains(x, y);
        }
        x >= self.rect.min.x && x <= self.rect.max.x && y >= self.rect.min.y && y
            <= self.rect.max.y
    }

    fn edge_contains(&self, x: u32, y: u32) -> (on_edge: bool) {
        ((x == self.rect.min.x || x == self.rect.max.x) && (y >= self.rect.min.y && y
            <= self.rect.max.y)) || ((y == self.rect.min.y || y == self.rect.max.y) && (x
            >= self.rect.min.x && x <= self.rect.max.x))
    }

    fn is_deletable(&self) -> (deletable: bool) {
        self.rect.min.x == self.rect.max.x || self.rect.min.y == self.rect.max.y
    }

    fn set_center(&mut self, x: u32, y: u32) {
        let (min_x, max_x) = slide(self.rect.min.x, self.rect.max.x, x, SIMULATION_WIDTH);
        let (min_y, max_y) = slide(self.rect.min.y, self.rect.max.y, y, SIMULATION_HEIGHT);
        self.rect = WRect { min: Point { x: min_x, y: min_y }, max: Point { x: max_x, y: max_y } };
    }

    fn get_reflection_factor(&self) -> (factor: u32) {
        self.reflection_factor
    }

    fn resize(&mut self, resize_type: &WResize, x: u32, y: u32) {
        match resize_type {
            WResize::TopLeft => {
                self.rect.min.x = drag_low_border(x, self.rect.max.x);
                self.rect.min.y = drag_low_border(y, self.rect.max.y);
            },
            WResize::TopRight => {
                self.rect.max.x = drag_high_border(x, self.rect.min.x, SIMULATION_WIDTH);
                self.rect.min.y = drag_low_border(y, self.rect.max.y);
            },
            WResize::BottomRight => {
                self.rect.max.x = drag_high_border(x, self.rect.min.x, SIMULATION_WIDTH);
                self.rect.max.y = drag_high_border(y, self.rect.min.y, SIMULATION_HEIGHT);
            },
            WResize::BottomLeft => {
                self.rect.min.x = drag_low_border(x, self.rect.max.x);
                self.rect.max.y = drag_high_border(y, self.rect.min.y, SIMULATION_HEIGHT);
            },
            WResize::Draw => {
                let x = clamp_axis(x, SIMULATION_WIDTH);
                let y = clamp_axis(y, SIMULATION_HEIGHT);
                if x >= self.draw_pin.x {
                    self.rect.min.x = self.draw_pin.x;
                    self.rect.max.x = x;
                } else {
                    self.rect.min.x = x;
                    self.rect.max.x = self.draw_pin.x;
                }
                if y >= self.draw_pin.y {
                    self.rect.min.y = self.draw_pin.y;
                    self.rect.max.y = y;
                } else {
                    self.rect.min.y = y;
                    self.rect.max.y = self.draw_pin.y;
                }
            },
            WResize::Menu | WResize::Radius => {},
        }
    }

    fn boundary_delete(&self, x: u32, y: u32, boundary_width: u32) -> (breach: bool) {
        let x = x as u64;
        let y = y as u64;
        let b = boundary_width as u64;
        let in_rows = y >= self.rect.min.y as u64 + b && y <= self.rect.max.y as u64 + b;
        let in_columns = x >= self.rect.min.x as u64 + b && x <= self.rect.max.x as u64 + b;
        if self.rect.min.x == 0 && x < b && in_rows {
            return true;
        }
        if self.rect.max.x == SIMULATION_WIDTH - 1 && x > self.rect.max.x as u64 + b && in_rows {
            return true;
        }
        if self.rect.min.y == 0 && y < b && in_columns {
            return true;
        }
        if self.rect.max.y == SIMULATION_HEIGHT - 1 && y > self.rect.max.y as u64 + b
            && in_columns {
            return true;
        }
        false
    }
}

/// A circular wall.
#[derive(Debug, Clone, Copy, PartialEq, Eq, Structural)]
pub struct CircWall {
    pub center: Point,
    /// Distance in cells from the center to the outline.
    pub radius: u32,
    pub is_hollow: bool,
    pub reflection_factor: u32,
    /// Half of the opening of a hollow circle, in radians, as a bit pattern.
    pub open_circ_segment: u32,
    /// Rotation of the opening, in radians, as a bit pattern.
    pub rotation_angle: u32,
    pub id: usize,
}

/// Square of the distance between `center` and cell `(x, y)`.
pub open spec fn distance_squared(center: Point, x: u32, y: u32) -> int {
    (center.x - x) * (center.x - x) + (center.y - y) * (center.y - y)
}

/// The cell `(x, y)`, if it belongs to the addressable area.
pub open spec fn cell_at(x: int, y: int) -> Option<Point> {
    if in_simulation_area(x, y) {
        Some(Point { x: x as u32, y: y as u32 })
    } else {
        None
    }
}

/// The first of the two that is a cell.
pub open spec fn or_cell(first: Option<Point>, second: Option<Point>) -> Option<Point> {
    if first is Some {
        first
    } else {
        second
    }
}

/// The offset `(dx, dy)` from the center `(cx, cy)` is mirrored into all
/// eight octants; this is the first of the eight cells that lies in the
/// addressable area.
pub open spec fn mirrored_cell(cx: int, cy: int, dx: int, dy: int) -> Option<Point> {
    or_cell(
        cell_at(cx + dx, cy + dy),
        or_cell(
            cell_at(cx + dx, cy - dy),
            or_cell(
                cell_at(cx - dx, cy + dy),
                or_cell(
                    cell_at(cx - dx, cy - dy),
                    or_cell(
                        cell_at(cx + dy, cy + dx),
                        or_cell(
                            cell_at(cx + dy, cy - dx),
                            or_cell(cell_at(cx - dy, cy + dx), cell_at(cx - dy, cy - dx)),
                        ),
                    ),
                ),
            ),
        ),
    )
}

/// The midpoint circle walk around `(cx, cy)`, continued from the offset
/// `(dx, dy)` with decision value `d`: the first cell of the outline that
/// lies in the addressable area, if the walk meets one before the octant
/// ends.
pub open spec fn outline_cell(cx: int, cy: int, dx: int, dy: int, d: int) -> Option<Point>
    decreases dy - dx + 2,
{
    if dx > dy {
        None
    } else if mirrored_cell(cx, cy, dx, dy) is Some {
        mirrored_cell(cx, cy, dx, dy)
    } else if d < 0 {
        outline_cell(cx, cy, dx + 1, dy, d + 2 * dx + 3)
    } else {
        outline_cell(cx, cy, dx + 1, dy - 1, d + 2 * (dx - dy) + 5)
    }
}

fn probe(x: i64, y: i64) -> (cell: Option<Point>)
    ensures
        cell == cell_at(x as int, y as int),
{
    if x >= 0 && x < SIMULATION_WIDTH as i64 && y >= 0 && y < SIMULATION_HEIGHT as i64 {
        Some(Point { x: x as u32, y: y as u32 })
    } else {
        None
    }
}

fn probe_mirrored(cx: i64, cy: i64, dx: i64, dy: i64) -> (cell: Option<Point>)
    requires
        0 <= cx <= u32::MAX,
        0 <= cy <= u32::MAX,
        0 <= dx <= u32::MAX,
        0 <= dy <= u32::MAX,
    ensures
        cell == mirrored_cell(cx as int, cy as int, dx as int, dy as int),
{
    let offsets: [(i64, i64); 8] = [
        (dx, dy),
        (dx, -dy),
        (-dx, dy),
        (-dx, -dy),
        (dy, dx),
        (dy, -dx),
        (-dy, dx),
        (-dy, -dx),
    ];
    let mut i: usize = 0;
    while i < 8
        invariant
            i <= 8,
            0 <= cx <= u32::MAX,
            0 <= cy <= u32::MAX,
            0 <= dx <= u32::MAX,
            0 <= dy <= u32::MAX,
            offsets@ == seq![
                (dx, dy),
                (dx, (-dy) as i64),
                ((-dx) as i64, dy),
                ((-dx) as i64, (-dy) as i64),
                (dy, dx),
                (dy, (-dx) as i64),
                ((-dy) as i64, dx),
                ((-dy) as i64, (-dx) as i64),
            ],
            forall|k: int| 0 <= k < i ==> cell_at(cx + offsets@[k].0, cy + offsets@[k].1) is None,
        decreases 8 - i,
    {
        let (off_x, off_y) = offsets[i];
        let cell = probe(cx + off_x, cy + off_y);
        if cell.is_some() {
            return cell;
        }
        i += 1;
    }
    None
}

fn square(v: u32) -> (s: u64)
    ensures
        s == v * v,
{
    assert(v * v <= 0xFFFF_FFFF * 0xFFFF_FFFF) by (nonlinear_arith)
        requires
            0 <= v <= 0xFFFF_FFFF,
    ;
    v as u64 * v as u64
}

fn square_distance(center: Point, x: u32, y: u32) -> (d: u128)
    ensures
        d == distance_squared(center, x, y),
        d <= 2 * (0xFFFF_FFFF * 0xFFFF_FFFF),
{
    let dx: u64 = if center.x >= x { (center.x - x) as u64 } else { (x - center.x) as u64 };
    let dy: u64 = if center.y >= y { (center.y - y) as u64 } else { (y - center.y) as u64 };
    assert(dx * dx <= 0xFFFF_FFFF * 0xFFFF_FFFF) by (nonlinear_arith)
        requires
            0 <= dx <= 0xFFFF_FFFF,
    ;
    assert(dy * dy <= 0xFFFF_FFFF * 0xFFFF_FFFF) by (nonlinear_arith)
        requires
            0 <= dy <= 0xFFFF_FFFF,
    ;
    assert(dx * dx == (center.x - x) * (center.x - x)) by (nonlinear_arith)
        requires
            dx == center.x - x || dx == x - center.x,
    ;
    assert(dy * dy == (center.y - y) * (center.y - y)) by (nonlinear_arith)
        requires
            dy == center.y - y || dy == y - center.y,
    ;
    (dx * dx) as u128 + (dy * dy) as u128
}

impl CircWall {
    /// A circle without an opening.
    pub fn new(
        x: u32,
        y: u32,
        radius: u32,
        is_hollow: bool,
        reflection_factor: u32,
        id: usize,
    ) -> (wall: CircWall)
        ensures
            wall == (CircWall {
                center: Point { x, y },
                radius,
                is_hollow,
                reflection_factor,
                open_circ_segment: 0,
                rotation_angle: 0,
                id,
            }),
    {
        CircWall {
            center: Point { x, y },
            radius,
            is_hollow,
            reflection_factor,
            open_circ_segment: 0,
            rotation_angle: 0,
            id,
        }
    }

    /// The radius that reaches from the center to cell `(x, y)`, rounded
    /// down, and no more than the largest radius there is.
    pub open spec fn radius_to(&self, x: u32, y: u32) -> u32 {
        let reach = floor_sqrt(distance_squared(self.center, x, y));
        if reach > u32::MAX {
            u32::MAX
        } else {
            reach as u32
        }
    }

    /// The circle reaches beyond the left border of the addressable area.
    pub open spec fn passes_left(&self) -> bool {
        self.center.x < self.radius
    }

    /// The circle reaches beyond the right border of the addressable area.
    pub open spec fn passes_right(&self) -> bool {
        self.center.x + self.radius >= SIMULATION_WIDTH
    }

    /// The circle reaches beyond the top border of the addressable area.
    pub open spec fn passes_top(&self) -> bool {
        self.center.y < self.radius
    }

    /// The circle reaches beyond the bottom border of the addressable area.
    pub open spec fn passes_bottom(&self) -> bool {
        self.center.y + self.radius >= SIMULATION_HEIGHT
    }
}

impl Wall for CircWall {
    open spec fn wf(&self) -> bool {
        true
    }

    open spec fn covers(&self, x: u32, y: u32) -> bool {
        if self.is_hollow {
            self.on_edge(x, y)
        } else {
            distance_squared(self.center, x, y) < self.radius * self.radius
        }
    }

    /// The outline is the ring between four fifths of the squared radius
    /// and the squared radius, both included.
    open spec fn on_edge(&self, x: u32, y: u32) -> bool {
        let d = distance_squared(self.center, x, y);
        4 * (self.radius * self.radius) <= 5 * d && d <= self.radius * self.radius
    }

    open spec fn breaches_boundary(&self, x: u32, y: u32, boundary_width: u32) -> bool {
        let row = self.center.y + boundary_width;
        let column = self.center.x + boundary_width;
        ||| (y == row && x < boundary_width && self.passes_left())
        ||| (y == row && x >= SIMULATION_WIDTH + boundary_width && self.passes_right())
        ||| (x == column && y < boundary_width && self.passes_top())
        ||| (x == column && y >= SIMULATION_HEIGHT + boundary_width && self.passes_bottom())
    }

    open spec fn deletable(&self) -> bool {
        self.radius == 0
    }

    open spec fn center_point(&self) -> Point {
        self.center
    }

    open spec fn reflection(&self) -> u32 {
        self.reflection_factor
    }

    open spec fn moved_to(&self, x: u32, y: u32) -> Self {
        CircWall { center: Point { x, y }, ..*self }
    }

    open spec fn has_handle(&self, handle: WResize) -> bool {
        handle == WResize::Radius
    }

    open spec fn handle_point(&self, handle: WResize) -> Point {
        match outline_cell(
            self.center.x as int,
            self.center.y as int,
            0,
            self.radius as int,
            1 - self.radius,
        ) {
            Some(cell) => cell,
            None => self.center,
        }
    }

    open spec fn takes_resize(&self, handle: WResize) -> bool {
        handle == WResize::Radius || handle == WResize::Menu
    }

    open spec fn resized(&self, handle: WResize, x: u32, y: u32) -> Self {
        if handle == WResize::Radius {
            CircWall { radius: self.radius_to(x, y), ..*self }
        } else {
            *self
        }
    }

    fn get_center(&self) -> (center: Point) {
        self.center
    }

    fn get_resize_point(&self, resize_type: &WResize) -> (point: Point) {
        let cx = self.center.x as i64;
        let cy = self.center.y as i64;
        let mut b_x: i64 = 0;
        let mut b_y: i64 = self.radius as i64;
        let mut d: i128 = 1 - self.radius as i128;
        while b_x <= b_y
            invariant
                cx == self.center.x,
                cy == self.center.y,
                0 <= b_x <= self.radius + 1,
                -1 <= b_y <= self.radius,
                -(self.radius + 1 + b_x * 0x4_0000_0000) <= d <= self.radius + 1 + b_x
                    * 0x4_0000_0000,
                outline_cell(cx as int, cy as int, b_x as int, b_y as int, d as int)
                    == outline_cell(cx as int, cy as int, 0, self.radius as int, 1 - self.radius),
            decreases b_y - b_x + 2,
        {
            match probe_mirrored(cx, cy, b_x, b_y) {
                Some(cell) => {
                    return cell;
                },
                None => {},
            }
            if d < 0 {
                d = d + 2 * (b_x as i128) + 3;
                b_x += 1;
            } else {
                d = d + 2 * ((b_x - b_y) as i128) + 5;
                b_x += 1;
                b_y -= 1;
            }
        }
        self.center
    }

    fn contains(&self, x: u32, y: u32) -> (inside: bool) {
        if self.is_hollow {
            return self.edge_contains(x, y);
        }
        let r_squared: u128 = square(self.radius) as u128;
        square_distance(self.center, x, y) < r_squared
    }

    fn edge_contains(&self, x: u32, y: u32) -> (on_edge: bool) {
        let r_squared: u128 = square(self.radius) as u128;
        let d = square_distance(self.center, x, y);
        4 * r_squared <= 5 * d && d <= r_squared
    }

    fn is_deletable(&self) -> (deletable: bool) {
        self.radius == 0
    }

    fn set_center(&mut self, x: u32, y: u32) {
        self.center.x = x;
        self.center.y = y;
    }

    fn get_reflection_factor(&self) -> (factor: u32) {
        self.reflection_factor
    }

    fn resize(&mut self, resize_type: &WResize, x: u32, y: u32) {
        match resize_type {
            WResize::Radius => {
                let d = square_distance(self.center, x, y);
                if d > u64::MAX as u128 {
                    proof {
                        lemma_floor_sqrt_of_large(d as int);
                    }
                    self.radius = u32::MAX;
                } else {
                    self.radius = isqrt(d as u64);
                }
            },
            _ => {},
        }
    }

    fn boundary_delete(&self, x: u32, y: u32, boundary_width: u32) -> (breach: bool) {
        let x = x as u64;
        let y = y as u64;
        let b = boundary_width as u64;
        let column = self.center.x as u64 + b;
        let row = self.center.y as u64 + b;
        let radius = self.radius as u64;
        if (x < b && y == row && self.center.x < self.radius) || (x >= SIMULATION_WIDTH as u64
            + b && y == row && self.center.x as u64 + radius >= SIMULATION_WIDTH as u64) {
            return true;
        }
        if (y < b && x == column && self.center.y < self.radius) || (y
            >= SIMULATION_HEIGHT as u64 + b && x == column && self.center.y as u64 + radius
            >= SIMULATION_HEIGHT as u64) {
            return true;
        }
        false
    }
}

/// One drag of a resize handle.
pub struct ResizeStep {
    pub handle: WResize,
    pub x: u32,
    pub y: u32,
}

/// The rectangle after all the drags, first to last.
pub open spec fn resized_by_all(wall: RectWall, steps: Seq<ResizeStep>) -> RectWall
    decreases steps.len(),
{
    if steps.len() == 0 {
        wall
    } else {
        let step = steps.last();
        resized_by_all(wall, steps.drop_last()).resized(step.handle, step.x, step.y)
    }
}

/// However a valid rectangle is resized, by whichever handles, to whichever
/// targets and however often, after every single drag it is valid: neither
/// axis is inverted and no corner has left the addressable area.
pub proof fn lemma_resizes_never_invert(wall: RectWall, steps: Seq<ResizeStep>, n: int)
    requires
        wall.wf(),
        0 <= n <= steps.len(),
    ensures
        resized_by_all(wall, steps.take(n)).wf(),
        resized_by_all(wall, steps.take(n)).rect.min.x <= resized_by_all(
            wall,
            steps.take(n),
        ).rect.max.x,
        resized_by_all(wall, steps.take(n)).rect.min.y <= resized_by_all(
            wall,
            steps.take(n),
        ).rect.max.y,
    decreases n,
{
    if n > 0 {
        lemma_resizes_never_invert(wall, steps, n - 1);
        assert(steps.take(n).drop_last() == steps.take(n - 1));
    }
}

/// A corner handle leaves the rectangle at least two cells wide and two
/// cells high wherever the opposite corner leaves room for that.
pub proof fn lemma_corner_resize_keeps_two_cells(wall: RectWall, handle: WResize, x: u32, y: u32)
    requires
        wall.wf(),
        handle == WResize::TopLeft || handle == WResize::TopRight || handle
            == WResize::BottomLeft || handle == WResize::BottomRight,
    ensures
        (handle == WResize::TopLeft || handle == WResize::BottomLeft) && wall.rect.max.x > 0
            ==> wall.resized(handle, x, y).rect.spec_width() >= 2,
        (handle == WResize::TopRight || handle == WResize::BottomRight) && wall.rect.min.x
            < SIMULATION_WIDTH - 1 ==> wall.resized(handle, x, y).rect.spec_width() >= 2,
        (handle == WResize::TopLeft || handle == WResize::TopRight) && wall.rect.max.y > 0
            ==> wall.resized(handle, x, y).rect.spec_height() >= 2,
        (handle == WResize::BottomLeft || handle == WResize::BottomRight) && wall.rect.min.y
            < SIMULATION_HEIGHT - 1 ==> wall.resized(handle, x, y).rect.spec_height() >= 2,
{
}

/// Moving a valid rectangle keeps its width and height. Where the target
/// leaves the rectangle inside the addressable area, the center lands on it.
pub proof fn lemma_move_keeps_size(wall: RectWall, x: u32, y: u32)
    requires
        wall.wf(),
    ensures
        wall.moved_to(x, y).rect.spec_width() == wall.rect.spec_width(),
        wall.moved_to(x, y).rect.spec_height() == wall.rect.spec_height(),
        wall.center_point().x - wall.rect.min.x <= x <= wall.center_point().x + (
        SIMULATION_WIDTH - 1 - wall.rect.max.x) ==> wall.moved_to(x, y).center_point().x == x,
        wall.center_point().y - wall.rect.min.y <= y <= wall.center_point().y + (
        SIMULATION_HEIGHT - 1 - wall.rect.max.y) ==> wall.moved_to(x, y).center_point().y == y,
{
}

/// Dragging the radius handle of a circle to `(x, y)` leaves a circle that
/// is deletable exactly when its radius is zero, and its radius is zero
/// exactly when the handle was dropped on the center.
pub proof fn lemma_radius_resize(wall: CircWall, x: u32, y: u32)
    ensures
        wall.resized(WResize::Radius, x, y).radius >= 0,
        wall.resized(WResize::Radius, x, y).deletable() <==> wall.resized(
            WResize::Radius,
            x,
            y,
        ).radius == 0,
        wall.resized(WResize::Radius, x, y).radius == 0 <==> (x == wall.center.x && y
            == wall.center.y),
        wall.resized(WResize::Radius, x, y).radius * wall.resized(WResize::Radius, x, y).radius
            <= distance_squared(wall.center, x, y),
{
    let d = distance_squared(wall.center, x, y);
    let dx = wall.center.x - x;
    let dy = wall.center.y - y;
    assert(dx * dx >= 0 && dy * dy >= 0 && (dx != 0 ==> dx * dx >= 1) && (dy != 0 ==> dy * dy
        >= 1)) by (nonlinear_arith);
    assert(dx == 0 ==> dx * dx == 0);
    assert(dy == 0 ==> dy * dy == 0);
    lemma_floor_sqrt_exists(d);
    let r = floor_sqrt(d);
    assert(r >= 1 ==> r * r >= 1) by (nonlinear_arith);
    assert(r == 0 ==> (r + 1) * (r + 1) == 1) by (nonlinear_arith);
    if r > u32::MAX {
        assert(0xFFFF_FFFF * 0xFFFF_FFFF <= r * r) by (nonlinear_arith)
            requires
                r >= 0xFFFF_FFFF,
        ;
    }
}

/// The radius handle of a circle whose center lies in the addressable area
/// lies in the addressable area too, however far the circle reaches out.
pub proof fn lemma_radius_handle_in_area(wall: CircWall)
    requires
        in_simulation_area(wall.center.x as int, wall.center.y as int),
    ensures
        in_simulation_area(
            wall.handle_point(WResize::Radius).x as int,
            wall.handle_point(WResize::Radius).y as int,
        ),
{
    lemma_outline_cell_in_area(
        wall.center.x as int,
        wall.center.y as int,
        0,
        wall.radius as int,
        1 - wall.radius,
    );
}

/// Whatever cell the circle walk finds lies in the addressable area.
pub proof fn lemma_outline_cell_in_area(cx: int, cy: int, dx: int, dy: int, d: int)
    ensures
        outline_cell(cx, cy, dx, dy, d) matches Some(cell) ==> in_simulation_area(
            cell.x as int,
            cell.y as int,
        ),
    decreases dy - dx + 2,
{
    if dx > dy {
    } else if mirrored_cell(cx, cy, dx, dy) is Some {
    } else if d < 0 {
        lemma_outline_cell_in_area(cx, cy, dx + 1, dy, d + 2 * dx + 3);
    } else {
        lemma_outline_cell_in_area(cx, cy, dx + 1, dy - 1, d + 2 * (dx - dy) + 5);
    }
}

/// A cell found by mirroring the offset `(dx, dy)` is as far from the
/// center as the offset is long.
pub proof fn lemma_mirrored_cell_distance(center: Point, dx: int, dy: int)
    ensures
        mirrored_cell(center.x as int, center.y as int, dx, dy) matches Some(cell)
            ==> distance_squared(center, cell.x, cell.y) == dx * dx + dy * dy,
{
    match mirrored_cell(center.x as int, center.y as int, dx, dy) {
        Some(cell) => {
            let across = center.x - cell.x;
            let along = center.y - cell.y;
            assert((across == dx || across == -dx) && (along == dy || along == -dy) || (across
                == dy || across == -dy) && (along == dx || along == -dx));
            assert(across * across + along * along == dx * dx + dy * dy) by (nonlinear_arith)
                requires
                    (across == dx || across == -dx) && (along == dy || along == -dy) || (across
                        == dy || across == -dy) && (along == dx || along == -dx),
            ;
        },
        None => {},
    }
}

/// Every cell that the circle walk visits lies on the outline of the circle
/// of radius `r`: the square of its distance from the center differs from
/// the square of the radius by no more than the radius. `(dx, dy)` is an
/// offset that the walk has reached with decision value `d`.
pub proof fn lemma_outline_cell_near_circle(center: Point, r: int, dx: int, dy: int, d: int)
    requires
        r >= 1,
        0 <= dx,
        dy <= r,
        d == dx * dx + dy * dy - r * r + 2 * dx - dy + 1,
        dx <= dy ==> -dy <= dx * dx + dy * dy - r * r <= dy - 1,
    ensures
        outline_cell(center.x as int, center.y as int, dx, dy, d) matches Some(cell) ==> r * r - r
            <= distance_squared(center, cell.x, cell.y) <= r * r + r,
    decreases dy - dx + 2,
{
    let cx = center.x as int;
    let cy = center.y as int;
    if dx > dy {
    } else if mirrored_cell(cx, cy, dx, dy) is Some {
        lemma_mirrored_cell_distance(center, dx, dy);
    } else if d < 0 {
        assert((dx + 1) * (dx + 1) == dx * dx + 2 * dx + 1) by (nonlinear_arith);
        lemma_outline_cell_near_circle(center, r, dx + 1, dy, d + 2 * dx + 3);
    } else {
        assert((dx + 1) * (dx + 1) == dx * dx + 2 * dx + 1) by (nonlinear_arith);
        assert((dy - 1) * (dy - 1) == dy * dy - 2 * dy + 1) by (nonlinear_arith);
        lemma_outline_cell_near_circle(center, r, dx + 1, dy - 1, d + 2 * (dx - dy) + 5);
    }
}

/// The radius handle of a circle lies on the circle's outline, within half
/// a cell or so: the square of its distance from the center differs from the
/// square of the radius by no more than the radius. The one exception is a
/// circle none of whose outline the walk finds in the addressable area: its
/// handle is its center.
pub proof fn lemma_radius_handle_on_outline(wall: CircWall)
    ensures
        wall.handle_point(WResize::Radius) == wall.center || {
            let handle = wall.handle_point(WResize::Radius);
            wall.radius * wall.radius - wall.radius <= distance_squared(
                wall.center,
                handle.x,
                handle.y,
            ) <= wall.radius * wall.radius + wall.radius
        },
{
    let r = wall.radius as int;
    if r >= 1 {
        assert(0 * 0 + r * r - r * r + 2 * 0 - r + 1 == 1 - r) by (nonlinear_arith);
        assert(0 * 0 + r * r - r * r == 0) by (nonlinear_arith);
        lemma_outline_cell_near_circle(wall.center, r, 0, r, 1 - r);
    } else {
        reveal_with_fuel(outline_cell, 2);
    }
}

/// Dropping the radius handle where it was picked up changes the radius by
/// one at most: a handle on the outline gives the radius back, or one less.
pub proof fn lemma_radius_handle_gives_radius_back(wall: CircWall)
    requires
        wall.handle_point(WResize::Radius) != wall.center,
    ensures
        wall.radius - 1 <= wall.resized(
            WResize::Radius,
            wall.handle_point(WResize::Radius).x,
            wall.handle_point(WResize::Radius).y,
        ).radius <= wall.radius,
{
    let r = wall.radius as int;
    let handle = wall.handle_point(WResize::Radius);
    let d = distance_squared(wall.center, handle.x, handle.y);
    lemma_radius_handle_on_outline(wall);
    assert(d >= 0) by (nonlinear_arith)
        requires
            d == (wall.center.x - handle.x) * (wall.center.x - handle.x) + (wall.center.y
                - handle.y) * (wall.center.y - handle.y),
    ;
    lemma_floor_sqrt_exists(d);
    let s = floor_sqrt(d);
    assert(s <= r) by (nonlinear_arith)
        requires
            0 <= s,
            0 <= r,
            s * s <= d,
            d <= r * r + r,
    ;
    assert(s >= r - 1) by (nonlinear_arith)
        requires
            0 <= s,
            0 <= r,
            d < (s + 1) * (s + 1),
            r * r - r <= d,
    ;
}

} // verus!
