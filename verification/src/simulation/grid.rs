use vstd::prelude::*;

use crate::components::shape::WallShape;
use crate::components::wall::{
    effective_reflection, is_unit_fraction, is_zero_factor, RectWall, Wall, WallCell,
    FULL_REFLECTION, NEGATIVE_ZERO,
};
use crate::math::constants::{in_simulation_area, SIMULATION_HEIGHT, SIMULATION_WIDTH};
use crate::math::transformations::{
    addressable, cell_column, cell_index, cell_row, coords_to_index, lattice_fits,
    lattice_fits_in_memory, lemma_cell_of_index, lemma_index_of_cell, on_lattice, padded_cells,
    padded_height, padded_width,
};

verus! {

/// The narrowest absorbing ring a lattice can be built with.
pub const MIN_BOUNDARY_WIDTH: u32 = 2;

/// Why a lattice could not be built.
#[derive(Debug, Clone, Copy, PartialEq, Eq, Structural)]
pub enum GridError {
    /// The absorbing ring is narrower than two cells.
    BoundaryTooNarrow,
    /// The lattice with its ring is too large to be held and addressed.
    BoundaryTooWide,
}

/// A ring of this width gives a lattice that can be built.
pub open spec fn valid_boundary_width(boundary_width: u32) -> bool {
    boundary_width >= MIN_BOUNDARY_WIDTH && lattice_fits(boundary_width)
}

/// Index of the last of the shapes that covers cell `(x, y)` of the
/// addressable area, if any does.
pub open spec fn top_cover(shapes: Seq<WallShape>, x: u32, y: u32) -> Option<int>
    decreases shapes.len(),
{
    if shapes.len() == 0 {
        None
    } else if shapes.last().covers(x, y) {
        Some(shapes.len() - 1)
    } else {
        top_cover(shapes.drop_last(), x, y)
    }
}

/// The cell a shape with this reflection factor makes.
pub open spec fn wall_cell(reflection_factor: u32) -> WallCell {
    WallCell { is_wall: true, reflection_factor: effective_reflection(reflection_factor) }
}

/// What the obstacle map holds for cell `(x, y)` of the padded lattice. A
/// cell of the ring has no coordinates in the addressable area, so no shape
/// covers it.
pub open spec fn rasterized_cell(shapes: Seq<WallShape>, boundary_width: u32, x: int, y: int)
    -> WallCell {
    if addressable(x, y, boundary_width) {
        match top_cover(shapes, (x - boundary_width) as u32, (y - boundary_width) as u32) {
            Some(i) => wall_cell(shapes[i].reflection()),
            None => WallCell::open_cell(),
        }
    } else {
        WallCell::open_cell()
    }
}

/// The obstacle map of the shapes on a lattice with the given ring, in
/// row-major order.
pub open spec fn rasterized(shapes: Seq<WallShape>, boundary_width: u32) -> Seq<WallCell> {
    Seq::new(
        padded_cells(boundary_width) as nat,
        |i: int|
            rasterized_cell(
                shapes,
                boundary_width,
                cell_column(i, boundary_width),
                cell_row(i, boundary_width),
            ),
    )
}

/// The padded lattice as far as it is made of whole numbers: the width of
/// its absorbing ring and its obstacle map.
pub struct Grid {
    pub boundary_width: u32,
    /// One entry per cell of the padded lattice, in row-major order.
    pub wall_cache: Vec<WallCell>,
}

fn effective_factor(reflection_factor: u32) -> (factor: u32)
    ensures
        factor == effective_reflection(reflection_factor),
{
    if reflection_factor == 0 || reflection_factor == NEGATIVE_ZERO {
        FULL_REFLECTION
    } else {
        reflection_factor
    }
}

/// The obstacle map's entry for cell `(x, y)` of the padded lattice.
pub fn rasterize_cell(shapes: &Vec<WallShape>, boundary_width: u32, x: u32, y: u32) -> (cell:
    WallCell)
    ensures
        cell == rasterized_cell(shapes@, boundary_width, x as int, y as int),
{
    let mut cell = WallCell::default();
    if x < boundary_width || y < boundary_width || x - boundary_width >= SIMULATION_WIDTH || y
        - boundary_width >= SIMULATION_HEIGHT {
        return cell;
    }
    let user_x: u32 = x - boundary_width;
    let user_y: u32 = y - boundary_width;
    let mut k: usize = 0;
    while k < shapes.len()
        invariant
            k <= shapes.len(),
            cell == (match top_cover(shapes@.take(k as int), user_x, user_y) {
                Some(i) => wall_cell(shapes@[i].reflection()),
                None => WallCell::open_cell(),
            }),
        decreases shapes.len() - k,
    {
        proof {
            let next = shapes@.take(k + 1);
            assert(next.drop_last() == shapes@.take(k as int));
            assert(next.last() == shapes@[k as int]);
        }
        if shapes[k].contains(user_x, user_y) {
            cell = WallCell {
                is_wall: true,
                reflection_factor: effective_factor(shapes[k].get_reflection_factor()),
            };
        }
        k += 1;
    }
    proof {
        assert(shapes@.take(shapes.len() as int) == shapes@);
    }
    cell
}

impl Grid {
    /// The grid's invariant: its ring is valid and its obstacle map has one
    /// entry per cell.
    pub open spec fn wf(&self) -> bool {
        &&& valid_boundary_width(self.boundary_width)
        &&& self.wall_cache@.len() == padded_cells(self.boundary_width)
    }

    /// Whether the grid's invariant holds, for callers that have written to
    /// its fields.
    pub fn is_valid(&self) -> (valid: bool)
        ensures
            valid == self.wf(),
    {
        if self.boundary_width < MIN_BOUNDARY_WIDTH || !lattice_fits_in_memory(
            self.boundary_width,
        ) {
            return false;
        }
        let width: u64 = SIMULATION_WIDTH as u64 + 2 * (self.boundary_width as u64);
        let height: u64 = SIMULATION_HEIGHT as u64 + 2 * (self.boundary_width as u64);
        assert(width * height == padded_cells(self.boundary_width)) by (nonlinear_arith)
            requires
                width == padded_width(self.boundary_width),
                height == padded_height(self.boundary_width),
                padded_cells(self.boundary_width) == padded_width(self.boundary_width)
                    * padded_height(self.boundary_width),
        ;
        assert(padded_cells(self.boundary_width) <= usize::MAX) by (nonlinear_arith)
            requires
                crate::math::constants::NUM_INDEX * padded_cells(self.boundary_width)
                    <= usize::MAX,
                padded_cells(self.boundary_width) >= 0,
        ;
        self.wall_cache.len() as u64 == width * height
    }

    /// A lattice without walls. A ring narrower than two cells, or so wide
    /// that the lattice cannot be held, is turned down.
    pub fn new(boundary_width: u32) -> (made: Result<Grid, GridError>)
        ensures
            made is Ok <==> valid_boundary_width(boundary_width),
            made == Err::<Grid, GridError>(GridError::BoundaryTooNarrow) <==> boundary_width
                < MIN_BOUNDARY_WIDTH,
            made == Err::<Grid, GridError>(GridError::BoundaryTooWide) <==> boundary_width
                >= MIN_BOUNDARY_WIDTH && !lattice_fits(boundary_width),
            made matches Ok(grid) ==> {
                &&& grid.wf()
                &&& grid.boundary_width == boundary_width
                &&& grid.wall_cache@ == rasterized(Seq::<WallShape>::empty(), boundary_width)
            },
    {
        if boundary_width < MIN_BOUNDARY_WIDTH {
            return Err(GridError::BoundaryTooNarrow);
        }
        if !lattice_fits_in_memory(boundary_width) {
            return Err(GridError::BoundaryTooWide);
        }
        let shapes: Vec<WallShape> = Vec::new();
        let wall_cache = rasterize(&shapes, boundary_width);
        Ok(Grid { boundary_width, wall_cache })
    }

    /// Rebuilds the obstacle map from the shapes, which are given in the
    /// order in which they were inserted: where shapes overlap, the one
    /// inserted last decides.
    pub fn update_walls(&mut self, shapes: &Vec<WallShape>)
        requires
            old(self).wf(),
        ensures
            final(self).wf(),
            final(self).boundary_width == old(self).boundary_width,
            final(self).wall_cache@ == rasterized(shapes@, old(self).boundary_width),
            final(self).wall_cache@.len() == (SIMULATION_WIDTH + 2 * old(self).boundary_width) * (
            SIMULATION_HEIGHT + 2 * old(self).boundary_width),
    {
        self.wall_cache = rasterize(shapes, self.boundary_width);
    }

    /// Changes the width of the absorbing ring. The lattice changes its
    /// size with it, so the obstacle map is rebuilt from the shapes. A width
    /// that no lattice can be built with is turned down and changes nothing.
    pub fn set_boundary_width(&mut self, boundary_width: u32, shapes: &Vec<WallShape>) -> (done:
        Result<(), GridError>)
        requires
            old(self).wf(),
        ensures
            final(self).wf(),
            done is Ok <==> valid_boundary_width(boundary_width),
            done == Err::<(), GridError>(GridError::BoundaryTooNarrow) <==> boundary_width
                < MIN_BOUNDARY_WIDTH,
            done == Err::<(), GridError>(GridError::BoundaryTooWide) <==> boundary_width
                >= MIN_BOUNDARY_WIDTH && !lattice_fits(boundary_width),
            done is Ok ==> final(self).boundary_width == boundary_width && final(self).wall_cache@
                == rasterized(shapes@, boundary_width),
            done is Err ==> *final(self) == *old(self),
    {
        if boundary_width < MIN_BOUNDARY_WIDTH {
            return Err(GridError::BoundaryTooNarrow);
        }
        if !lattice_fits_in_memory(boundary_width) {
            return Err(GridError::BoundaryTooWide);
        }
        self.boundary_width = boundary_width;
        self.wall_cache = rasterize(shapes, boundary_width);
        Ok(())
    }

    /// Columns of the padded lattice.
    pub fn width(&self) -> (width: u32)
        requires
            self.wf(),
        ensures
            width == padded_width(self.boundary_width),
    {
        SIMULATION_WIDTH + 2 * self.boundary_width
    }

    /// Rows of the padded lattice.
    pub fn height(&self) -> (height: u32)
        requires
            self.wf(),
        ensures
            height == padded_height(self.boundary_width),
    {
        SIMULATION_HEIGHT + 2 * self.boundary_width
    }

    /// Position, in row-major order, of the lattice cell that holds cell
    /// `(x, y)` of the addressable area: where a source at `(x, y)` feeds
    /// the lattice and a microphone at `(x, y)` listens.
    pub fn index_of(&self, x: u32, y: u32) -> (index: usize)
        requires
            self.wf(),
            in_simulation_area(x as int, y as int),
        ensures
            index == cell_index(
                x + self.boundary_width,
                y + self.boundary_width,
                self.boundary_width,
            ),
            index < self.wall_cache@.len(),
    {
        coords_to_index(x + self.boundary_width, y + self.boundary_width, self.boundary_width)
    }

    /// Whether cell `(x, y)` of the addressable area is a wall.
    pub fn is_wall(&self, x: u32, y: u32) -> (wall: bool)
        requires
            self.wf(),
            in_simulation_area(x as int, y as int),
        ensures
            wall == self.wall_cache@[cell_index(
                x + self.boundary_width,
                y + self.boundary_width,
                self.boundary_width,
            )].is_wall,
    {
        self.wall_cache[self.index_of(x, y)].is_wall
    }

    /// The obstacle map's entry for cell `(x, y)` of the padded lattice.
    pub fn wall_at(&self, x: u32, y: u32) -> (cell: WallCell)
        requires
            self.wf(),
            on_lattice(x as int, y as int, self.boundary_width),
        ensures
            cell == self.wall_cache@[cell_index(x as int, y as int, self.boundary_width)],
    {
        self.wall_cache[coords_to_index(x, y, self.boundary_width)]
    }
}

/// The obstacle map of the shapes on a lattice with the given ring.
pub fn rasterize(shapes: &Vec<WallShape>, boundary_width: u32) -> (cache: Vec<WallCell>)
    requires
        lattice_fits(boundary_width),
    ensures
        cache@ == rasterized(shapes@, boundary_width),
        cache@.len() == padded_cells(boundary_width),
{
    let width: u32 = SIMULATION_WIDTH + 2 * boundary_width;
    let height: u32 = SIMULATION_HEIGHT + 2 * boundary_width;
    let mut cache: Vec<WallCell> = Vec::new();
    let mut y: u32 = 0;
    while y < height
        invariant
            lattice_fits(boundary_width),
            width == padded_width(boundary_width),
            height == padded_height(boundary_width),
            y <= height,
            cache@.len() == y * width,
            forall|i: int|
                0 <= i < cache@.len() ==> cache@[i] == #[trigger] rasterized(
                    shapes@,
                    boundary_width,
                )[i],
        decreases height - y,
    {
        let mut x: u32 = 0;
        while x < width
            invariant
                lattice_fits(boundary_width),
                width == padded_width(boundary_width),
                height == padded_height(boundary_width),
                y < height,
                x <= width,
                cache@.len() == y * width + x,
                forall|i: int|
                    0 <= i < cache@.len() ==> cache@[i] == #[trigger] rasterized(
                        shapes@,
                        boundary_width,
                    )[i],
            decreases width - x,
        {
            proof {
                lemma_index_of_cell(x as int, y as int, boundary_width);
            }
            let cell = rasterize_cell(shapes, boundary_width, x, y);
            cache.push(cell);
            x += 1;
        }
        proof {
            assert(y * width + width == (y + 1) * width) by (nonlinear_arith);
        }
        y += 1;
    }
    proof {
        assert(height * width == padded_cells(boundary_width)) by (nonlinear_arith)
            requires
                width == padded_width(boundary_width),
                height == padded_height(boundary_width),
                padded_cells(boundary_width) == padded_width(boundary_width) * padded_height(
                    boundary_width,
                ),
        ;
        assert(cache@ =~= rasterized(shapes@, boundary_width));
    }
    cache
}

/// The obstacle map has one entry for every cell of the padded lattice,
/// whatever the shapes and the width of the ring.
pub proof fn lemma_one_entry_per_cell(shapes: Seq<WallShape>, boundary_width: u32)
    ensures
        rasterized(shapes, boundary_width).len() == (SIMULATION_WIDTH + 2 * boundary_width) * (
        SIMULATION_HEIGHT + 2 * boundary_width),
{
    assert(padded_cells(boundary_width) >= 0) by (nonlinear_arith)
        requires
            padded_cells(boundary_width) == padded_width(boundary_width) * padded_height(
                boundary_width,
            ),
            padded_width(boundary_width) >= 0,
            padded_height(boundary_width) >= 0,
    ;
}

/// The entry of cell `(x, y)` of the padded lattice stands at the cell's
/// position in row-major order.
pub proof fn lemma_entry_of_cell(shapes: Seq<WallShape>, boundary_width: u32, x: int, y: int)
    requires
        on_lattice(x, y, boundary_width),
    ensures
        0 <= cell_index(x, y, boundary_width) < rasterized(shapes, boundary_width).len(),
        rasterized(shapes, boundary_width)[cell_index(x, y, boundary_width)] == rasterized_cell(
            shapes,
            boundary_width,
            x,
            y,
        ),
{
    lemma_index_of_cell(x, y, boundary_width);
}

/// Where shapes overlap the last one decides: the index that `top_cover`
/// gives is that of a shape that covers the cell, and no shape after it
/// does. It gives none only where no shape covers the cell.
pub proof fn lemma_top_cover_is_last(shapes: Seq<WallShape>, x: u32, y: u32)
    ensures
        match top_cover(shapes, x, y) {
            Some(i) => {
                &&& 0 <= i < shapes.len()
                &&& shapes[i].covers(x, y)
                &&& forall|j: int| i < j < shapes.len() ==> !(#[trigger] shapes[j]).covers(x, y)
            },
            None => forall|j: int| 0 <= j < shapes.len() ==> !(#[trigger] shapes[j]).covers(x, y),
        },
    decreases shapes.len(),
{
    if shapes.len() > 0 && !shapes.last().covers(x, y) {
        lemma_top_cover_is_last(shapes.drop_last(), x, y);
        assert(forall|j: int|
            0 <= j < shapes.len() - 1 ==> shapes.drop_last()[j] == #[trigger] shapes[j]);
    }
}

/// A cell of the addressable area is a wall exactly if one of the shapes
/// covers it. `(x, y)` is a cell of the addressable area.
pub proof fn lemma_wall_iff_covered(shapes: Seq<WallShape>, boundary_width: u32, x: u32, y: u32)
    requires
        in_simulation_area(x as int, y as int),
    ensures
        rasterized(shapes, boundary_width)[cell_index(
            x + boundary_width,
            y + boundary_width,
            boundary_width,
        )].is_wall <==> exists|k: int| 0 <= k < shapes.len() && (#[trigger] shapes[k]).covers(x, y),
{
    lemma_entry_of_cell(shapes, boundary_width, x + boundary_width, y + boundary_width);
    lemma_top_cover_is_last(shapes, x, y);
}

/// The order of the shapes matters only where they overlap: two shapes that
/// follow each other and cover no cell in common can change places without
/// any change to the obstacle map.
pub proof fn lemma_order_matters_only_for_overlap(
    shapes: Seq<WallShape>,
    i: int,
    boundary_width: u32,
)
    requires
        0 <= i,
        i + 1 < shapes.len(),
        forall|x: u32, y: u32| !(shapes[i].covers(x, y) && shapes[i + 1].covers(x, y)),
    ensures
        rasterized(shapes.update(i, shapes[i + 1]).update(i + 1, shapes[i]), boundary_width)
            == rasterized(shapes, boundary_width),
{
    let swapped = shapes.update(i, shapes[i + 1]).update(i + 1, shapes[i]);
    assert forall|index: int| 0 <= index < padded_cells(boundary_width) implies rasterized(
        swapped,
        boundary_width,
    )[index] == rasterized(shapes, boundary_width)[index] by {
        let px = cell_column(index, boundary_width);
        let py = cell_row(index, boundary_width);
        if addressable(px, py, boundary_width) {
            let x = (px - boundary_width) as u32;
            let y = (py - boundary_width) as u32;
            lemma_top_cover_is_last(shapes, x, y);
            lemma_top_cover_is_last(swapped, x, y);
            assert(!(shapes[i].covers(x, y) && shapes[i + 1].covers(x, y)));
            match top_cover(shapes, x, y) {
                Some(t) => {
                    let moved = if t == i {
                        i + 1
                    } else if t == i + 1 {
                        i
                    } else {
                        t
                    };
                    assert(swapped[moved] == shapes[t]);
                    assert(swapped[moved].covers(x, y));
                    match top_cover(swapped, x, y) {
                        Some(u) => {
                            if u < moved {
                                assert(!swapped[moved].covers(x, y));
                            }
                            if u > moved {
                                let back = if u == i {
                                    i + 1
                                } else if u == i + 1 {
                                    i
                                } else {
                                    u
                                };
                                assert(shapes[back] == swapped[u]);
                                assert(shapes[back].covers(x, y));
                                if back > t {
                                    assert(!shapes[back].covers(x, y));
                                }
                            }
                        },
                        None => {
                            assert(!swapped[moved].covers(x, y));
                        },
                    }
                },
                None => {
                    match top_cover(swapped, x, y) {
                        Some(u) => {
                            let back = if u == i {
                                i + 1
                            } else if u == i + 1 {
                                i
                            } else {
                                u
                            };
                            assert(shapes[back] == swapped[u]);
                            assert(!shapes[back].covers(x, y));
                        },
                        None => {},
                    }
                },
            }
        }
    }
    assert(rasterized(swapped, boundary_width) =~= rasterized(shapes, boundary_width));
}

/// Without shapes no cell of the obstacle map is a wall.
pub proof fn lemma_no_shapes_no_walls(boundary_width: u32, index: int)
    requires
        0 <= index < rasterized(Seq::<WallShape>::empty(), boundary_width).len(),
    ensures
        !rasterized(Seq::<WallShape>::empty(), boundary_width)[index].is_wall,
        rasterized(Seq::<WallShape>::empty(), boundary_width)[index] == WallCell::open_cell(),
{
}

/// No cell of the absorbing ring is a wall.
pub proof fn lemma_ring_has_no_walls(shapes: Seq<WallShape>, boundary_width: u32, x: int, y: int)
    requires
        on_lattice(x, y, boundary_width),
        !addressable(x, y, boundary_width),
    ensures
        rasterized(shapes, boundary_width)[cell_index(x, y, boundary_width)]
            == WallCell::open_cell(),
{
    lemma_entry_of_cell(shapes, boundary_width, x, y);
}

/// Two filled rectangles that overlap: every cell that both cover is a wall
/// with the reflection factor of the one that was inserted later. `(x, y)`
/// is a cell of the addressable area. A later rectangle whose factor is zero
/// is left out, since zero is replaced when the map is built.
pub proof fn lemma_later_rectangle_wins(
    first: RectWall,
    second: RectWall,
    boundary_width: u32,
    x: u32,
    y: u32,
)
    requires
        first.wf(),
        second.wf(),
        !first.is_hollow,
        !second.is_hollow,
        first.covers(x, y),
        second.covers(x, y),
        !is_zero_factor(second.reflection_factor),
    ensures
        rasterized(
            seq![WallShape::Rect(first), WallShape::Rect(second)],
            boundary_width,
        )[cell_index(x + boundary_width, y + boundary_width, boundary_width)] == (WallCell {
            is_wall: true,
            reflection_factor: second.reflection_factor,
        }),
{
    let shapes = seq![WallShape::Rect(first), WallShape::Rect(second)];
    lemma_entry_of_cell(shapes, boundary_width, x + boundary_width, y + boundary_width);
    assert(shapes.last() == WallShape::Rect(second));
}

/// Where every shape has a reflection factor that is zero or a fraction of
/// one, every entry of the obstacle map has a factor greater than zero and
/// at most one.
pub proof fn lemma_factors_are_fractions(shapes: Seq<WallShape>, boundary_width: u32, index: int)
    requires
        forall|k: int|
            0 <= k < shapes.len() ==> is_zero_factor((#[trigger] shapes[k]).reflection())
                || is_unit_fraction(shapes[k].reflection()),
        0 <= index < rasterized(shapes, boundary_width).len(),
    ensures
        is_unit_fraction(rasterized(shapes, boundary_width)[index].reflection_factor),
{
    lemma_cell_of_index(index, boundary_width);
    let x = cell_column(index, boundary_width);
    let y = cell_row(index, boundary_width);
    if addressable(x, y, boundary_width) {
        lemma_top_cover_is_last(shapes, (x - boundary_width) as u32, (y - boundary_width) as u32);
    }
}

} // verus!
