use vstd::prelude::*;

use crate::math::constants::{
    in_simulation_area, NUM_INDEX, SIMULATION_HEIGHT, SIMULATION_WIDTH,
};

verus! {

/// Columns of the lattice once a ring of `boundary_width` cells surrounds
/// the addressable area.
pub open spec fn padded_width(boundary_width: u32) -> int {
    SIMULATION_WIDTH + 2 * boundary_width
}

/// Rows of the padded lattice.
pub open spec fn padded_height(boundary_width: u32) -> int {
    SIMULATION_HEIGHT + 2 * boundary_width
}

/// Cells of the padded lattice.
pub open spec fn padded_cells(boundary_width: u32) -> int {
    padded_width(boundary_width) * padded_height(boundary_width)
}

/// A lattice with this ring can be held and addressed: its coordinates fit
/// the coordinate type, and the values of all its cells can be indexed.
pub open spec fn lattice_fits(boundary_width: u32) -> bool {
    &&& padded_width(boundary_width) <= u32::MAX
    &&& padded_height(boundary_width) <= u32::MAX
    &&& NUM_INDEX * padded_cells(boundary_width) <= usize::MAX
}

/// `v` pulled back to the last cell of an axis with `limit` cells.
pub open spec fn clamp_to_axis(v: u32, limit: u32) -> u32 {
    vstd::math::min(v as int, limit - 1) as u32
}

/// `v` pulled back to the last cell of an axis with `limit` cells.
pub fn clamp_axis(v: u32, limit: u32) -> (r: u32)
    requires
        limit > 0,
    ensures
        r == clamp_to_axis(v, limit),
        r < limit,
{
    if v < limit {
        v
    } else {
        limit - 1
    }
}

/// Cell `(x, y)` of the padded lattice exists.
pub open spec fn on_lattice(x: int, y: int, boundary_width: u32) -> bool {
    0 <= x < padded_width(boundary_width) && 0 <= y < padded_height(boundary_width)
}

/// Cell `(x, y)` of the padded lattice belongs to the addressable area, that
/// is, not to the ring.
pub open spec fn addressable(x: int, y: int, boundary_width: u32) -> bool {
    boundary_width <= x < SIMULATION_WIDTH + boundary_width && boundary_width <= y
        < SIMULATION_HEIGHT + boundary_width
}

/// Position of cell `(x, y)` of the padded lattice in row-major order.
pub open spec fn cell_index(x: int, y: int, boundary_width: u32) -> int {
    y * padded_width(boundary_width) + x
}

/// Column of the cell at position `index`.
pub open spec fn cell_column(index: int, boundary_width: u32) -> int {
    index % padded_width(boundary_width)
}

/// Row of the cell at position `index`.
pub open spec fn cell_row(index: int, boundary_width: u32) -> int {
    index / padded_width(boundary_width)
}

/// Every cell of the lattice has a position below the number of cells, and
/// the position gives the cell back.
pub proof fn lemma_index_of_cell(x: int, y: int, boundary_width: u32)
    requires
        on_lattice(x, y, boundary_width),
    ensures
        0 <= cell_index(x, y, boundary_width) < padded_cells(boundary_width),
        cell_column(cell_index(x, y, boundary_width), boundary_width) == x,
        cell_row(cell_index(x, y, boundary_width), boundary_width) == y,
{
    let w = padded_width(boundary_width);
    let h = padded_height(boundary_width);
    assert(0 <= y * w && (y + 1) * w <= h * w && (y + 1) * w == y * w + w && h * w == w * h)
        by (nonlinear_arith)
        requires
            0 <= y < h,
            0 < w,
    ;
    vstd::arithmetic::div_mod::lemma_fundamental_div_mod_converse(y * w + x, w, y, x);
}

/// Every position below the number of cells belongs to a cell of the
/// lattice, and the cell gives the position back.
pub proof fn lemma_cell_of_index(index: int, boundary_width: u32)
    requires
        0 <= index < padded_cells(boundary_width),
    ensures
        on_lattice(
            cell_column(index, boundary_width),
            cell_row(index, boundary_width),
            boundary_width,
        ),
        cell_index(
            cell_column(index, boundary_width),
            cell_row(index, boundary_width),
            boundary_width,
        ) == index,
{
    let w = padded_width(boundary_width);
    let h = padded_height(boundary_width);
    vstd::arithmetic::div_mod::lemma_fundamental_div_mod(index, w);
    vstd::arithmetic::div_mod::lemma_mod_bound(index, w);
    let q = index / w;
    assert(0 <= q < h) by (nonlinear_arith)
        requires
            0 <= index < w * h,
            index == w * q + index % w,
            0 <= index % w < w,
            0 < w,
    ;
    assert(w * q == q * w) by (nonlinear_arith);
}

/// Two different cells of the lattice have different positions.
pub proof fn lemma_cell_index_injective(x0: int, y0: int, x1: int, y1: int, boundary_width: u32)
    requires
        on_lattice(x0, y0, boundary_width),
        on_lattice(x1, y1, boundary_width),
        cell_index(x0, y0, boundary_width) == cell_index(x1, y1, boundary_width),
    ensures
        x0 == x1,
        y0 == y1,
{
    lemma_index_of_cell(x0, y0, boundary_width);
    lemma_index_of_cell(x1, y1, boundary_width);
}

/// The widest ring whose lattice can be held and addressed on every machine.
pub const WIDEST_PORTABLE_RING: u32 = 10572;

/// On every machine a lattice can be held and addressed if its ring is no
/// wider than `WIDEST_PORTABLE_RING`.
pub proof fn lemma_small_rings_fit(boundary_width: u32)
    requires
        boundary_width <= WIDEST_PORTABLE_RING,
    ensures
        lattice_fits(boundary_width),
{
    let w = padded_width(boundary_width);
    let h = padded_height(boundary_width);
    assert(w * h <= 21844 * 21844) by (nonlinear_arith)
        requires
            0 <= w <= 21844,
            0 <= h <= 21844,
    ;
}

/// Whether a lattice with this ring can be held and addressed.
pub fn lattice_fits_in_memory(boundary_width: u32) -> (fits: bool)
    ensures
        fits == lattice_fits(boundary_width),
{
    let width: u64 = SIMULATION_WIDTH as u64 + 2 * (boundary_width as u64);
    let height: u64 = SIMULATION_HEIGHT as u64 + 2 * (boundary_width as u64);
    if width > u32::MAX as u64 || height > u32::MAX as u64 {
        return false;
    }
    assert(width * height <= 0xFFFF_FFFF * 0xFFFF_FFFF) by (nonlinear_arith)
        requires
            0 <= width <= 0xFFFF_FFFF,
            0 <= height <= 0xFFFF_FFFF,
    ;
    let values: u128 = NUM_INDEX as u128 * ((width * height) as u128);
    values <= usize::MAX as u128
}

/// Position of cell `(x, y)` of the padded lattice in row-major order.
pub fn coords_to_index(x: u32, y: u32, boundary_width: u32) -> (index: usize)
    requires
        lattice_fits(boundary_width),
        on_lattice(x as int, y as int, boundary_width),
    ensures
        index == cell_index(x as int, y as int, boundary_width),
        index < padded_cells(boundary_width),
{
    proof {
        lemma_index_of_cell(x as int, y as int, boundary_width);
    }
    let width: usize = (SIMULATION_WIDTH + 2 * boundary_width) as usize;
    assert(y * width <= cell_index(x as int, y as int, boundary_width)) by (nonlinear_arith)
        requires
            width == padded_width(boundary_width),
            cell_index(x as int, y as int, boundary_width) == y * width + x,
            0 <= x,
    ;
    y as usize * width + x as usize
}

/// The cell of the padded lattice at position `index`, column first.
pub fn index_to_coords(index: usize, boundary_width: u32) -> (cell: (u32, u32))
    requires
        lattice_fits(boundary_width),
        index < padded_cells(boundary_width),
    ensures
        cell.0 == cell_column(index as int, boundary_width),
        cell.1 == cell_row(index as int, boundary_width),
        on_lattice(cell.0 as int, cell.1 as int, boundary_width),
        cell_index(cell.0 as int, cell.1 as int, boundary_width) == index,
{
    proof {
        lemma_cell_of_index(index as int, boundary_width);
    }
    let width: usize = (SIMULATION_WIDTH + 2 * boundary_width) as usize;
    ((index % width) as u32, (index / width) as u32)
}

/// Position of value `port` of cell `(x, y)` among the values of all cells:
/// every cell has `NUM_INDEX` values, cell after cell in row-major order.
pub fn port_index(x: u32, y: u32, port: u32, boundary_width: u32) -> (index: usize)
    requires
        lattice_fits(boundary_width),
        on_lattice(x as int, y as int, boundary_width),
        port < NUM_INDEX,
    ensures
        index == cell_index(x as int, y as int, boundary_width) * NUM_INDEX + port,
        index < NUM_INDEX * padded_cells(boundary_width),
{
    let cell = coords_to_index(x, y, boundary_width);
    cell * (NUM_INDEX as usize) + port as usize
}

/// How many cells deep cell `(x, y)` of the padded lattice lies in the
/// absorbing ring: zero in the addressable area, one for the cells next to
/// it, and so on up to the width of the ring at the lattice's border.
pub open spec fn ring_depth(x: int, y: int, boundary_width: u32) -> int {
    vstd::math::max(
        vstd::math::max(boundary_width - x, x - (SIMULATION_WIDTH + boundary_width - 1)),
        vstd::math::max(
            vstd::math::max(boundary_width - y, y - (SIMULATION_HEIGHT + boundary_width - 1)),
            0,
        ),
    )
}

/// The cells of the addressable area are those of depth zero, and no cell
/// of the lattice lies deeper in the ring than the ring is wide.
pub proof fn lemma_ring_depth_bounds(x: int, y: int, boundary_width: u32)
    requires
        on_lattice(x, y, boundary_width),
    ensures
        0 <= ring_depth(x, y, boundary_width) <= boundary_width,
        ring_depth(x, y, boundary_width) == 0 <==> addressable(x, y, boundary_width),
{
}

/// How many cells deep cell `(x, y)` of the padded lattice lies in the
/// absorbing ring.
pub fn depth_in_ring(x: u32, y: u32, boundary_width: u32) -> (depth: u32)
    requires
        lattice_fits(boundary_width),
        on_lattice(x as int, y as int, boundary_width),
    ensures
        depth == ring_depth(x as int, y as int, boundary_width),
        depth <= boundary_width,
        depth == 0 <==> addressable(x as int, y as int, boundary_width),
{
    let last_x: u32 = SIMULATION_WIDTH + boundary_width - 1;
    let last_y: u32 = SIMULATION_HEIGHT + boundary_width - 1;
    let across: u32 = if x < boundary_width {
        boundary_width - x
    } else if x > last_x {
        x - last_x
    } else {
        0
    };
    let along: u32 = if y < boundary_width {
        boundary_width - y
    } else if y > last_y {
        y - last_y
    } else {
        0
    };
    if across >= along {
        across
    } else {
        along
    }
}

/// The cell of the padded lattice that holds cell `(x, y)` of the
/// addressable area, column first.
pub fn to_lattice(x: u32, y: u32, boundary_width: u32) -> (cell: (u32, u32))
    requires
        lattice_fits(boundary_width),
        in_simulation_area(x as int, y as int),
    ensures
        cell.0 == x + boundary_width,
        cell.1 == y + boundary_width,
        addressable(cell.0 as int, cell.1 as int, boundary_width),
        on_lattice(cell.0 as int, cell.1 as int, boundary_width),
{
    (x + boundary_width, y + boundary_width)
}

} // verus!
