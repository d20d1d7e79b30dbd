use vstd::prelude::*;

use crate::math::constants::{NUM_INDEX, SIMULATION_HEIGHT, SIMULATION_WIDTH};
use crate::math::transformations::{
    cell_index, lattice_fits, lemma_cell_index_injective, lemma_index_of_cell, on_lattice,
    padded_cells, port_index,
};

verus! {

/// The four directions in which a cell exchanges flux with its neighbours.
/// Rows are counted downwards, so the cell below has the larger row.
#[derive(Debug, Clone, Copy, PartialEq, Eq, Structural)]
pub enum Direction {
    Bottom,
    Left,
    Top,
    Right,
}

/// Among the values of a cell, the first of the four that arrive.
pub const INCOMING: u32 = 0;

/// Among the values of a cell, the first of the four that leave.
pub const OUTGOING: u32 = 4;

/// Among the values of a cell, its pressure.
pub const PRESSURE: u32 = 8;

impl Direction {
    /// Place of the direction among the four: bottom, left, top, right.
    pub open spec fn rank(self) -> int {
        match self {
            Direction::Bottom => 0,
            Direction::Left => 1,
            Direction::Top => 2,
            Direction::Right => 3,
        }
    }

    /// The direction that looks back.
    pub open spec fn opposite(self) -> Direction {
        match self {
            Direction::Bottom => Direction::Top,
            Direction::Left => Direction::Right,
            Direction::Top => Direction::Bottom,
            Direction::Right => Direction::Left,
        }
    }

    /// The cell next to `(x, y)` in this direction.
    pub open spec fn neighbour(self, x: int, y: int) -> (int, int) {
        match self {
            Direction::Bottom => (x, y + 1),
            Direction::Left => (x - 1, y),
            Direction::Top => (x, y - 1),
            Direction::Right => (x + 1, y),
        }
    }

    /// Place of the direction among the four.
    pub fn index(self) -> (rank: u32)
        ensures
            rank == self.rank(),
    {
        match self {
            Direction::Bottom => 0,
            Direction::Left => 1,
            Direction::Top => 2,
            Direction::Right => 3,
        }
    }

    /// The direction that looks back.
    pub fn reversed(self) -> (back: Direction)
        ensures
            back == self.opposite(),
    {
        match self {
            Direction::Bottom => Direction::Top,
            Direction::Left => Direction::Right,
            Direction::Top => Direction::Bottom,
            Direction::Right => Direction::Left,
        }
    }
}

/// Position, among the values of all cells, of what arrives at cell `(x, y)`
/// from `direction`.
pub open spec fn incoming_at(x: int, y: int, direction: Direction, boundary_width: u32) -> int {
    cell_index(x, y, boundary_width) * NUM_INDEX + INCOMING + direction.rank()
}

/// Position, among the values of all cells, of what leaves cell `(x, y)`
/// towards `direction`.
pub open spec fn outgoing_at(x: int, y: int, direction: Direction, boundary_width: u32) -> int {
    cell_index(x, y, boundary_width) * NUM_INDEX + OUTGOING + direction.rank()
}

/// Where the flux comes from that arrives at cell `(x, y)` from `direction`:
/// it is what the neighbour in that direction sends back towards the cell.
/// At the border of the lattice there is no neighbour and nothing arrives.
pub open spec fn source_of(x: int, y: int, direction: Direction, boundary_width: u32) -> Option<
    int,
> {
    let (nx, ny) = direction.neighbour(x, y);
    if on_lattice(nx, ny, boundary_width) {
        Some(outgoing_at(nx, ny, direction.opposite(), boundary_width))
    } else {
        None
    }
}

/// Position of what arrives at cell `(x, y)` from `direction`.
pub fn incoming_port(x: u32, y: u32, direction: Direction, boundary_width: u32) -> (index: usize)
    requires
        lattice_fits(boundary_width),
        on_lattice(x as int, y as int, boundary_width),
    ensures
        index == incoming_at(x as int, y as int, direction, boundary_width),
        index < NUM_INDEX * padded_cells(boundary_width),
{
    port_index(x, y, INCOMING + direction.index(), boundary_width)
}

/// Position of what leaves cell `(x, y)` towards `direction`.
pub fn outgoing_port(x: u32, y: u32, direction: Direction, boundary_width: u32) -> (index: usize)
    requires
        lattice_fits(boundary_width),
        on_lattice(x as int, y as int, boundary_width),
    ensures
        index == outgoing_at(x as int, y as int, direction, boundary_width),
        index < NUM_INDEX * padded_cells(boundary_width),
{
    port_index(x, y, OUTGOING + direction.index(), boundary_width)
}

/// Position of the pressure of cell `(x, y)`.
pub fn pressure_port(x: u32, y: u32, boundary_width: u32) -> (index: usize)
    requires
        lattice_fits(boundary_width),
        on_lattice(x as int, y as int, boundary_width),
    ensures
        index == cell_index(x as int, y as int, boundary_width) * NUM_INDEX + PRESSURE,
        index < NUM_INDEX * padded_cells(boundary_width),
{
    port_index(x, y, PRESSURE, boundary_width)
}

/// Position of the value that flows into cell `(x, y)` from `direction` when
/// the lattice is advanced, if there is one.
pub fn feeding_port(x: u32, y: u32, direction: Direction, boundary_width: u32) -> (source: Option<
    usize,
>)
    requires
        lattice_fits(boundary_width),
        on_lattice(x as int, y as int, boundary_width),
    ensures
        match source {
            Some(index) => source_of(x as int, y as int, direction, boundary_width) == Some(
                index as int,
            ) && index < NUM_INDEX * padded_cells(boundary_width),
            None => source_of(x as int, y as int, direction, boundary_width) is None,
        },
{
    let width: u32 = SIMULATION_WIDTH + 2 * boundary_width;
    let height: u32 = SIMULATION_HEIGHT + 2 * boundary_width;
    match direction {
        Direction::Bottom => {
            if y + 1 < height {
                Some(outgoing_port(x, y + 1, Direction::Top, boundary_width))
            } else {
                None
            }
        },
        Direction::Left => {
            if x > 0 {
                Some(outgoing_port(x - 1, y, Direction::Right, boundary_width))
            } else {
                None
            }
        },
        Direction::Top => {
            if y > 0 {
                Some(outgoing_port(x, y - 1, Direction::Bottom, boundary_width))
            } else {
                None
            }
        },
        Direction::Right => {
            if x + 1 < width {
                Some(outgoing_port(x + 1, y, Direction::Left, boundary_width))
            } else {
                None
            }
        },
    }
}

/// Nothing is lost or doubled between two cells of the lattice: what cell
/// `(x, y)` sends towards a neighbour is what arrives at that neighbour from
/// the direction of `(x, y)`, and at no other port of any cell.
pub proof fn lemma_flux_reaches_one_port(
    x: int,
    y: int,
    direction: Direction,
    other_x: int,
    other_y: int,
    other_direction: Direction,
    boundary_width: u32,
)
    requires
        on_lattice(x, y, boundary_width),
        on_lattice(other_x, other_y, boundary_width),
    ensures
        source_of(other_x, other_y, other_direction, boundary_width) == Some(
            outgoing_at(x, y, direction, boundary_width),
        ) <==> (other_x, other_y) == direction.neighbour(x, y) && other_direction
            == direction.opposite(),
{
    let (nx, ny) = other_direction.neighbour(other_x, other_y);
    if on_lattice(nx, ny, boundary_width) {
        lemma_index_of_cell(nx, ny, boundary_width);
        lemma_index_of_cell(x, y, boundary_width);
        let a = cell_index(nx, ny, boundary_width);
        let b = cell_index(x, y, boundary_width);
        let p = other_direction.opposite().rank();
        let q = direction.rank();
        if a * NUM_INDEX + OUTGOING + p == b * NUM_INDEX + OUTGOING + q {
            assert(a == b && p == q) by (nonlinear_arith)
                requires
                    a * 9 + 4 + p == b * 9 + 4 + q,
                    0 <= p < 4,
                    0 <= q < 4,
            ;
            lemma_cell_index_injective(nx, ny, x, y, boundary_width);
        }
    }
}

} // verus!
