use vstd::prelude::*;

verus! {

/// Number of addressable lattice columns.
pub const SIMULATION_WIDTH: u32 = 700;

/// Number of addressable lattice rows.
pub const SIMULATION_HEIGHT: u32 = 700;

/// Screen pixels drawn per lattice cell.
pub const PIXEL_SIZE: u32 = 1;

/// Values stored per lattice cell: four incoming ports, four outgoing ports
/// and the pressure.
pub const NUM_INDEX: u32 = 9;

/// Number of samples in the window handed to the spectrum analysis.
pub const FFT_WINDOW_SIZE: usize = 2048;

/// Default width of the absorbing ring around the addressable area.
pub const E_AL: u32 = 50;

/// The cell `(x, y)` belongs to the addressable area.
pub open spec fn in_simulation_area(x: int, y: int) -> bool {
    0 <= x < SIMULATION_WIDTH && 0 <= y < SIMULATION_HEIGHT
}

} // verus!
