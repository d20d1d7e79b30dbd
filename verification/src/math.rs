//! Constants, points, rectangles and lattice index arithmetic.

pub mod constants;
pub mod rect;
pub mod sqrt;
pub mod transformations;
