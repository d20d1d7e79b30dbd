//! Colour maps and pictures of the pressure field.

pub mod gradient;
pub mod screenshot;
