//! Verified core of a two-dimensional acoustic wave simulator on a regular
//! lattice: wall geometry, the obstacle map rasterised from it, the layout of
//! the padded lattice and of its ports, the control of its ticks, and the
//! bookkeeping around sources and microphones.
//!
//! Two kinds of coordinates occur. Cells of the addressable area count from
//! zero up to the width and height of the simulation; walls, sources and
//! microphones live there. Cells of the padded lattice count from zero up to
//! the padded width and height; the addressable area starts at the width of
//! the absorbing ring in both directions.
//!
//! Nothing here computes in floating point. Where a value of the simulation
//! is a real number (a reflection factor, an amplitude, a pressure) it is
//! carried as the bit pattern of its IEEE 754 representation and handed on
//! as it is. The only patterns with a meaning here are those of a few named
//! constants, such as zero and one among the reflection factors.

pub mod components;
pub mod input;
pub mod math;
pub mod render;
pub mod simulation;
pub mod ui;
