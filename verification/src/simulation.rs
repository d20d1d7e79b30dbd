//! The padded lattice: its obstacle map, the layout of its ports, the
//! counters that number what is placed on it, and the control of its ticks.

pub mod control;
pub mod grid;
pub mod ids;
pub mod ports;
