//! What the user places on the lattice: walls, sources and microphones.

pub mod gizmo;
pub mod microphone;
pub mod shape;
pub mod source;
pub mod wall;
