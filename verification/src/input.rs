//! What a click or a drag of the pointer means for the things on the lattice.

pub mod systems;
