//! State that the editor keeps between frames.

pub mod state;
