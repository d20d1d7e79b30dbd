use vstd::prelude::*;

use crate::math::constants::{in_simulation_area, SIMULATION_HEIGHT, SIMULATION_WIDTH};
use crate::math::transformations::{clamp_axis, clamp_to_axis};

verus! {

/// The waveform of a source.
#[derive(Debug, Clone, Copy, PartialEq, Eq, Structural)]
pub enum SourceType {
    Sin,
    Gauss,
    WhiteNoise,
}

impl Default for SourceType {
    fn default() -> (kind: SourceType)
        ensures
            kind == SourceType::Sin,
    {
        SourceType::Sin
    }
}

/// A sound source at one cell of the addressable area.
///
/// Phase (in degrees), frequency (in hertz) and amplitude are carried as
/// IEEE 754 single-precision bit patterns; what a source emits at a given
/// time is computed from them outside this library.
#[derive(Debug, Clone, Copy, PartialEq, Eq, Structural)]
pub struct Source {
    pub x: u32,
    pub y: u32,
    pub phase: u32,
    pub frequency: u32,
    pub amplitude: u32,
    pub source_type: SourceType,
    pub id: usize,
}

impl Default for Source {
    /// A silent sine in the first cell.
    fn default() -> (source: Source)
        ensures
            source == (Source {
                x: 0,
                y: 0,
                phase: 0,
                frequency: 0,
                amplitude: 0,
                source_type: SourceType::Sin,
                id: 0,
            }),
    {
        Source {
            x: 0,
            y: 0,
            phase: 0,
            frequency: 0,
            amplitude: 0,
            source_type: SourceType::Sin,
            id: 0,
        }
    }
}

impl Source {
    /// The source stands in the addressable area.
    pub open spec fn wf(&self) -> bool {
        in_simulation_area(self.x as int, self.y as int)
    }

    /// A source at `(x, y)`, pulled into the addressable area.
    pub fn new(
        x: u32,
        y: u32,
        amplitude: u32,
        phase: u32,
        frequency: u32,
        source_type: SourceType,
        id: usize,
    ) -> (source: Source)
        ensures
            source.wf(),
            source == (Source {
                x: clamp_to_axis(x, SIMULATION_WIDTH),
                y: clamp_to_axis(y, SIMULATION_HEIGHT),
                phase,
                frequency,
                amplitude,
                source_type,
                id,
            }),
    {
        Source {
            x: clamp_axis(x, SIMULATION_WIDTH),
            y: clamp_axis(y, SIMULATION_HEIGHT),
            phase,
            frequency,
            amplitude,
            source_type,
            id,
        }
    }

    /// Moves the source to `(x, y)`, pulled into the addressable area.
    pub fn set_position(&mut self, x: u32, y: u32)
        ensures
            final(self).wf(),
            *final(self) == (Source {
                x: clamp_to_axis(x, SIMULATION_WIDTH),
                y: clamp_to_axis(y, SIMULATION_HEIGHT),
                ..*old(self)
            }),
    {
        self.x = clamp_axis(x, SIMULATION_WIDTH);
        self.y = clamp_axis(y, SIMULATION_HEIGHT);
    }
}

} // verus!
