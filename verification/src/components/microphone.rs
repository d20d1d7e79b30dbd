use vstd::prelude::*;

use crate::math::constants::{
    in_simulation_area, FFT_WINDOW_SIZE, SIMULATION_HEIGHT, SIMULATION_WIDTH,
};
use crate::math::transformations::{clamp_axis, clamp_to_axis};

verus! {

/// Records the pressure at one cell of the addressable area, tick by tick.
///
/// A sample is a pair of IEEE 754 double-precision bit patterns: the
/// simulated time first, the pressure second. The history is not capped: it
/// grows by one sample per tick until it is cleared.
#[derive(Debug, Clone)]
pub struct Microphone {
    pub x: u32,
    pub y: u32,
    pub id: usize,
    pub record: Vec<[u64; 2]>,
}

/// Where the window of the most recent samples starts in a history of
/// `len` samples.
pub open spec fn window_start(len: int) -> int {
    if len > FFT_WINDOW_SIZE {
        len - FFT_WINDOW_SIZE
    } else {
        0
    }
}

impl Default for Microphone {
    /// A microphone with an empty history in the first cell.
    fn default() -> (mic: Microphone)
        ensures
            mic.x == 0,
            mic.y == 0,
            mic.id == 0,
            mic.record@.len() == 0,
    {
        Microphone { x: 0, y: 0, id: 0, record: Vec::new() }
    }
}

impl Microphone {
    /// The microphone stands in the addressable area.
    pub open spec fn wf(&self) -> bool {
        in_simulation_area(self.x as int, self.y as int)
    }

    /// The window that the spectrum is computed from: the most recent
    /// samples, as many as the window takes. A shorter history is its own
    /// window; nothing is padded.
    pub open spec fn window(&self) -> Seq<[u64; 2]> {
        self.record@.subrange(window_start(self.record@.len() as int), self.record@.len() as int)
    }

    /// A microphone with an empty history at `(x, y)`, pulled into the
    /// addressable area.
    pub fn new(x: u32, y: u32, id: usize) -> (mic: Microphone)
        ensures
            mic.wf(),
            mic.x == clamp_to_axis(x, SIMULATION_WIDTH),
            mic.y == clamp_to_axis(y, SIMULATION_HEIGHT),
            mic.id == id,
            mic.record@.len() == 0,
    {
        Microphone {
            x: clamp_axis(x, SIMULATION_WIDTH),
            y: clamp_axis(y, SIMULATION_HEIGHT),
            id,
            record: Vec::new(),
        }
    }

    /// Moves the microphone to `(x, y)`, pulled into the addressable area.
    /// The history stays.
    pub fn set_position(&mut self, x: u32, y: u32)
        ensures
            final(self).wf(),
            final(self).x == clamp_to_axis(x, SIMULATION_WIDTH),
            final(self).y == clamp_to_axis(y, SIMULATION_HEIGHT),
            final(self).id == old(self).id,
            final(self).record == old(self).record,
    {
        self.x = clamp_axis(x, SIMULATION_WIDTH);
        self.y = clamp_axis(y, SIMULATION_HEIGHT);
    }

    /// Appends the sample of one tick.
    pub fn record(&mut self, time: u64, pressure: u64)
        ensures
            final(self).record@ == old(self).record@.push([time, pressure]),
            final(self).x == old(self).x,
            final(self).y == old(self).y,
            final(self).id == old(self).id,
    {
        self.record.push([time, pressure]);
    }

    /// Empties the history.
    pub fn clear(&mut self)
        ensures
            final(self).record@.len() == 0,
            final(self).window().len() == 0,
            final(self).x == old(self).x,
            final(self).y == old(self).y,
            final(self).id == old(self).id,
    {
        self.record.clear();
    }

    /// The window that the spectrum is computed from.
    pub fn fft_window(&self) -> (window: Vec<[u64; 2]>)
        ensures
            window@ == self.window(),
            window@.len() == vstd::math::min(self.record@.len() as int, FFT_WINDOW_SIZE as int),
    {
        let len = self.record.len();
        let start: usize = if len > FFT_WINDOW_SIZE { len - FFT_WINDOW_SIZE } else { 0 };
        samples_from(&self.record, start)
    }

    /// Forgets all samples but those of the window, for callers that want
    /// the history of a long run to stay small. The window stays as it is.
    pub fn trim(&mut self)
        ensures
            final(self).record@ == old(self).window(),
            final(self).window() == old(self).window(),
            final(self).x == old(self).x,
            final(self).y == old(self).y,
            final(self).id == old(self).id,
    {
        if self.record.len() > FFT_WINDOW_SIZE {
            self.record = self.fft_window();
        }
        assert(self.record@.subrange(0, self.record@.len() as int) == self.record@);
    }

    /// The same microphone with the same history under another number.
    pub fn duplicate(&self, id: usize) -> (copy: Microphone)
        ensures
            copy.x == self.x,
            copy.y == self.y,
            copy.id == id,
            copy.record@ == self.record@,
    {
        let record = samples_from(&self.record, 0);
        assert(self.record@.subrange(0, self.record@.len() as int) == self.record@);
        Microphone { x: self.x, y: self.y, id, record }
    }
}

/// The samples from position `start` on.
fn samples_from(samples: &Vec<[u64; 2]>, start: usize) -> (tail: Vec<[u64; 2]>)
    requires
        start <= samples@.len(),
    ensures
        tail@ == samples@.subrange(start as int, samples@.len() as int),
{
    let len = samples.len();
    let mut tail: Vec<[u64; 2]> = Vec::new();
    let mut i: usize = start;
    while i < len
        invariant
            start <= i <= len,
            len == samples@.len(),
            tail@ == samples@.subrange(start as int, i as int),
        decreases len - i,
    {
        tail.push(samples[i]);
        proof {
            assert(samples@.subrange(start as int, i + 1) == samples@.subrange(
                start as int,
                i as int,
            ).push(samples@[i as int]));
        }
        i += 1;
    }
    tail
}

} // verus!
