use vstd::prelude::*;

verus! {

/// The shape that the wall tool draws.
#[derive(Debug, PartialEq, Eq, Structural, Clone, Copy)]
pub enum WallType {
    Rectangle,
    Circle,
}

/// Ticks since the simulation was started or last reset.
#[derive(Debug, Clone, Copy, PartialEq, Eq, Structural)]
pub struct GameTicks {
    pub ticks_since_start: u64,
}

impl Default for GameTicks {
    fn default() -> (ticks: GameTicks)
        ensures
            ticks.ticks_since_start == 0,
    {
        GameTicks { ticks_since_start: 0 }
    }
}

/// The tool that the pointer currently works with.
#[derive(Debug, PartialEq, Eq, Structural, Copy, Clone)]
pub enum ToolType {
    PlaceSource,
    MoveSource,
    DrawWall,
    ResizeWall,
    MoveWall,
    PlaceMic,
    MoveMic,
}

impl ToolType {
    /// The tool's name as the editor shows it.
    pub open spec fn spec_label(&self) -> Seq<char> {
        match self {
            ToolType::PlaceSource => "Place Source"@,
            ToolType::MoveSource => "Move Source"@,
            ToolType::DrawWall => "Draw Wall"@,
            ToolType::ResizeWall => "Resize Wall"@,
            ToolType::MoveWall => "Move Wall"@,
            ToolType::PlaceMic => "Place Mic"@,
            ToolType::MoveMic => "Move Mic"@,
        }
    }

    /// The tool's name as the editor shows it.
    pub fn label(&self) -> (name: &'static str)
        ensures
            name@ == self.spec_label(),
    {
        match self {
            ToolType::PlaceSource => "Place Source",
            ToolType::MoveSource => "Move Source",
            ToolType::DrawWall => "Draw Wall",
            ToolType::ResizeWall => "Resize Wall",
            ToolType::MoveWall => "Move Wall",
            ToolType::PlaceMic => "Place Mic",
            ToolType::MoveMic => "Move Mic",
        }
    }

    /// The tool's name as an owned string.
    pub fn to_string(&self) -> (name: String)
        ensures
            name@ == self.spec_label(),
    {
        self.label().to_string()
    }
}

/// The microphone whose spectrum is on display, if any.
#[derive(Debug, Clone, Copy, PartialEq, Eq, Structural)]
pub struct FftMicrophone {
    pub mic_id: Option<usize>,
}

impl Default for FftMicrophone {
    fn default() -> (shown: FftMicrophone)
        ensures
            shown.mic_id is None,
    {
        FftMicrophone { mic_id: None }
    }
}

impl FftMicrophone {
    /// Called when the microphone `id` is deleted: if its spectrum was on
    /// display, no spectrum is any more.
    pub fn forget(&mut self, id: usize)
        ensures
            final(self).mic_id == (if old(self).mic_id == Some(id) {
                None
            } else {
                old(self).mic_id
            }),
    {
        match self.mic_id {
            Some(shown) => {
                if shown == id {
                    self.mic_id = None;
                }
            },
            None => {},
        }
    }
}

/// Holds the entity that was copied last, by the number the entity store
/// knows it by.
#[derive(Debug, Clone, Copy, PartialEq, Eq, Structural)]
pub struct ClipboardBuffer {
    buffer: Option<u64>,
}

impl Default for ClipboardBuffer {
    fn default() -> (clipboard: ClipboardBuffer)
        ensures
            clipboard.content() is None,
    {
        ClipboardBuffer { buffer: None }
    }
}

impl ClipboardBuffer {
    /// What the clipboard holds.
    pub closed spec fn content(&self) -> Option<u64> {
        self.buffer
    }

    /// Forgets what was copied.
    pub fn clear(&mut self)
        ensures
            final(self).content() is None,
    {
        self.buffer = None;
    }

    /// The entity that was copied last, if any still is on the clipboard.
    pub fn get(&mut self) -> (entity: Option<u64>)
        ensures
            entity == old(self).content(),
            final(self).content() == old(self).content(),
    {
        self.buffer
    }

    /// Puts an entity on the clipboard, in place of what was there.
    pub fn copy(&mut self, entity: u64)
        ensures
            final(self).content() == Some(entity),
    {
        self.buffer = Some(entity);
    }
}

} // verus!
