use vstd::prelude::*;

verus! {

/// Hands out the numbers by which sources, walls and microphones are known.
/// Each counter holds the number that its kind gets next.
#[derive(Debug, Clone, Copy, PartialEq, Eq, Structural)]
pub struct ComponentIDs {
    pub current_source_id: usize,
    pub current_wall_id: usize,
    pub current_mic_id: usize,
}

impl Default for ComponentIDs {
    fn default() -> (ids: ComponentIDs)
        ensures
            ids == (ComponentIDs { current_source_id: 0, current_wall_id: 0, current_mic_id: 0 }),
    {
        ComponentIDs { current_source_id: 0, current_wall_id: 0, current_mic_id: 0 }
    }
}

impl ComponentIDs {
    /// The number of a new source. No later source gets it again.
    pub fn get_new_source_id(&mut self) -> (id: usize)
        requires
            old(self).current_source_id < usize::MAX,
        ensures
            id == old(self).current_source_id,
            *final(self) == (ComponentIDs { current_source_id: (id + 1) as usize, ..*old(self) }),
    {
        let id = self.current_source_id;
        self.current_source_id = id + 1;
        id
    }

    /// The number of a new wall. No later wall gets it again, unless
    /// `decrement_wall_ids` gives it back.
    pub fn get_new_wall_id(&mut self) -> (id: usize)
        requires
            old(self).current_wall_id < usize::MAX,
        ensures
            id == old(self).current_wall_id,
            *final(self) == (ComponentIDs { current_wall_id: (id + 1) as usize, ..*old(self) }),
    {
        let id = self.current_wall_id;
        self.current_wall_id = id + 1;
        id
    }

    /// The number of a new microphone. No later microphone gets it again.
    pub fn get_new_mic_id(&mut self) -> (id: usize)
        requires
            old(self).current_mic_id < usize::MAX,
        ensures
            id == old(self).current_mic_id,
            *final(self) == (ComponentIDs { current_mic_id: (id + 1) as usize, ..*old(self) }),
    {
        let id = self.current_mic_id;
        self.current_mic_id = id + 1;
        id
    }

    /// Gives back the number that was handed out last: for the wall that
    /// collapsed while it was drawn or resized and was removed on release.
    /// With no number handed out nothing changes.
    pub fn decrement_wall_ids(&mut self)
        ensures
            *final(self) == (ComponentIDs {
                current_wall_id: if old(self).current_wall_id == 0 {
                    0
                } else {
                    (old(self).current_wall_id - 1) as usize
                },
                ..*old(self)
            }),
    {
        if self.current_wall_id > 0 {
            self.current_wall_id = self.current_wall_id - 1;
        }
    }

    /// Whether every counter can still hand out a number.
    pub fn has_room(&self) -> (room: bool)
        ensures
            room == (self.current_source_id < usize::MAX && self.current_wall_id < usize::MAX
                && self.current_mic_id < usize::MAX),
    {
        self.current_source_id < usize::MAX && self.current_wall_id < usize::MAX
            && self.current_mic_id < usize::MAX
    }
}

} // verus!
