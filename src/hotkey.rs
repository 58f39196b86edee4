use vstd::prelude::*;

verus! {

#[derive(Debug, Clone)]
pub enum HotkeyError {
    Error(String),
}

/// What a change of the trigger key asks for.
#[derive(Debug, Clone, Copy, PartialEq, Eq, Structural)]
pub enum HotkeyAction {
    StartRecording,
    StopRecording,
    Nothing,
}

/// Turns the trigger key's level into push-to-talk edges: pressing starts a
/// recording, releasing stops it, and repeats of the same level do nothing.
#[derive(Debug, Clone, Copy, PartialEq, Eq, Structural)]
pub struct HotkeyTracker {
    pub pressed: bool,
    pub recording: bool,
}

impl HotkeyTracker {
    pub fn new() -> (r: Self)
        ensures
            !r.pressed && !r.recording,
    {
        HotkeyTracker { pressed: false, recording: false }
    }

    /// Takes the key's current level.
    pub fn on_key(&mut self, pressed: bool) -> (r: HotkeyAction)
        ensures
            final(self).pressed == pressed,
            pressed && !old(self).pressed && !old(self).recording ==> r
                == HotkeyAction::StartRecording && final(self).recording,
            !pressed && old(self).pressed && old(self).recording ==> r
                == HotkeyAction::StopRecording && !final(self).recording,
            !(pressed && !old(self).pressed && !old(self).recording)
                && !(!pressed && old(self).pressed && old(self).recording)
                ==> r == HotkeyAction::Nothing && final(self).recording == old(self).recording,
    {
        let was = self.pressed;
        self.pressed = pressed;
        if pressed && !was && !self.recording {
            self.recording = true;
            HotkeyAction::StartRecording
        } else if !pressed && was && self.recording {
            self.recording = false;
            HotkeyAction::StopRecording
        } else {
            HotkeyAction::Nothing
        }
    }
}

} // verus!
