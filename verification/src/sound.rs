//! The sound gate: a binary on/off tone switch driven by the sound timer.
//! Repeating either operation changes nothing.

use vstd::prelude::*;

verus! {

/// The on/off state of the tone generator.
pub struct Sound {
    playing: bool,
}

impl View for Sound {
    type V = bool;

    closed spec fn view(&self) -> bool {
        self.playing
    }
}

impl Sound {
    /// A fresh, silent gate.
    pub fn new() -> (s: Sound)
        ensures
            !s@,
    {
        Sound { playing: false }
    }

    /// Begin emitting the tone; on an already playing gate this changes
    /// nothing.
    pub fn play(&mut self)
        ensures
            final(self)@,
    {
        self.playing = true;
    }

    /// Silence the tone; on an already silent gate this changes nothing.
    pub fn stop(&mut self)
        ensures
            !final(self)@,
    {
        self.playing = false;
    }

    /// Whether the tone is currently audible.
    pub fn is_playing(&self) -> (r: bool)
        ensures
            r == self@,
    {
        self.playing
    }
}

} // verus!
