//! The fetch-tick loop's control state and decisions: quitting, resetting,
//! pausing, pacing adjustments and debug pulses. The surrounding loop polls
//! the host for events, performs I/O and sleeps; every decision is made
//! here.

use vstd::prelude::*;

use crate::emulator::{is_reset_of, System};

verus! {

/// A control action derived from a non-hex host key.
#[derive(Clone, Copy, Debug, PartialEq, Eq, Structural)]
pub enum InputAction {
    Quit,
    Reset,
    Pause,
    DecreaseTick,
    IncreaseTick,
    DebugInfo,
}

/// Default pacing interval in milliseconds.
pub const DEFAULT_TICK_MS: u64 = 16;

/// Pacing adjustment step and floor in milliseconds.
pub const TICK_STEP_MS: u64 = 4;

/// The loop's own state: whether it keeps running, whether dispatch is
/// paused, the pacing interval, and whether every iteration dumps the
/// machine state.
pub struct Runner {
    pub running: bool,
    pub paused: bool,
    pub tick_ms: u64,
    pub dump_state: bool,
}

impl Runner {
    /// A fresh loop state: running, unpaused, at the default pace.
    pub fn new(dump_state: bool) -> (r: Runner)
        ensures
            r.running,
            !r.paused,
            r.tick_ms == DEFAULT_TICK_MS,
            r.dump_state == dump_state,
    {
        Runner { running: true, paused: false, tick_ms: DEFAULT_TICK_MS, dump_state }
    }

    /// Apply one polled control action: Quit stops the loop, Reset
    /// re-initialises the machine (memory kept), Pause toggles dispatch,
    /// the tick actions adjust the pacing interval in 4 ms steps with a
    /// 4 ms floor, and DebugInfo asks for one debug line unless every
    /// iteration dumps one anyway.
    pub fn handle_action(&mut self, system: &mut System, action: Option<InputAction>) -> (emit_debug:
        bool)
        requires
            old(system).wf(),
        ensures
            final(system).wf(),
            final(self).dump_state == old(self).dump_state,
            final(self).running == (if action == Some(InputAction::Quit) {
                false
            } else {
                old(self).running
            }),
            final(self).paused == (if action == Some(InputAction::Pause) {
                !old(self).paused
            } else {
                old(self).paused
            }),
            final(self).tick_ms == (if action == Some(InputAction::DecreaseTick) {
                if old(self).tick_ms >= 8 {
                    (old(self).tick_ms - 4) as u64
                } else {
                    4u64
                }
            } else if action == Some(InputAction::IncreaseTick) {
                if old(self).tick_ms <= u64::MAX - 4 {
                    (old(self).tick_ms + 4) as u64
                } else {
                    old(self).tick_ms
                }
            } else {
                old(self).tick_ms
            }),
            (if action == Some(InputAction::Reset) {
                is_reset_of(final(system)@, old(system)@)
            } else {
                final(system)@ == old(system)@
            }),
            emit_debug == (action == Some(InputAction::DebugInfo) && !old(self).dump_state),
    {
        match action {
            Some(InputAction::Quit) => {
                self.running = false;
                false
            },
            Some(InputAction::Reset) => {
                system.reset();
                false
            },
            Some(InputAction::Pause) => {
                self.paused = !self.paused;
                false
            },
            Some(InputAction::DecreaseTick) => {
                if self.tick_ms >= 8 {
                    self.tick_ms = self.tick_ms - 4;
                } else {
                    self.tick_ms = 4;
                }
                false
            },
            Some(InputAction::IncreaseTick) => {
                if self.tick_ms <= u64::MAX - 4 {
                    self.tick_ms = self.tick_ms + 4;
                }
                false
            },
            Some(InputAction::DebugInfo) => !self.dump_state,
            None => false,
        }
    }
}

} // verus!
