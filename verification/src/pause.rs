//! The pause/resume state machine.
//!
//! The automaton is either running or paused. A confirmed press edge of
//! button A toggles between the two; nothing else writes the flag. While
//! running, the periodic tick advances the automaton; while paused, only a
//! manual step does.

use vstd::prelude::*;

verus! {

/// Whether automatic advancement is suppressed.
#[derive(Clone, Copy, PartialEq, Eq, Structural, Debug)]
pub enum PauseFlag {
    Running,
    Paused,
}

/// Owner of the pause/resume state; created running.
pub struct PauseController {
    pub flag: PauseFlag,
}

impl PauseController {
    /// Whether the controller is paused, as contracts speak of it.
    pub open spec fn paused(self) -> bool {
        self.flag is Paused
    }

    /// A fresh controller, running.
    pub fn new() -> (ctl: PauseController)
        ensures
            !ctl.paused(),
    {
        PauseController { flag: PauseFlag::Running }
    }

    /// A confirmed press edge of the pause button: running becomes paused and
    /// paused becomes running.
    pub fn toggle_edge(&mut self)
        ensures
            final(self).paused() == !old(self).paused(),
    {
        self.flag = match self.flag {
            PauseFlag::Running => PauseFlag::Paused,
            PauseFlag::Paused => PauseFlag::Running,
        };
    }

    /// Whether the controller is paused.
    pub fn is_paused(&self) -> (p: bool)
        ensures
            p == self.paused(),
    {
        match self.flag {
            PauseFlag::Paused => true,
            PauseFlag::Running => false,
        }
    }
}

} // verus!
