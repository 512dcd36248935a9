//! Frame-global resources: the live enemy tally and the pause gate.

use vstd::prelude::*;

verus! {

#[derive(Clone, Copy, PartialEq, Eq, Structural, Debug)]
pub struct EnemyCount(pub u32);

/// Whether simulation systems are admitted this frame.
#[derive(Clone, Copy, PartialEq, Eq, Structural, Debug)]
pub enum PauseEvent {
    Paused,
    Unpaused,
}

impl Default for PauseEvent {
    fn default() -> (r: PauseEvent)
        ensures
            r == PauseEvent::Unpaused,
    {
        PauseEvent::Unpaused
    }
}

} // verus!
