//! Telling whether a process is alive from what the system reports of it.

use vstd::prelude::*;

verus! {

/// The state of a process.
#[derive(Debug, Clone, Copy, PartialEq, Eq, Structural)]
pub enum State {
    Alive,
    Dead,
    Unknown,
}

/// The exit code that Windows reports for a process that has not exited.
pub const STILL_ACTIVE: u32 = 259;

/// The state that an exit code stands for. A process that could not be opened, or whose
/// exit code could not be asked for, has no exit code: nothing is known of it.
pub fn state_of(exit_code: Option<u32>) -> (state: State)
    ensures
        state == match exit_code {
            None => State::Unknown,
            Some(code) => if code == STILL_ACTIVE {
                State::Alive
            } else {
                State::Dead
            },
        },
{
    match exit_code {
        None => State::Unknown,
        Some(code) => if code == STILL_ACTIVE {
            State::Alive
        } else {
            State::Dead
        },
    }
}

} // verus!
