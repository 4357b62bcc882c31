//! The four phases of an introduction screen.

use vstd::prelude::*;

verus! {

/// Represents the different states of an introduction screen. Exactly one is
/// active at a time.
#[derive(Clone, Copy, Debug, PartialEq, Eq, PartialOrd, Structural, Hash)]
pub enum IntroState {
    /// Before the screen starts, and after it has been left.
    Idle,
    /// Preparing what the screen shows.
    Loading,
    /// The screen is displayed.
    Running,
    /// Loading or the running screen failed.
    Failure,
}

impl Default for IntroState {
    /// The state before the screen starts.
    fn default() -> (r: IntroState)
        ensures
            r == IntroState::Idle,
    {
        IntroState::Idle
    }
}

impl IntroState {
    /// Returns `true` if the screen is currently running.
    pub fn is_running(&self) -> (r: bool)
        ensures
            r == (*self == IntroState::Running),
    {
        matches!(self, IntroState::Running)
    }

    /// Returns `true` if the screen is currently loading.
    pub fn is_loading(&self) -> (r: bool)
        ensures
            r == (*self == IntroState::Loading),
    {
        matches!(self, IntroState::Loading)
    }

    /// Returns `true` if the screen is in the failure state.
    pub fn is_failure(&self) -> (r: bool)
        ensures
            r == (*self == IntroState::Failure),
    {
        matches!(self, IntroState::Failure)
    }
}

/// Checks if the screen is currently running.
pub fn is_running(state: &IntroState) -> (r: bool)
    ensures
        r == (*state == IntroState::Running),
{
    state.is_running()
}

/// Checks if the screen is currently loading.
pub fn is_loading(state: &IntroState) -> (r: bool)
    ensures
        r == (*state == IntroState::Loading),
{
    state.is_loading()
}

/// Checks if the screen has just started running: the state changed since it
/// was last looked at, and it is now running.
pub fn started_running(changed: bool, state: &IntroState) -> (r: bool)
    ensures
        r == (changed && *state == IntroState::Running),
{
    changed && state.is_running()
}

/// Checks if the screen is in the failure state.
pub fn is_failure(state: &IntroState) -> (r: bool)
    ensures
        r == (*state == IntroState::Failure),
{
    state.is_failure()
}

} // verus!
