//! Duration strategies: what decides when the running screen ends.

pub mod dynamic;
pub mod fixed;

use crate::splash_screen::countdown::TimeSpan;
use crate::splash_screen::state::IntroState;
use vstd::prelude::*;

verus! {

/// What a duration strategy asks for when it ends the running screen.
#[derive(Debug, PartialEq, Eq)]
pub enum DurationRequest<'a, S> {
    /// The host application enters this state.
    Host(&'a S),
    /// The screen itself moves to this state.
    Intro(IntroState),
}

/// A duration strategy over the host states `S`: it is given the time of
/// each tick on which the screen is running, and answers with a request on
/// the ticks on which it ends the screen.
pub trait SplashDuration<S>: Sized {
    /// What the strategy keeps true of itself.
    spec fn wf(&self) -> bool;

    /// What the strategy asks for on a tick of `delta`, where a finished
    /// screen is followed by the host state `transition_to`.
    spec fn requested<'a>(&'a self, delta: TimeSpan, transition_to: &'a S) -> Option<
        DurationRequest<'a, S>,
    >;

    /// The strategy after a tick of `delta`.
    spec fn advanced(&self, delta: TimeSpan) -> Self;

    /// Lets `delta` pass on a running screen.
    fn tick_duration<'a>(&'a mut self, delta: TimeSpan, transition_to: &'a S) -> (r: Option<
        DurationRequest<'a, S>,
    >)
        requires
            old(self).wf(),
            delta.wf(),
        ensures
            final(self).wf(),
            *final(self) == old(self).advanced(delta),
            r == old(self).requested(delta, transition_to),
    ;

    /// Lets `delta` pass only if the screen is running: in every other state
    /// the strategy stays as it is and asks for nothing.
    fn only_run_if<'a>(
        &'a mut self,
        state: &IntroState,
        delta: TimeSpan,
        transition_to: &'a S,
    ) -> (r: Option<DurationRequest<'a, S>>)
        requires
            old(self).wf(),
            delta.wf(),
        ensures
            final(self).wf(),
            *state == IntroState::Running ==> *final(self) == old(self).advanced(delta) && r
                == old(self).requested(delta, transition_to),
            *state != IntroState::Running ==> *final(self) == *old(self) && r.is_none(),
    {
        if state.is_running() {
            self.tick_duration(delta, transition_to)
        } else {
            None
        }
    }
}

} // verus!
