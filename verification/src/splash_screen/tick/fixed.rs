//! The fixed strategy: one countdown and the state to ask for when it runs out.

use crate::splash_screen::countdown::{all_wf, first_reached, Countdown, TimeSpan};
use crate::splash_screen::tick::{DurationRequest, SplashDuration};
use vstd::prelude::*;

verus! {

/// The duration of a fixed strategy that is given none, in milliseconds.
pub const SPLASH_DEFAULT_MILLIS: u64 = 1500;

/// The duration of a fixed strategy that is given none: 1.5 seconds.
pub open spec fn default_duration() -> TimeSpan {
    TimeSpan::of_nanos((SPLASH_DEFAULT_MILLIS * 1_000_000) as nat)
}

/// Represents a fixed-duration countdown that asks for a specified state
/// upon completion.
#[derive(Clone, Debug)]
pub struct FixedDuration<S> {
    timer: Countdown,
    /// State to ask for once the countdown is complete.
    next_state: S,
}

impl<S> FixedDuration<S> {
    /// The countdown is well formed.
    pub open spec fn wf(self) -> bool {
        self.timer().wf()
    }

    /// The countdown of the strategy.
    #[verifier::when_used_as_spec(spec_timer)]
    pub fn timer(&self) -> (r: Countdown)
        ensures
            r == self.timer(),
    {
        self.timer
    }

    /// The countdown of the strategy.
    pub closed spec fn spec_timer(&self) -> Countdown {
        self.timer
    }

    /// The state that the strategy asks for.
    #[verifier::when_used_as_spec(spec_next_state)]
    pub fn next_state(&self) -> (r: &S)
        ensures
            r == self.next_state(),
    {
        &self.next_state
    }

    /// The state that the strategy asks for.
    pub closed spec fn spec_next_state(&self) -> &S {
        &self.next_state
    }

    /// The strategy of `duration` and `next_state` before any tick.
    pub closed spec fn started(duration: TimeSpan, next_state: S) -> Self {
        FixedDuration { timer: Countdown::fresh(duration), next_state }
    }

    /// What a tick of `delta` asks for: the state of the strategy on the tick
    /// on which the countdown runs out, nothing on any other.
    pub open spec fn fired(&self, delta: TimeSpan) -> Option<&S> {
        if self.timer().fires(delta) {
            Some(self.next_state())
        } else {
            None
        }
    }

    /// The strategy after a tick of `delta`.
    pub closed spec fn ticked(self, delta: TimeSpan) -> Self {
        FixedDuration { timer: self.timer.ticked(delta), next_state: self.next_state }
    }

    /// The strategy after the ticks of `deltas`, first to last.
    pub open spec fn after(self, deltas: Seq<TimeSpan>) -> Self
        decreases deltas.len(),
    {
        if deltas.len() == 0 {
            self
        } else {
            self.after(deltas.drop_last()).ticked(deltas.last())
        }
    }

    /// Creates a new `FixedDuration` with the specified duration and next state.
    pub fn new_with_duration(duration: TimeSpan, next_state: S) -> (r: Self)
        requires
            duration.wf(),
        ensures
            r.wf(),
            r == Self::started(duration, next_state),
            r.timer() == Countdown::fresh(duration),
            r.timer().duration() == duration,
            r.timer().elapsed().total_nanos() == 0,
            !r.timer().finished(),
            *r.next_state() == next_state,
    {
        FixedDuration { timer: Countdown::new(duration), next_state }
    }

    /// Creates a new `FixedDuration` with the default duration (1.5 seconds)
    /// and next state.
    pub fn new(next_state: S) -> (r: Self)
        ensures
            r.wf(),
            r == Self::started(default_duration(), next_state),
            r.timer() == Countdown::fresh(default_duration()),
            r.timer().duration().wf(),
            r.timer().duration().total_nanos() == 1_500_000_000,
            r.timer().elapsed().total_nanos() == 0,
            !r.timer().finished(),
            *r.next_state() == next_state,
    {
        let duration = TimeSpan::from_millis(SPLASH_DEFAULT_MILLIS);
        proof {
            duration.lemma_of_nanos();
        }
        Self::new_with_duration(duration, next_state)
    }

    /// Lets `delta` pass on the countdown. On the tick on which it runs out
    /// the answer is the state of the strategy; it is nothing before, and
    /// nothing again afterwards.
    pub fn tick_time(&mut self, delta: TimeSpan) -> (r: Option<&S>)
        requires
            old(self).wf(),
            delta.wf(),
        ensures
            final(self).wf(),
            *final(self) == old(self).ticked(delta),
            final(self).timer() == old(self).timer().ticked(delta),
            final(self).next_state() == old(self).next_state(),
            r == old(self).fired(delta),
            final(self).timer().duration() == old(self).timer().duration(),
            final(self).timer().finished() == (old(self).timer().finished() || r.is_some()),
            final(self).timer().elapsed().total_nanos() == if final(self).timer().finished() {
                old(self).timer().duration().total_nanos()
            } else {
                old(self).timer().elapsed().total_nanos() + delta.total_nanos()
            },
    {
        if self.timer.tick(delta) {
            Some(&self.next_state)
        } else {
            None
        }
    }

    /// A strategy before any tick holds a fresh countdown.
    pub proof fn lemma_started(duration: TimeSpan, next_state: S)
        requires
            duration.wf(),
        ensures
            Self::started(duration, next_state).wf(),
            Self::started(duration, next_state).timer() == Countdown::fresh(duration),
            *Self::started(duration, next_state).next_state() == next_state,
    {
        Countdown::lemma_fresh(duration);
    }

    /// A tick moves the countdown and keeps the state to ask for.
    pub proof fn lemma_ticked(self, delta: TimeSpan)
        requires
            self.wf(),
            delta.wf(),
        ensures
            self.ticked(delta).wf(),
            self.ticked(delta).timer() == self.timer().ticked(delta),
            self.ticked(delta).next_state() == self.next_state(),
    {
        self.timer.lemma_ticked(delta);
    }

    /// Ticks move the countdown and keep the state to ask for.
    pub proof fn lemma_after(self, deltas: Seq<TimeSpan>)
        requires
            self.wf(),
            all_wf(deltas),
        ensures
            self.after(deltas).wf(),
            self.after(deltas).timer() == self.timer().after(deltas),
            self.after(deltas).next_state() == self.next_state(),
        decreases deltas.len(),
    {
        if deltas.len() > 0 {
            self.lemma_after(deltas.drop_last());
            self.after(deltas.drop_last()).lemma_ticked(deltas.last());
        }
    }

    /// A fixed strategy started at tick 0 asks for its state on exactly one
    /// tick: the first on which the time passed since the start has reached
    /// its duration. It asks for nothing before that tick and nothing after.
    pub proof fn lemma_fixed_fires_once(
        duration: TimeSpan,
        next_state: S,
        deltas: Seq<TimeSpan>,
        i: int,
    )
        requires
            duration.wf(),
            all_wf(deltas),
            0 <= i < deltas.len(),
        ensures
            Self::started(duration, next_state).after(deltas.take(i)).fired(deltas[i]) == if first_reached(
                duration,
                deltas,
                i,
            ) {
                Some(&next_state)
            } else {
                None::<&S>
            },
    {
        let start = Self::started(duration, next_state);
        Self::lemma_started(duration, next_state);
        start.lemma_after(deltas.take(i));
        Countdown::lemma_fires_once(duration, deltas, i);
    }
}

impl<S> SplashDuration<S> for FixedDuration<S> {
    open spec fn wf(&self) -> bool {
        FixedDuration::wf(*self)
    }

    /// The host enters the state of the strategy when the countdown runs out.
    open spec fn requested<'a>(&'a self, delta: TimeSpan, transition_to: &'a S) -> Option<
        DurationRequest<'a, S>,
    > {
        match self.fired(delta) {
            Some(s) => Some(DurationRequest::Host(s)),
            None => None,
        }
    }

    open spec fn advanced(&self, delta: TimeSpan) -> Self {
        self.ticked(delta)
    }

    fn tick_duration<'a>(&'a mut self, delta: TimeSpan, transition_to: &'a S) -> (r: Option<
        DurationRequest<'a, S>,
    >) {
        match self.tick_time(delta) {
            Some(s) => Some(DurationRequest::Host(s)),
            None => None,
        }
    }
}

} // verus!
