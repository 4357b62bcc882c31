//! The dynamic strategy: an outside process reports how it went, and a
//! fallback countdown bounds the wait.

use crate::splash_screen::countdown::{
    all_wf, first_reached, lemma_total_of_prefix, total_of, Countdown, TimeSpan,
};
use crate::splash_screen::state::IntroState;
use crate::splash_screen::tick::fixed::FixedDuration;
use crate::splash_screen::tick::{DurationRequest, SplashDuration};
use vstd::prelude::*;

verus! {

/// Represents the possible states of a dynamic duration.
#[derive(Clone, Copy, PartialEq, Eq, Structural, Hash, Debug)]
pub enum DynamicDurationState {
    /// Indicates a failure during the dynamic duration.
    Failure,
    /// Indicates that the dynamic duration has completed.
    Completed,
    /// Indicates that the dynamic duration is currently running.
    Running,
}

impl Default for DynamicDurationState {
    /// A dynamic duration starts out running.
    fn default() -> (r: DynamicDurationState)
        ensures
            r == DynamicDurationState::Running,
    {
        DynamicDurationState::Running
    }
}

/// Represents a generic dynamic duration with a maximum duration.
///
/// It holds the state that the outside process reports into, and a fixed
/// countdown of the maximum duration that reports a failure when it runs out.
#[derive(Clone, Debug)]
pub struct GenericDynamicDuration {
    /// Maximum allowed duration for the dynamic process.
    max_duration: FixedDuration<DynamicDurationState>,
    state: DynamicDurationState,
}

impl GenericDynamicDuration {
    /// The fallback countdown is well formed and reports a failure.
    pub open spec fn wf(self) -> bool {
        &&& self.max_duration().wf()
        &&& *self.max_duration().next_state() == DynamicDurationState::Failure
    }

    /// The state that was last reported.
    #[verifier::when_used_as_spec(spec_state)]
    pub fn state(&self) -> (r: DynamicDurationState)
        ensures
            r == self.state(),
    {
        self.state
    }

    /// The state that was last reported.
    pub closed spec fn spec_state(&self) -> DynamicDurationState {
        self.state
    }

    /// The fallback countdown.
    pub closed spec fn max_duration(self) -> FixedDuration<DynamicDurationState> {
        self.max_duration
    }

    /// The strategy of `max_duration` before any tick or report.
    pub closed spec fn started(max_duration: TimeSpan) -> Self {
        GenericDynamicDuration {
            max_duration: FixedDuration::started(max_duration, DynamicDurationState::Failure),
            state: DynamicDurationState::Running,
        }
    }

    /// The strategy once `state` has been reported.
    pub closed spec fn reported(self, state: DynamicDurationState) -> Self {
        GenericDynamicDuration { max_duration: self.max_duration, state }
    }

    /// Whether a tick of `delta` runs the fallback countdown out: only while
    /// nothing else has been reported.
    pub open spec fn times_out(self, delta: TimeSpan) -> bool {
        self.state() == DynamicDurationState::Running && self.max_duration().timer().fires(delta)
    }

    /// What a tick of `delta` asks for. A reported completion is looked at
    /// first and asks for the host state `transition_to`; a reported failure
    /// asks for the failure state; otherwise the fallback countdown gets
    /// `delta`, and asks for the failure state on the tick it runs out.
    pub open spec fn decided<'a, S>(self, delta: TimeSpan, transition_to: &'a S) -> Option<
        DurationRequest<'a, S>,
    > {
        match self.state() {
            DynamicDurationState::Completed => Some(DurationRequest::Host(transition_to)),
            DynamicDurationState::Failure => Some(DurationRequest::Intro(IntroState::Failure)),
            DynamicDurationState::Running => if self.max_duration().timer().fires(delta) {
                Some(DurationRequest::Intro(IntroState::Failure))
            } else {
                None
            },
        }
    }

    /// The strategy after a tick of `delta`: the fallback countdown moves only
    /// while nothing has been reported, and reports a failure when it runs out.
    pub closed spec fn ticked(self, delta: TimeSpan) -> Self {
        if self.state == DynamicDurationState::Running {
            GenericDynamicDuration {
                max_duration: self.max_duration.ticked(delta),
                state: if self.max_duration.timer().fires(delta) {
                    DynamicDurationState::Failure
                } else {
                    DynamicDurationState::Running
                },
            }
        } else {
            self
        }
    }

    /// The strategy after the ticks of `deltas`, first to last, with no
    /// report in between.
    pub open spec fn after(self, deltas: Seq<TimeSpan>) -> Self
        decreases deltas.len(),
    {
        if deltas.len() == 0 {
            self
        } else {
            self.after(deltas.drop_last()).ticked(deltas.last())
        }
    }

    /// Creates a new `GenericDynamicDuration` with the specified maximum
    /// duration, in the running state.
    pub fn new(max_duration: TimeSpan) -> (r: Self)
        requires
            max_duration.wf(),
        ensures
            r.wf(),
            r == Self::started(max_duration),
            r.state() == DynamicDurationState::Running,
            r.max_duration() == FixedDuration::started(
                max_duration,
                DynamicDurationState::Failure,
            ),
    {
        let max_duration = FixedDuration::new_with_duration(
            max_duration,
            DynamicDurationState::Failure,
        );
        GenericDynamicDuration { max_duration, state: DynamicDurationState::Running }
    }

    /// The fallback countdown of the strategy.
    pub fn as_ref(&self) -> (r: &FixedDuration<DynamicDurationState>)
        ensures
            *r == self.max_duration(),
    {
        &self.max_duration
    }

    /// Takes a report of the outside process: from the next tick on the
    /// strategy goes by `state`.
    pub fn set_state(&mut self, state: DynamicDurationState)
        requires
            old(self).wf(),
        ensures
            final(self).wf(),
            *final(self) == old(self).reported(state),
            final(self).state() == state,
            final(self).max_duration() == old(self).max_duration(),
    {
        self.state = state;
    }

    /// A report changes the state and nothing else.
    pub proof fn lemma_reported(self, state: DynamicDurationState)
        requires
            self.wf(),
        ensures
            self.reported(state).wf(),
            self.reported(state).state() == state,
            self.reported(state).max_duration() == self.max_duration(),
    {
    }

    /// What a tick does to the parts of the strategy.
    pub proof fn lemma_ticked(self, delta: TimeSpan)
        requires
            self.wf(),
            delta.wf(),
        ensures
            self.ticked(delta).wf(),
            self.state() != DynamicDurationState::Running ==> self.ticked(delta) == self,
            self.state() == DynamicDurationState::Running ==> {
                &&& self.ticked(delta).max_duration() == self.max_duration().ticked(delta)
                &&& self.ticked(delta).state() == if self.times_out(delta) {
                    DynamicDurationState::Failure
                } else {
                    DynamicDurationState::Running
                }
            },
    {
        self.max_duration.lemma_ticked(delta);
    }

    /// Where a strategy that gets no report stands after any ticks: it is
    /// running until the ticks together reach the maximum duration, and a
    /// failure from then on; its countdown is the one that got all the ticks
    /// up to there.
    pub proof fn lemma_unreported_after(max_duration: TimeSpan, deltas: Seq<TimeSpan>)
        requires
            max_duration.wf(),
            all_wf(deltas),
        ensures
            Self::started(max_duration).after(deltas).wf(),
            Self::started(max_duration).after(deltas).state() == if deltas.len() > 0
                && total_of(deltas) >= max_duration.total_nanos() {
                DynamicDurationState::Failure
            } else {
                DynamicDurationState::Running
            },
            Self::started(max_duration).after(deltas).state() == DynamicDurationState::Running
                ==> Self::started(max_duration).after(deltas).max_duration().timer()
                == Countdown::fresh(max_duration).after(deltas),
        decreases deltas.len(),
    {
        let start = Self::started(max_duration);
        FixedDuration::lemma_started(max_duration, DynamicDurationState::Failure);
        if deltas.len() > 0 {
            let front = deltas.drop_last();
            Self::lemma_unreported_after(max_duration, front);
            let before = start.after(front);
            before.lemma_ticked(deltas.last());
            Countdown::lemma_fresh_after(max_duration, front);
            Countdown::lemma_fresh_after(max_duration, deltas);
            if before.state == DynamicDurationState::Running {
                before.max_duration.lemma_ticked(deltas.last());
                Countdown::fresh(max_duration).after(front).lemma_ticked(deltas.last());
            }
        }
    }

    /// Completion before the timeout is success, never failure: while the
    /// ticks together stay below the maximum duration the strategy asks for
    /// nothing, and once a completion is reported the next tick asks for the
    /// host state `transition_to`, however long that tick is.
    pub proof fn lemma_completed_before_timeout<S>(
        max_duration: TimeSpan,
        deltas: Seq<TimeSpan>,
        last: TimeSpan,
        transition_to: S,
    )
        requires
            max_duration.wf(),
            all_wf(deltas),
            last.wf(),
            deltas.len() > 0 ==> total_of(deltas) < max_duration.total_nanos(),
        ensures
            forall|i: int|
                0 <= i < deltas.len() ==> (#[trigger] Self::started(max_duration).after(
                    deltas.take(i),
                )).decided(deltas[i], &transition_to) == None::<DurationRequest<S>>,
            Self::started(max_duration).after(deltas).reported(
                DynamicDurationState::Completed,
            ).decided(last, &transition_to) == Some(DurationRequest::Host(&transition_to)),
    {
        let start = Self::started(max_duration);
        assert forall|i: int| 0 <= i < deltas.len() implies (#[trigger] start.after(
            deltas.take(i),
        )).decided(deltas[i], &transition_to) == None::<DurationRequest<S>> by {
            lemma_total_of_prefix(deltas, i);
            lemma_total_of_prefix(deltas, i + 1);
            Self::lemma_unreported_after(max_duration, deltas.take(i));
            Countdown::lemma_fires_once(max_duration, deltas, i);
        }
        Self::lemma_unreported_after(max_duration, deltas);
        start.after(deltas).lemma_reported(DynamicDurationState::Completed);
    }

    /// With no report the strategy asks for the failure state exactly when
    /// the maximum duration is reached: nothing on the ticks before, the
    /// failure state on the first tick with which the time passed reaches the
    /// maximum, and again the failure state, never anything else, on any
    /// tick it is still given after that one.
    pub proof fn lemma_unreported_times_out<S>(
        max_duration: TimeSpan,
        deltas: Seq<TimeSpan>,
        i: int,
        transition_to: S,
    )
        requires
            max_duration.wf(),
            all_wf(deltas),
            0 <= i < deltas.len(),
        ensures
            Self::started(max_duration).after(deltas.take(i)).times_out(deltas[i])
                <==> first_reached(max_duration, deltas, i),
            Self::started(max_duration).after(deltas.take(i)).decided(deltas[i], &transition_to)
                == if total_of(deltas.take(i + 1)) >= max_duration.total_nanos() {
                Some(DurationRequest::<S>::Intro(IntroState::Failure))
            } else {
                None
            },
    {
        Self::lemma_unreported_after(max_duration, deltas.take(i));
        Countdown::lemma_fires_once(max_duration, deltas, i);
        assert(deltas.take(i + 1).drop_last() =~= deltas.take(i));
    }
}

impl<S> SplashDuration<S> for GenericDynamicDuration {
    open spec fn wf(&self) -> bool {
        GenericDynamicDuration::wf(*self)
    }

    open spec fn requested<'a>(&'a self, delta: TimeSpan, transition_to: &'a S) -> Option<
        DurationRequest<'a, S>,
    > {
        self.decided(delta, transition_to)
    }

    open spec fn advanced(&self, delta: TimeSpan) -> Self {
        self.ticked(delta)
    }

    fn tick_duration<'a>(&'a mut self, delta: TimeSpan, transition_to: &'a S) -> (r: Option<
        DurationRequest<'a, S>,
    >)
        ensures
            final(self).state() == if old(self).times_out(delta) {
                DynamicDurationState::Failure
            } else {
                old(self).state()
            },
            final(self).max_duration() == if old(self).state() == DynamicDurationState::Running {
                old(self).max_duration().ticked(delta)
            } else {
                old(self).max_duration()
            },
    {
        match self.state {
            DynamicDurationState::Completed => Some(DurationRequest::Host(transition_to)),
            DynamicDurationState::Failure => Some(DurationRequest::Intro(IntroState::Failure)),
            DynamicDurationState::Running => {
                match self.max_duration.tick_time(delta) {
                    Some(state) => {
                        self.state = *state;
                        Some(DurationRequest::Intro(IntroState::Failure))
                    },
                    None => None,
                }
            },
        }
    }
}

} // verus!
