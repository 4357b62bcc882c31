//! Spans of time and the run-once countdown that every timed strategy is built on.

use bevy::time::{Timer, TimerMode};
use std::time::Duration;
use vstd::prelude::*;

verus! {

/// Nanoseconds in one second.
pub const NANOS_PER_SEC: u32 = 1_000_000_000;

/// A span of time: whole seconds and the nanoseconds of the started second.
#[derive(Clone, Copy, Debug, PartialEq, Eq, Structural)]
pub struct TimeSpan {
    secs: u64,
    nanos: u32,
}

impl TimeSpan {
    /// The nanoseconds of the started second stay below one second.
    pub closed spec fn wf(self) -> bool {
        self.nanos < NANOS_PER_SEC
    }

    /// The span as a number of nanoseconds.
    pub closed spec fn total_nanos(self) -> nat {
        (self.secs * NANOS_PER_SEC + self.nanos) as nat
    }

    /// The longest span that can be held, in nanoseconds.
    pub open spec fn max_nanos() -> nat {
        (u64::MAX * NANOS_PER_SEC + (NANOS_PER_SEC - 1)) as nat
    }

    /// The well-formed span of `n` nanoseconds.
    pub closed spec fn of_nanos(n: nat) -> TimeSpan
        recommends
            n <= Self::max_nanos(),
    {
        TimeSpan {
            secs: (n / (NANOS_PER_SEC as nat)) as u64,
            nanos: (n % (NANOS_PER_SEC as nat)) as u32,
        }
    }

    /// A well-formed span is the only one of its length.
    pub proof fn lemma_of_nanos(self)
        requires
            self.wf(),
        ensures
            self.total_nanos() <= Self::max_nanos(),
            Self::of_nanos(self.total_nanos()) == self,
    {
    }

    /// `of_nanos` gives a well-formed span of the length asked for.
    pub proof fn lemma_of_nanos_total(n: nat)
        requires
            n <= Self::max_nanos(),
        ensures
            Self::of_nanos(n).wf(),
            Self::of_nanos(n).total_nanos() == n,
    {
    }

    /// Two well-formed spans of one length are one span.
    pub proof fn lemma_equal_by_nanos(self, other: TimeSpan)
        requires
            self.wf(),
            other.wf(),
            self.total_nanos() == other.total_nanos(),
        ensures
            self == other,
    {
    }

    /// The span of `secs` seconds and `nanos` nanoseconds, where `nanos` is
    /// less than one second.
    pub fn new(secs: u64, nanos: u32) -> (r: Option<TimeSpan>)
        ensures
            r.is_some() <==> nanos < NANOS_PER_SEC,
            r matches Some(t) ==> t.wf() && t.total_nanos() == secs * NANOS_PER_SEC + nanos
                && t.as_secs() == secs && t.subsec_nanos() == nanos,
    {
        if nanos < NANOS_PER_SEC {
            Some(TimeSpan { secs, nanos })
        } else {
            None
        }
    }

    /// The span of `secs` whole seconds.
    pub fn from_secs(secs: u64) -> (r: TimeSpan)
        ensures
            r.wf(),
            r.total_nanos() == secs * NANOS_PER_SEC,
    {
        TimeSpan { secs, nanos: 0 }
    }

    /// The span of `millis` milliseconds.
    pub fn from_millis(millis: u64) -> (r: TimeSpan)
        ensures
            r.wf(),
            r.total_nanos() == millis * 1_000_000,
    {
        let sub: u32 = (millis % 1000) as u32;
        TimeSpan { secs: millis / 1000, nanos: sub * 1_000_000 }
    }

    /// The whole seconds of the span.
    #[verifier::when_used_as_spec(spec_as_secs)]
    pub fn as_secs(&self) -> (r: u64)
        ensures
            r == self.as_secs(),
    {
        self.secs
    }

    /// The whole seconds of the span.
    pub closed spec fn spec_as_secs(&self) -> u64 {
        self.secs
    }

    /// The nanoseconds of the started second.
    #[verifier::when_used_as_spec(spec_subsec_nanos)]
    pub fn subsec_nanos(&self) -> (r: u32)
        ensures
            r == self.subsec_nanos(),
    {
        self.nanos
    }

    /// The nanoseconds of the started second.
    pub closed spec fn spec_subsec_nanos(&self) -> u32 {
        self.nanos
    }

    /// Whether the sum of the two spans can still be held.
    pub fn fits_with(&self, other: &TimeSpan) -> (r: bool)
        requires
            self.wf(),
            other.wf(),
        ensures
            r == (self.total_nanos() + other.total_nanos() <= Self::max_nanos()),
    {
        let carry: u64 = if self.nanos + other.nanos >= NANOS_PER_SEC {
            1
        } else {
            0
        };
        match self.secs.checked_add(other.secs) {
            None => false,
            Some(s) => s.checked_add(carry).is_some(),
        }
    }
}

/// Every span of `deltas` is well formed.
pub open spec fn all_wf(deltas: Seq<TimeSpan>) -> bool {
    forall|k: int| 0 <= k < deltas.len() ==> (#[trigger] deltas[k]).wf()
}

/// The time that the steps of `deltas` add up to, in nanoseconds.
pub open spec fn total_of(deltas: Seq<TimeSpan>) -> nat
    decreases deltas.len(),
{
    if deltas.len() == 0 {
        0
    } else {
        total_of(deltas.drop_last()) + deltas.last().total_nanos()
    }
}

/// The steps up to any point add up to no more than all of them.
pub proof fn lemma_total_of_prefix(deltas: Seq<TimeSpan>, i: int)
    requires
        0 <= i <= deltas.len(),
    ensures
        total_of(deltas.take(i)) <= total_of(deltas),
    decreases deltas.len(),
{
    if i == deltas.len() {
        assert(deltas.take(i) =~= deltas);
    } else {
        lemma_total_of_prefix(deltas.drop_last(), i);
        assert(deltas.drop_last().take(i) =~= deltas.take(i));
    }
}

/// Step `i` of `deltas` is the first with which the time passed has reached
/// `duration`.
pub open spec fn first_reached(duration: TimeSpan, deltas: Seq<TimeSpan>, i: int) -> bool
    recommends
        0 <= i < deltas.len(),
{
    &&& total_of(deltas.take(i + 1)) >= duration.total_nanos()
    &&& i == 0 || total_of(deltas.take(i)) < duration.total_nanos()
}

/// The timer that ran a countdown one step: whether it has run out, and the
/// time on it, which is never more than its duration.
///
/// Calls `bevy::time::Timer::new` in `TimerMode::Once`, then `set_elapsed`,
/// `tick`, `elapsed` and `finished`. A fresh timer is neither paused nor
/// finished, so `tick` adds `delta` to the time on it (an addition that must
/// not overflow, hence the bound), reports it finished when that sum has
/// reached the duration, and then holds the time at the duration.
#[verifier::external_body]
fn advance_timer(duration: TimeSpan, elapsed: TimeSpan, delta: TimeSpan) -> (r: (TimeSpan, bool))
    requires
        duration.wf(),
        elapsed.wf(),
        delta.wf(),
        elapsed.total_nanos() + delta.total_nanos() <= TimeSpan::max_nanos(),
    ensures
        r.0.wf(),
        r.1 == (elapsed.total_nanos() + delta.total_nanos() >= duration.total_nanos()),
        r.1 ==> r.0.total_nanos() == duration.total_nanos(),
        !r.1 ==> r.0.total_nanos() == elapsed.total_nanos() + delta.total_nanos(),
{
    let mut timer = Timer::new(Duration::new(duration.secs, duration.nanos), TimerMode::Once);
    timer.set_elapsed(Duration::new(elapsed.secs, elapsed.nanos));
    timer.tick(Duration::new(delta.secs, delta.nanos));
    let on_timer = timer.elapsed();
    (TimeSpan { secs: on_timer.as_secs(), nanos: on_timer.subsec_nanos() }, timer.finished())
}

/// A countdown that runs once: it gathers the time it is given until that
/// reaches its duration, and from then on stays as it is.
#[derive(Clone, Copy, Debug)]
pub struct Countdown {
    duration: TimeSpan,
    elapsed: TimeSpan,
    finished: bool,
}

impl Countdown {
    /// The time gathered never exceeds the duration, and a finished countdown
    /// has gathered all of it.
    pub closed spec fn wf(self) -> bool {
        &&& self.duration.wf()
        &&& self.elapsed.wf()
        &&& self.elapsed.total_nanos() <= self.duration.total_nanos()
        &&& self.finished ==> self.elapsed == self.duration
    }

    /// The span after which the countdown runs out.
    #[verifier::when_used_as_spec(spec_duration)]
    pub fn duration(&self) -> (r: TimeSpan)
        ensures
            r == self.duration(),
    {
        self.duration
    }

    /// The span after which the countdown runs out.
    pub closed spec fn spec_duration(&self) -> TimeSpan {
        self.duration
    }

    /// The time gathered so far.
    #[verifier::when_used_as_spec(spec_elapsed)]
    pub fn elapsed(&self) -> (r: TimeSpan)
        ensures
            r == self.elapsed(),
    {
        self.elapsed
    }

    /// The time gathered so far.
    pub closed spec fn spec_elapsed(&self) -> TimeSpan {
        self.elapsed
    }

    /// Whether the countdown has run out.
    #[verifier::when_used_as_spec(spec_finished)]
    pub fn finished(&self) -> (r: bool)
        ensures
            r == self.finished(),
    {
        self.finished
    }

    /// Whether the countdown has run out.
    pub closed spec fn spec_finished(&self) -> bool {
        self.finished
    }

    /// The countdown of `duration` before any time has passed.
    pub closed spec fn fresh(duration: TimeSpan) -> Countdown {
        Countdown { duration, elapsed: TimeSpan::of_nanos(0), finished: false }
    }

    /// Whether a step of `delta` makes the countdown run out: it has not run
    /// out yet, and with `delta` the time gathered reaches the duration.
    pub open spec fn fires(self, delta: TimeSpan) -> bool {
        !self.finished() && self.elapsed().total_nanos() + delta.total_nanos()
            >= self.duration().total_nanos()
    }

    /// The countdown after a step of `delta`.
    pub closed spec fn ticked(self, delta: TimeSpan) -> Countdown {
        if self.finished {
            self
        } else if self.fires(delta) {
            Countdown { duration: self.duration, elapsed: self.duration, finished: true }
        } else {
            Countdown {
                duration: self.duration,
                elapsed: TimeSpan::of_nanos(self.elapsed.total_nanos() + delta.total_nanos()),
                finished: false,
            }
        }
    }

    /// A fresh countdown is well formed, has gathered nothing and has not
    /// run out.
    pub proof fn lemma_fresh(duration: TimeSpan)
        requires
            duration.wf(),
        ensures
            Self::fresh(duration).wf(),
            Self::fresh(duration).duration() == duration,
            Self::fresh(duration).elapsed().total_nanos() == 0,
            !Self::fresh(duration).finished(),
    {
    }

    /// The countdown after the steps of `deltas`, first to last.
    pub open spec fn after(self, deltas: Seq<TimeSpan>) -> Countdown
        decreases deltas.len(),
    {
        if deltas.len() == 0 {
            self
        } else {
            self.after(deltas.drop_last()).ticked(deltas.last())
        }
    }

    /// A step keeps a countdown well formed and leaves its duration alone.
    pub proof fn lemma_ticked(self, delta: TimeSpan)
        requires
            self.wf(),
            delta.wf(),
        ensures
            self.ticked(delta).wf(),
            self.ticked(delta).duration() == self.duration(),
            self.ticked(delta).finished() == (self.finished() || self.fires(delta)),
            self.finished() ==> !self.fires(delta) && self.ticked(delta) == self,
            self.fires(delta) ==> self.ticked(delta).elapsed() == self.duration(),
            !self.finished() && !self.fires(delta) ==> self.ticked(delta).elapsed().total_nanos()
                == self.elapsed().total_nanos() + delta.total_nanos(),
    {
        if !self.finished && !self.fires(delta) {
            TimeSpan::lemma_of_nanos_total(self.elapsed.total_nanos() + delta.total_nanos());
        }
        self.duration.lemma_of_nanos();
    }

    /// Where a fresh countdown stands after any steps: it has run out exactly
    /// if there was a step and the steps together reach the duration, and
    /// until then it has gathered exactly their sum.
    pub proof fn lemma_fresh_after(duration: TimeSpan, deltas: Seq<TimeSpan>)
        requires
            duration.wf(),
            all_wf(deltas),
        ensures
            Self::fresh(duration).after(deltas).wf(),
            Self::fresh(duration).after(deltas).duration() == duration,
            Self::fresh(duration).after(deltas).finished() <==> deltas.len() > 0 && total_of(
                deltas,
            ) >= duration.total_nanos(),
            !Self::fresh(duration).after(deltas).finished() ==> Self::fresh(duration).after(
                deltas,
            ).elapsed().total_nanos() == total_of(deltas),
        decreases deltas.len(),
    {
        duration.lemma_of_nanos();
        TimeSpan::lemma_of_nanos_total(0);
        if deltas.len() > 0 {
            let before = Self::fresh(duration).after(deltas.drop_last());
            Self::lemma_fresh_after(duration, deltas.drop_last());
            before.lemma_ticked(deltas.last());
            if !before.finished && !before.fires(deltas.last()) {
                TimeSpan::lemma_of_nanos_total(
                    before.elapsed.total_nanos() + deltas.last().total_nanos(),
                );
            }
        }
    }

    /// A fresh countdown runs out on one step only, the first on which the
    /// time passed since its start has reached its duration: never before,
    /// and never again after.
    pub proof fn lemma_fires_once(duration: TimeSpan, deltas: Seq<TimeSpan>, i: int)
        requires
            duration.wf(),
            all_wf(deltas),
            0 <= i < deltas.len(),
        ensures
            Self::fresh(duration).after(deltas.take(i)).fires(deltas[i]) <==> first_reached(
                duration,
                deltas,
                i,
            ),
    {
        Self::lemma_fresh_after(duration, deltas.take(i));
        assert(deltas.take(i + 1).drop_last() =~= deltas.take(i));
    }

    /// A countdown of `duration` on which no time has passed.
    pub fn new(duration: TimeSpan) -> (r: Countdown)
        requires
            duration.wf(),
        ensures
            r.wf(),
            r == Self::fresh(duration),
            r.duration() == duration,
            r.elapsed().total_nanos() == 0,
            !r.finished(),
    {
        Countdown { duration, elapsed: TimeSpan { secs: 0, nanos: 0 }, finished: false }
    }

    /// Lets `delta` pass. Returns whether the countdown ran out on this step;
    /// a countdown that had run out before does not run out again.
    pub fn tick(&mut self, delta: TimeSpan) -> (fired: bool)
        requires
            old(self).wf(),
            delta.wf(),
        ensures
            final(self).wf(),
            *final(self) == old(self).ticked(delta),
            fired == old(self).fires(delta),
            final(self).duration() == old(self).duration(),
            final(self).finished() == (old(self).finished() || fired),
            final(self).elapsed().total_nanos() == if old(self).finished() || fired {
                old(self).duration().total_nanos()
            } else {
                old(self).elapsed().total_nanos() + delta.total_nanos()
            },
    {
        if self.finished {
            return false;
        }
        if self.elapsed.fits_with(&delta) {
            let (elapsed, finished) = advance_timer(self.duration, self.elapsed, delta);
            proof {
                if finished {
                    elapsed.lemma_equal_by_nanos(self.duration);
                } else {
                    elapsed.lemma_of_nanos();
                }
            }
            self.elapsed = elapsed;
            self.finished = finished;
            finished
        } else {
            proof {
                self.duration.lemma_of_nanos();
            }
            self.elapsed = self.duration;
            self.finished = true;
            true
        }
    }
}

} // verus!
