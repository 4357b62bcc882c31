//! What a screen does over a run of ticks: the laws of the strategies and of
//! the failure managers, carried over to the screen that holds them.

use crate::splash_screen::countdown::{
    all_wf, first_reached, lemma_total_of_prefix, total_of, Countdown, TimeSpan,
};
use crate::splash_screen::skip_screen::SkipInput;
use crate::splash_screen::state::IntroState;
use crate::splash_screen::tick::dynamic::{DynamicDurationState, GenericDynamicDuration};
use crate::splash_screen::tick::fixed::FixedDuration;
use crate::splash_screen::tick::SplashDuration;
use crate::splash_screen::ui::failure::{
    effects_at, handler_after, lemma_delayed_close_fires_once, And, FailureAction,
    OnFailureCloseWindowWithDelay, OnFailureShowMessage, SplashFailureManager,
};
use crate::splash_screen::{
    no_requests, performed, IntroPreferences, IntroRequests, IntroScreenModel,
};
use vstd::prelude::*;

verus! {

impl<S, D: SplashDuration<S>, U, F: SplashFailureManager> IntroScreenModel<S, D, U, F> {
    /// The screen after the ticks of `deltas`, first to last, with nothing
    /// else happening to it in between.
    pub open spec fn after(self, deltas: Seq<TimeSpan>) -> Self
        decreases deltas.len(),
    {
        if deltas.len() == 0 {
            self
        } else {
            self.after(deltas.drop_last()).ticked(deltas.last())
        }
    }

    /// The screen with the duration strategy `duration`, all else as it is.
    pub open spec fn with_duration(self, duration: D) -> Self {
        IntroScreenModel {
            preferences: IntroPreferences { duration, ..self.preferences },
            ..self
        }
    }

    /// The screen with the handler `handler`, all else as it is.
    pub open spec fn with_handler(self, handler: F::Handler) -> Self {
        IntroScreenModel { handler, ..self }
    }
}

/// A failed screen stays failed while it is ticked, keeps its preferences,
/// and has the handler that its failure manager has after the same ticks.
pub proof fn lemma_failed_screen_after<S, D: SplashDuration<S>, U, F: SplashFailureManager>(
    screen: IntroScreenModel<S, D, U, F>,
    deltas: Seq<TimeSpan>,
)
    requires
        screen.state == IntroState::Failure,
        screen.handler == screen.failure_manager.entered(screen.failure_manager.installed()),
    ensures
        screen.after(deltas) == screen.with_handler(
            handler_after(screen.failure_manager, deltas),
        ),
    decreases deltas.len(),
{
    if deltas.len() > 0 {
        lemma_failed_screen_after(screen, deltas.drop_last());
    }
}

/// What a screen asks for on each tick after it has failed is what its
/// failure manager does on that tick, carried out: nothing more, and nothing
/// from the gestures made.
pub proof fn lemma_failed_screen_follows_manager<
    S,
    D: SplashDuration<S>,
    U,
    F: SplashFailureManager,
>(screen: IntroScreenModel<S, D, U, F>, deltas: Seq<TimeSpan>, i: int, input: SkipInput)
    requires
        screen.state == IntroState::Failure,
        screen.handler == screen.failure_manager.entered(screen.failure_manager.installed()),
        0 <= i < deltas.len(),
    ensures
        screen.after(deltas.take(i)).state == IntroState::Failure,
        screen.after(deltas.take(i)).tick_requests(deltas[i], input) == performed(
            &screen.preferences.transition_to,
            effects_at(screen.failure_manager, deltas, i),
            no_requests(),
        ),
{
    lemma_failed_screen_after(screen, deltas.take(i));
}

/// A screen that failed under a delayed close asks for the end of the
/// application on exactly one tick, the first on which the time passed since
/// the failure has reached the delay, and never asks for a host state.
pub proof fn lemma_screen_closes_after_delay<S, D: SplashDuration<S>, U>(
    screen: IntroScreenModel<S, D, U, OnFailureCloseWindowWithDelay>,
    deltas: Seq<TimeSpan>,
    i: int,
    input: SkipInput,
)
    requires
        screen.state == IntroState::Failure,
        screen.failure_manager.wf(),
        screen.handler == screen.failure_manager.entered(screen.failure_manager.installed()),
        all_wf(deltas),
        0 <= i < deltas.len(),
    ensures
        screen.after(deltas.take(i)).tick_requests(deltas[i], input) == (IntroRequests::<S> {
            next_state: None,
            exit: first_reached(screen.failure_manager.0, deltas, i),
            show_message: false,
        }),
{
    lemma_failed_screen_follows_manager(screen, deltas, i, input);
    lemma_delayed_close_fires_once(screen.failure_manager, deltas, i);
    let effects = effects_at(screen.failure_manager, deltas, i);
    if first_reached(screen.failure_manager.0, deltas, i) {
        assert(effects[0] == FailureAction::Close);
    }
}

/// A running screen with a fixed strategy keeps running while it is ticked,
/// and its strategy is the one that got the same ticks.
pub proof fn lemma_fixed_screen_after<S, U, F: SplashFailureManager>(
    screen: IntroScreenModel<S, FixedDuration<S>, U, F>,
    deltas: Seq<TimeSpan>,
)
    requires
        screen.state == IntroState::Running,
    ensures
        screen.after(deltas) == screen.with_duration(screen.preferences.duration.after(deltas)),
    decreases deltas.len(),
{
    if deltas.len() > 0 {
        lemma_fixed_screen_after(screen, deltas.drop_last());
    }
}

/// A running screen with a fixed strategy, started with that strategy and
/// ticked without a gesture, asks for the state of the strategy on exactly
/// one tick: the first on which the time passed since the start has reached
/// the duration. Before that tick it asks for nothing, and nothing after.
pub proof fn lemma_fixed_screen_fires_once<S, U, F: SplashFailureManager>(
    screen: IntroScreenModel<S, FixedDuration<S>, U, F>,
    duration: TimeSpan,
    next_state: S,
    deltas: Seq<TimeSpan>,
    i: int,
    input: SkipInput,
)
    requires
        screen.state == IntroState::Running,
        screen.preferences.duration == FixedDuration::started(duration, next_state),
        duration.wf(),
        all_wf(deltas),
        0 <= i < deltas.len(),
        !input.any_just_pressed(),
    ensures
        screen.after(deltas.take(i)).state == IntroState::Running,
        screen.after(deltas.take(i)).tick_requests(deltas[i], input) == if first_reached(
            duration,
            deltas,
            i,
        ) {
            IntroRequests { next_state: Some(&next_state), exit: false, show_message: false }
        } else {
            no_requests::<S>()
        },
{
    lemma_fixed_screen_after(screen, deltas.take(i));
    FixedDuration::lemma_fixed_fires_once(duration, next_state, deltas, i);
}

/// A running screen with a dynamic strategy that gets no report runs until
/// the time passed has reached the maximum duration, and is failed from the
/// tick on which it has: it enters the failure state on that tick, not
/// before, and has not left it after.
pub proof fn lemma_dynamic_screen_times_out<S, U, F: SplashFailureManager>(
    screen: IntroScreenModel<S, GenericDynamicDuration, U, F>,
    max_duration: TimeSpan,
    deltas: Seq<TimeSpan>,
)
    requires
        screen.state == IntroState::Running,
        screen.preferences.duration == GenericDynamicDuration::started(max_duration),
        max_duration.wf(),
        all_wf(deltas),
    ensures
        screen.after(deltas).state == if deltas.len() > 0 && total_of(deltas)
            >= max_duration.total_nanos() {
            IntroState::Failure
        } else {
            IntroState::Running
        },
        screen.after(deltas).state == IntroState::Running ==> screen.after(
            deltas,
        ).preferences.duration == GenericDynamicDuration::started(max_duration).after(deltas),
    decreases deltas.len(),
{
    if deltas.len() > 0 {
        let front = deltas.drop_last();
        lemma_dynamic_screen_times_out(screen, max_duration, front);
        GenericDynamicDuration::lemma_unreported_after(max_duration, front);
        GenericDynamicDuration::lemma_unreported_after(max_duration, deltas);
        let before = screen.after(front);
        if before.state == IntroState::Running {
            let strategy = GenericDynamicDuration::started(max_duration).after(front);
            Countdown::lemma_fresh_after(max_duration, front);
            Countdown::lemma_fresh_after(max_duration, deltas);
            strategy.lemma_ticked(deltas.last());
            assert(strategy.state() == DynamicDurationState::Running);
        } else {
            lemma_total_of_prefix(deltas, deltas.len() - 1);
            assert(deltas.take(deltas.len() - 1) =~= front);
        }
    }
}

/// A message is asked for only in the failure state: whatever happens to a
/// screen, where the answer asks for the message, the screen is in the
/// failure state afterwards. So once that state is left, no message is
/// asked for any more.
pub proof fn lemma_message_only_in_failure<S, D: SplashDuration<S>, U, F: SplashFailureManager>(
    screen: IntroScreenModel<S, D, U, F>,
    delta: TimeSpan,
    input: SkipInput,
    success: bool,
)
    ensures
        screen.tick_requests(delta, input).show_message ==> screen.ticked(delta).state
            == IntroState::Failure,
        screen.loaded_requests(success).show_message ==> screen.loaded(success).state
            == IntroState::Failure,
{
}

/// What a message adds to the effects of another manager: the request to
/// show it, and nothing else. The host state asked for and the end of the
/// application are those of the other effects alone.
pub proof fn lemma_performed_with_message<S>(
    transition_to: S,
    effects: Seq<FailureAction>,
    onto: IntroRequests<S>,
)
    ensures
        performed(&transition_to, seq![FailureAction::ShowMessage] + effects, onto)
            == (IntroRequests {
            show_message: true,
            ..performed(&transition_to, effects, onto)
        }),
        performed(&transition_to, effects + seq![FailureAction::ShowMessage], onto)
            == (IntroRequests {
            show_message: true,
            ..performed(&transition_to, effects, onto)
        }),
{
    let message = seq![FailureAction::ShowMessage];
    let first = message + effects;
    let last = effects + message;
    assert(first[0] == FailureAction::ShowMessage);
    assert(last[effects.len() as int] == FailureAction::ShowMessage);
    assert forall|a: FailureAction| a != FailureAction::ShowMessage implies (first.contains(a)
        <==> effects.contains(a)) && (last.contains(a) <==> effects.contains(a)) by {
        if effects.contains(a) {
            let k = choose|k: int| 0 <= k < effects.len() && effects[k] == a;
            assert(first[k + 1] == a);
            assert(last[k] == a);
        }
        if first.contains(a) {
            let k = choose|k: int| 0 <= k < first.len() && first[k] == a;
            assert(effects[k - 1] == a);
        }
        if last.contains(a) {
            let k = choose|k: int| 0 <= k < last.len() && last[k] == a;
            assert(effects[k] == a);
        }
    }
}

/// A failed screen whose failure manager is a message combined with another
/// manager asks for the message on every tick, and for the rest goes by the
/// other manager alone, whichever that is.
pub proof fn lemma_message_shown_while_failed<
    S,
    D: SplashDuration<S>,
    U,
    T,
    F: SplashFailureManager,
>(
    screen: IntroScreenModel<S, D, U, And<OnFailureShowMessage<T>, F>>,
    delta: TimeSpan,
    input: SkipInput,
)
    requires
        screen.state == IntroState::Failure,
    ensures
        screen.ticked(delta).state == IntroState::Failure,
        screen.tick_requests(delta, input) == (IntroRequests {
            show_message: true,
            ..performed(
                &screen.preferences.transition_to,
                screen.failure_manager.second().on_tick(screen.handler.1, delta),
                no_requests(),
            )
        }),
{
    lemma_performed_with_message(
        screen.preferences.transition_to,
        screen.failure_manager.second().on_tick(screen.handler.1, delta),
        no_requests(),
    );
}

} // verus!
