//! The introduction screen itself: its preferences, and the machine that
//! takes it through its states.

pub mod builder;
pub mod countdown;
pub mod runs;
pub mod skip_screen;
pub mod state;
pub mod tick;
pub mod ui;

use crate::splash_screen::countdown::TimeSpan;
use crate::splash_screen::skip_screen::{skip_gate, SkipInput};
use crate::splash_screen::state::IntroState;
use crate::splash_screen::tick::{DurationRequest, SplashDuration};
use crate::splash_screen::ui::failure::{FailureAction, SplashFailureManager};
use vstd::prelude::*;

verus! {

/// Configuration options for the introduction screen.
///
/// # Generic Parameters
///
/// * `S`: The state type used by the application.
/// * `D`: The duration strategy of the screen.
/// * `U`: The type responsible for showing the screen.
#[derive(Clone, Debug)]
pub struct IntroPreferences<S, D, U> {
    /// The host state in which the screen is shown.
    pub run_at: S,
    /// The host state that follows the screen, on success and on a skip.
    pub transition_to: S,
    /// Whether input can end the running screen early.
    pub skip_on_input: bool,
    /// What decides when the running screen ends.
    pub duration: D,
    /// What shows the screen.
    pub ui: U,
}

/// What the screen asks of the host application after one event.
#[derive(Debug, PartialEq, Eq)]
pub struct IntroRequests<'a, S> {
    /// The host state to enter next, if one is asked for. Of several requests
    /// made on one event, this is the last.
    pub next_state: Option<&'a S>,
    /// Whether the application is to end.
    pub exit: bool,
    /// Whether the message of the failure manager is to be shown now. It is
    /// asked for anew at every moment at which it is to be seen.
    pub show_message: bool,
}

/// The introduction screen: its preferences, its failure manager, and the
/// state it is in.
///
/// The host application reports what happens to it (the host state `run_at`
/// was entered or left, loading has ended, a tick has passed), and performs
/// the requests that each report is answered with.
pub struct IntroScreenPlugin<S, D, U, F: SplashFailureManager> {
    preferences: IntroPreferences<S, D, U>,
    failure_manager: F,
    handler: F::Handler,
    state: IntroState,
}

/// What an introduction screen consists of, for stating what its functions do.
pub struct IntroScreenModel<S, D, U, F: SplashFailureManager> {
    /// The preferences, with the duration strategy as it stands.
    pub preferences: IntroPreferences<S, D, U>,
    /// The failure manager.
    pub failure_manager: F,
    /// What the failure manager keeps while a failure is handled.
    pub handler: F::Handler,
    /// The state of the screen.
    pub state: IntroState,
}

/// No request at all.
pub open spec fn no_requests<'a, S>() -> IntroRequests<'a, S> {
    IntroRequests { next_state: None, exit: false, show_message: false }
}

/// The requests `onto` once a failure manager has done `effects`: a continue
/// asks for the state `transition_to`, in place of any state asked for
/// before; a close asks for the end of the application; a message asks to be
/// shown.
pub open spec fn performed<'a, S>(
    transition_to: &'a S,
    effects: Seq<FailureAction>,
    onto: IntroRequests<'a, S>,
) -> IntroRequests<'a, S> {
    IntroRequests {
        next_state: if effects.contains(FailureAction::Continue) {
            Some(transition_to)
        } else {
            onto.next_state
        },
        exit: onto.exit || effects.contains(FailureAction::Close),
        show_message: onto.show_message || effects.contains(FailureAction::ShowMessage),
    }
}

/// The requests `onto` after the skip gate: where the screen can be skipped
/// and a gesture was made, the state `transition_to` is asked for, whatever
/// was asked for before.
pub open spec fn skipped<'a, S>(
    skip_on_input: bool,
    transition_to: &'a S,
    input: SkipInput,
    onto: IntroRequests<'a, S>,
) -> IntroRequests<'a, S> {
    if skip_on_input && input.any_just_pressed() {
        IntroRequests { next_state: Some(transition_to), ..onto }
    } else {
        onto
    }
}

impl<S, D: SplashDuration<S>, U, F: SplashFailureManager> IntroScreenModel<S, D, U, F> {
    /// The strategy, the manager and its handler are well formed.
    pub open spec fn wf(self) -> bool {
        &&& self.preferences.duration.wf()
        &&& self.failure_manager.wf()
        &&& self.failure_manager.handler_wf(self.handler)
    }

    /// The screen of `preferences` and `failure_manager` before anything has
    /// happened to it.
    pub open spec fn installed(preferences: IntroPreferences<S, D, U>, failure_manager: F) -> Self {
        IntroScreenModel {
            preferences,
            failure_manager,
            handler: failure_manager.installed(),
            state: IntroState::Idle,
        }
    }

    /// The screen in `state`, all else as it is.
    pub open spec fn in_state(self, state: IntroState) -> Self {
        IntroScreenModel { state, ..self }
    }

    /// The screen once it has entered the failure state and its failure
    /// manager has been told.
    pub open spec fn failed(self) -> Self {
        IntroScreenModel {
            state: IntroState::Failure,
            handler: self.failure_manager.entered(self.handler),
            ..self
        }
    }

    /// What the failure manager asks for at the moment the failure state is
    /// entered.
    pub open spec fn failure_requests<'a>(&'a self) -> IntroRequests<'a, S> {
        performed(
            &self.preferences.transition_to,
            self.failure_manager.on_enter(self.handler),
            no_requests(),
        )
    }

    /// The screen after loading has ended. A screen that is loading starts
    /// to run if loading went well and fails if not; in any other state
    /// nothing happens.
    pub open spec fn loaded(self, success: bool) -> Self {
        if self.state != IntroState::Loading {
            self
        } else if success {
            self.in_state(IntroState::Running)
        } else {
            self.failed()
        }
    }

    /// What the end of loading asks of the host: what the failure manager
    /// asks for if a loading screen failed to load, and nothing otherwise.
    pub open spec fn loaded_requests<'a>(&'a self, success: bool) -> IntroRequests<'a, S> {
        if self.state == IntroState::Loading && !success {
            self.failure_requests()
        } else {
            no_requests()
        }
    }

    /// The screen after a tick of `delta`.
    ///
    /// A running screen hands the tick to its duration strategy, and moves
    /// to the state that the strategy asks for, if it asks for one; where
    /// that is the failure state, the failure manager is told. A failed
    /// screen hands the tick to its failure manager. An idle or loading
    /// screen lets it pass.
    pub open spec fn ticked(self, delta: TimeSpan) -> Self {
        match self.state {
            IntroState::Running => {
                let timed = IntroScreenModel {
                    preferences: IntroPreferences {
                        duration: self.preferences.duration.advanced(delta),
                        ..self.preferences
                    },
                    ..self
                };
                match self.preferences.duration.requested(delta, &self.preferences.transition_to) {
                    Some(DurationRequest::Intro(IntroState::Failure)) => timed.failed(),
                    Some(DurationRequest::Intro(state)) => timed.in_state(state),
                    _ => timed,
                }
            },
            IntroState::Failure => IntroScreenModel {
                handler: self.failure_manager.ticked(self.handler, delta),
                ..self
            },
            _ => self,
        }
    }

    /// What a tick of `delta` with the gestures `input` asks of the host.
    ///
    /// On a running screen: the host state that the duration strategy asks
    /// for, or, where it asks for the failure state, what the failure
    /// manager asks for on entering it; and after that the skip gate, which
    /// has the last word. On a failed screen: what the failure manager asks
    /// for on this tick. On an idle or loading screen: nothing.
    pub open spec fn tick_requests<'a>(&'a self, delta: TimeSpan, input: SkipInput)
        -> IntroRequests<'a, S> {
        match self.state {
            IntroState::Running => {
                let timed = match self.preferences.duration.requested(
                    delta,
                    &self.preferences.transition_to,
                ) {
                    Some(DurationRequest::Host(s)) => IntroRequests {
                        next_state: Some(s),
                        exit: false,
                        show_message: false,
                    },
                    Some(DurationRequest::Intro(IntroState::Failure)) => self.failure_requests(),
                    _ => no_requests(),
                };
                skipped(
                    self.preferences.skip_on_input,
                    &self.preferences.transition_to,
                    input,
                    timed,
                )
            },
            IntroState::Failure => performed(
                &self.preferences.transition_to,
                self.failure_manager.on_tick(self.handler, delta),
                no_requests(),
            ),
            _ => no_requests(),
        }
    }
}

impl<S, D, U> IntroPreferences<S, D, U> {
    /// The preferences of a screen.
    pub fn new(run_at: S, transition_to: S, skip_on_input: bool, duration: D, ui: U) -> (r: Self)
        ensures
            r == (IntroPreferences { run_at, transition_to, skip_on_input, duration, ui }),
    {
        IntroPreferences { run_at, transition_to, skip_on_input, duration, ui }
    }

    /// The host state in which the screen is shown.
    pub fn run_at(&self) -> (r: &S)
        ensures
            *r == self.run_at,
    {
        &self.run_at
    }

    /// The host state that follows the screen.
    pub fn transition_to(&self) -> (r: &S)
        ensures
            *r == self.transition_to,
    {
        &self.transition_to
    }

    /// Whether input can end the running screen early.
    pub fn skip_on_input(&self) -> (r: &bool)
        ensures
            *r == self.skip_on_input,
    {
        &self.skip_on_input
    }

    /// What decides when the running screen ends.
    pub fn duration(&self) -> (r: &D)
        ensures
            *r == self.duration,
    {
        &self.duration
    }

    /// What shows the screen.
    pub fn ui(&self) -> (r: &U)
        ensures
            *r == self.ui,
    {
        &self.ui
    }
}

impl<S, D: SplashDuration<S>, U, F: SplashFailureManager> View for IntroScreenPlugin<S, D, U, F> {
    type V = IntroScreenModel<S, D, U, F>;

    closed spec fn view(&self) -> IntroScreenModel<S, D, U, F> {
        IntroScreenModel {
            preferences: self.preferences,
            failure_manager: self.failure_manager,
            handler: self.handler,
            state: self.state,
        }
    }
}

/// Carries out what a failure manager did: adds to `requests` what
/// `effects` ask of the host application.
fn perform<'a, S>(
    transition_to: &'a S,
    effects: &Vec<FailureAction>,
    requests: &mut IntroRequests<'a, S>,
)
    ensures
        *final(requests) == performed(transition_to, effects@, *old(requests)),
{
    let mut i: usize = 0;
    while i < effects.len()
        invariant
            0 <= i <= effects.len(),
            *requests == performed(transition_to, effects@.take(i as int), *old(requests)),
        decreases effects.len() - i,
    {
        proof {
            let before = effects@.take(i as int);
            let with = effects@.take(i + 1);
            assert(with =~= before.push(effects@[i as int]));
            assert forall|a: FailureAction| with.contains(a) <==> before.contains(a) || a
                == effects@[i as int] by {
                if with.contains(a) {
                    let k = choose|k: int| 0 <= k < with.len() && with[k] == a;
                    if k < i {
                        assert(before[k] == a);
                    }
                }
                if before.contains(a) {
                    let k = choose|k: int| 0 <= k < before.len() && before[k] == a;
                    assert(with[k] == a);
                }
                assert(with[i as int] == effects@[i as int]);
            }
        }
        match effects[i] {
            FailureAction::Continue => {
                requests.next_state = Some(transition_to);
            },
            FailureAction::Close => {
                requests.exit = true;
            },
            FailureAction::ShowMessage => {
                requests.show_message = true;
            },
        }
        i = i + 1;
    }
    proof {
        assert(effects@.take(i as int) =~= effects@);
    }
}

/// Tells `manager` that the failure state has been entered, and answers with
/// what it asks of the host application at once.
fn enter_failure<'a, S, F: SplashFailureManager>(
    manager: &F,
    handler: &mut F::Handler,
    transition_to: &'a S,
) -> (r: IntroRequests<'a, S>)
    requires
        manager.wf(),
        manager.handler_wf(*old(handler)),
    ensures
        manager.handler_wf(*final(handler)),
        *final(handler) == manager.entered(*old(handler)),
        r == performed(transition_to, manager.on_enter(*old(handler)), no_requests()),
{
    let mut effects: Vec<FailureAction> = Vec::new();
    manager.enter_failure(handler, &mut effects);
    assert(effects@ =~= manager.on_enter(*old(handler)));
    let mut requests = IntroRequests { next_state: None, exit: false, show_message: false };
    perform(transition_to, &effects, &mut requests);
    requests
}

impl<S, D: SplashDuration<S>, U, F: SplashFailureManager> IntroScreenPlugin<S, D, U, F> {
    /// Sets the screen up: it is idle, and the failure manager has set up
    /// its handling of failures.
    pub fn new(preferences: IntroPreferences<S, D, U>, failure_manager: F) -> (r: Self)
        requires
            preferences.duration.wf(),
            failure_manager.wf(),
        ensures
            r@.wf(),
            r@ == IntroScreenModel::installed(preferences, failure_manager),
    {
        let handler = failure_manager.manage_failure();
        IntroScreenPlugin { preferences, failure_manager, handler, state: IntroState::Idle }
    }

    /// The state of the screen.
    pub fn state(&self) -> (r: IntroState)
        ensures
            r == self@.state,
    {
        self.state
    }

    /// The preferences of the screen.
    pub fn preferences(&self) -> (r: &IntroPreferences<S, D, U>)
        ensures
            *r == self@.preferences,
    {
        &self.preferences
    }

    /// The failure manager of the screen.
    pub fn failure_manager(&self) -> (r: &F)
        ensures
            *r == self@.failure_manager,
    {
        &self.failure_manager
    }

    /// The duration strategy of the screen, for whoever reports to it between
    /// ticks. Nothing else of the screen changes with it.
    pub fn duration_mut(&mut self) -> (r: &mut D)
        ensures
            *r == old(self)@.preferences.duration,
            final(self)@ == (IntroScreenModel {
                preferences: IntroPreferences {
                    duration: *final(r),
                    ..old(self)@.preferences
                },
                ..old(self)@
            }),
    {
        &mut self.preferences.duration
    }

    /// The host application entered `run_at`: the screen starts loading.
    pub fn change_state(&mut self)
        ensures
            final(self)@ == old(self)@.in_state(IntroState::Loading),
    {
        self.state = IntroState::Loading;
    }

    /// The host application left `run_at`, for whatever reason: the screen
    /// is idle again.
    pub fn splash_finish(&mut self)
        ensures
            final(self)@ == old(self)@.in_state(IntroState::Idle),
    {
        self.state = IntroState::Idle;
    }

    /// Loading has ended, well or not. A screen that is loading starts to
    /// run if loading went well, and fails if it did not; a screen in any
    /// other state stays as it is.
    pub fn loading_finished<'a>(&'a mut self, success: bool) -> (r: IntroRequests<'a, S>)
        requires
            old(self)@.wf(),
        ensures
            final(self)@.wf(),
            final(self)@ == old(self)@.loaded(success),
            r == old(self)@.loaded_requests(success),
    {
        if self.state.is_loading() {
            if success {
                self.state = IntroState::Running;
            } else {
                self.state = IntroState::Failure;
                return enter_failure(
                    &self.failure_manager,
                    &mut self.handler,
                    &self.preferences.transition_to,
                );
            }
        }
        IntroRequests { next_state: None, exit: false, show_message: false }
    }

    /// A tick of `delta` has passed, on which the gestures `input` were made.
    ///
    /// Only a running screen gives the tick to its duration strategy and to
    /// the skip gate, and only a failed screen gives it to its failure
    /// manager. The answer holds what the host application is asked to do.
    pub fn tick<'a>(&'a mut self, delta: TimeSpan, input: &SkipInput) -> (r: IntroRequests<'a, S>)
        requires
            old(self)@.wf(),
            delta.wf(),
        ensures
            final(self)@.wf(),
            final(self)@ == old(self)@.ticked(delta),
            r == old(self)@.tick_requests(delta, *input),
    {
        let mut requests = IntroRequests { next_state: None, exit: false, show_message: false };
        match self.state {
            IntroState::Running => {
                let asked = self.preferences.duration.tick_duration(
                    delta,
                    &self.preferences.transition_to,
                );
                match asked {
                    Some(DurationRequest::Host(s)) => {
                        requests.next_state = Some(s);
                    },
                    Some(DurationRequest::Intro(state)) => {
                        self.state = state;
                        if state.is_failure() {
                            requests = enter_failure(
                                &self.failure_manager,
                                &mut self.handler,
                                &self.preferences.transition_to,
                            );
                        }
                    },
                    None => {},
                }
                if self.preferences.skip_on_input {
                    match skip_gate(&self.preferences.transition_to, input) {
                        Some(s) => {
                            requests.next_state = Some(s);
                        },
                        None => {},
                    }
                }
            },
            IntroState::Failure => {
                let mut effects: Vec<FailureAction> = Vec::new();
                self.failure_manager.tick_failure(&mut self.handler, delta, &mut effects);
                assert(effects@ =~= old(self)@.failure_manager.on_tick(old(self)@.handler, delta));
                perform(&self.preferences.transition_to, &effects, &mut requests);
            },
            _ => {},
        }
        requests
    }
}

/// The skip gate. On a running screen that can be skipped, a tick on which
/// any gesture is made asks for the state that follows the screen, whatever
/// the duration strategy does on that tick. On a screen that cannot be
/// skipped, and on one that is not running, no input makes any difference.
/// The state that the screen moves to never depends on the input.
pub proof fn lemma_skip_gate<S, D: SplashDuration<S>, U, F: SplashFailureManager>(
    screen: IntroScreenModel<S, D, U, F>,
    delta: TimeSpan,
    input: SkipInput,
    other: SkipInput,
)
    ensures
        screen.state == IntroState::Running && screen.preferences.skip_on_input
            && input.any_just_pressed() ==> screen.tick_requests(delta, input).next_state == Some(
            &screen.preferences.transition_to,
        ),
        !screen.preferences.skip_on_input || screen.state != IntroState::Running
            ==> screen.tick_requests(delta, input) == screen.tick_requests(delta, other),
{
}

/// The guard on the states. An idle or loading screen lets a tick pass: it
/// stays as it is and asks for nothing. A failed screen stays failed, with
/// its duration strategy untouched, and asks only for what its failure
/// manager does. Only a running screen gives the tick to its strategy.
pub proof fn lemma_only_running_ticks<S, D: SplashDuration<S>, U, F: SplashFailureManager>(
    screen: IntroScreenModel<S, D, U, F>,
    delta: TimeSpan,
    input: SkipInput,
)
    ensures
        screen.state == IntroState::Idle || screen.state == IntroState::Loading ==> screen.ticked(
            delta,
        ) == screen && screen.tick_requests(delta, input) == no_requests::<S>(),
        screen.state == IntroState::Failure ==> {
            &&& screen.ticked(delta).state == IntroState::Failure
            &&& screen.ticked(delta).preferences == screen.preferences
            &&& screen.tick_requests(delta, input) == performed(
                &screen.preferences.transition_to,
                screen.failure_manager.on_tick(screen.handler, delta),
                no_requests(),
            )
        },
        screen.state == IntroState::Running ==> screen.ticked(delta).preferences.duration
            == screen.preferences.duration.advanced(delta),
{
}

/// How a running screen ends. On a tick without a gesture it asks for a host
/// state exactly if its strategy asks for one or a failure is answered with
/// a continue at once; it enters the failure state exactly if its strategy
/// asks for that state; and it ends the application only through its failure
/// manager.
pub proof fn lemma_running_tick<S, D: SplashDuration<S>, U, F: SplashFailureManager>(
    screen: IntroScreenModel<S, D, U, F>,
    delta: TimeSpan,
    input: SkipInput,
)
    requires
        screen.state == IntroState::Running,
        !input.any_just_pressed(),
    ensures
        match screen.preferences.duration.requested(delta, &screen.preferences.transition_to) {
            None => screen.tick_requests(delta, input) == no_requests::<S>() && screen.ticked(
                delta,
            ).state == IntroState::Running,
            Some(DurationRequest::Host(s)) => screen.tick_requests(delta, input)
                == (IntroRequests { next_state: Some(s), exit: false, show_message: false })
                && screen.ticked(
                delta,
            ).state == IntroState::Running,
            Some(DurationRequest::Intro(state)) => screen.ticked(delta).state == state && (state
                != IntroState::Failure ==> screen.tick_requests(delta, input)
                == no_requests::<S>()) && (state == IntroState::Failure ==> screen.tick_requests(
                delta,
                input,
            ) == performed(
                &screen.preferences.transition_to,
                screen.failure_manager.on_enter(screen.handler),
                no_requests(),
            )),
        },
{
}

} // verus!
