//! Failure managers: what happens once the screen has entered the failure state.

use crate::splash_screen::countdown::{all_wf, first_reached, Countdown, TimeSpan};
use vstd::prelude::*;

verus! {

/// What a failure manager does about a failure.
#[derive(Clone, Copy, Debug, PartialEq, Eq, Structural)]
pub enum FailureAction {
    /// Go on to the state that follows the screen, as if it had succeeded.
    Continue,
    /// End the application.
    Close,
    /// Show the message of the manager, for this moment of the failure.
    ShowMessage,
}

/// Defines a trait for managing failures of the screen.
///
/// A manager is configuration only. What it needs while a failure is being
/// handled it keeps in a handler, which `manage_failure` makes once at setup.
/// The handler is told when the failure state is entered and of every tick
/// spent in it, and each time adds to `effects` what it does about it.
pub trait SplashFailureManager: Sized {
    /// What the manager keeps while a failure is handled.
    type Handler;

    /// The manager is configured with usable values.
    spec fn wf(&self) -> bool;

    /// What the manager keeps true of its handler.
    spec fn handler_wf(&self, handler: Self::Handler) -> bool;

    /// The handler as it is set up.
    spec fn installed(&self) -> Self::Handler;

    /// What the manager does at the moment the failure state is entered.
    spec fn on_enter(&self, handler: Self::Handler) -> Seq<FailureAction>;

    /// The handler once the failure state has been entered.
    spec fn entered(&self, handler: Self::Handler) -> Self::Handler;

    /// What the manager does on a tick of `delta` in the failure state.
    spec fn on_tick(&self, handler: Self::Handler, delta: TimeSpan) -> Seq<FailureAction>;

    /// The handler after a tick of `delta` in the failure state.
    spec fn ticked(&self, handler: Self::Handler, delta: TimeSpan) -> Self::Handler;

    /// Sets up the handling of failures. Called once, before any failure.
    fn manage_failure(&self) -> (handler: Self::Handler)
        requires
            self.wf(),
        ensures
            self.handler_wf(handler),
            handler == self.installed(),
    ;

    /// The failure state has been entered.
    fn enter_failure(&self, handler: &mut Self::Handler, effects: &mut Vec<FailureAction>)
        requires
            self.wf(),
            self.handler_wf(*old(handler)),
        ensures
            self.handler_wf(*final(handler)),
            *final(handler) == self.entered(*old(handler)),
            final(effects)@ == old(effects)@ + self.on_enter(*old(handler)),
    ;

    /// A tick of `delta` has passed in the failure state.
    fn tick_failure(
        &self,
        handler: &mut Self::Handler,
        delta: TimeSpan,
        effects: &mut Vec<FailureAction>,
    )
        requires
            self.wf(),
            self.handler_wf(*old(handler)),
            delta.wf(),
        ensures
            self.handler_wf(*final(handler)),
            *final(handler) == self.ticked(*old(handler), delta),
            final(effects)@ == old(effects)@ + self.on_tick(*old(handler), delta),
    ;
}

/// The handler of `manager` after the failure state was entered and the
/// ticks of `deltas` have passed in it.
pub open spec fn handler_after<F: SplashFailureManager>(
    manager: F,
    deltas: Seq<TimeSpan>,
) -> F::Handler
    decreases deltas.len(),
{
    if deltas.len() == 0 {
        manager.entered(manager.installed())
    } else {
        manager.ticked(handler_after(manager, deltas.drop_last()), deltas.last())
    }
}

/// What `manager` does on tick `i` of the ticks `deltas` that follow the
/// entry into the failure state.
pub open spec fn effects_at<F: SplashFailureManager>(
    manager: F,
    deltas: Seq<TimeSpan>,
    i: int,
) -> Seq<FailureAction>
    recommends
        0 <= i < deltas.len(),
{
    manager.on_tick(handler_after(manager, deltas.take(i)), deltas[i])
}

/// Two failure managers in one: what `first` does, then what `second` does.
///
/// It is made by [`And::new`], or by the `and` of a manager of this module.
#[derive(Clone)]
pub struct And<A, B> where A: SplashFailureManager, B: SplashFailureManager {
    first: A,
    second: B,
}

impl<A: SplashFailureManager, B: SplashFailureManager> And<A, B> {
    /// The manager that is told first.
    pub closed spec fn first(self) -> A {
        self.first
    }

    /// The manager that is told second.
    pub closed spec fn second(self) -> B {
        self.second
    }

    /// The two managers of the pair, in the order in which they are told.
    pub fn managers(&self) -> (r: (&A, &B))
        ensures
            *r.0 == self.first(),
            *r.1 == self.second(),
    {
        (&self.first, &self.second)
    }

    /// Combines two managers into one that hands every event to both, first
    /// to `first`, then to `second`.
    pub fn new(first: A, second: B) -> (r: Self)
        ensures
            r.first() == first,
            r.second() == second,
    {
        And { first, second }
    }

    /// Combines this pair with one more manager, which is told last.
    pub fn and<C: SplashFailureManager>(self, other: C) -> (r: And<Self, C>)
        ensures
            r.first() == self,
            r.second() == other,
    {
        And { first: self, second: other }
    }
}

/// Closes the window when a failure occurs.
#[derive(Clone, Copy)]
pub struct OnFailureCloseWindow;

/// Continues to the next state (the `transition_to` of the preferences) when
/// a failure occurs.
#[derive(Clone, Copy)]
pub struct OnFailureContinue;

/// Closes the window **after a delay** when a failure occurs.
#[derive(Clone, Copy)]
pub struct OnFailureCloseWindowWithDelay(pub TimeSpan);

/// Continues to the next state (the `transition_to` of the preferences)
/// **after a delay** when a failure occurs.
#[derive(Clone, Copy)]
pub struct OnFailureContinueWithDelay(pub TimeSpan);

/// Shows a message for as long as the screen is in the failure state.
///
/// The manager asks for its message to be shown when the failure state is
/// entered and again on every tick spent in it, and at no other time, so
/// that the message is gone once the state is left. It does nothing else
/// about the failure, so it is combined with a manager that does.
#[derive(Clone)]
pub struct OnFailureShowMessage<T>(pub T);

/// The countdown of one delayed manager. Each delayed manager has a handler
/// of its own, so no two of them share a countdown.
#[derive(Clone, Copy)]
pub struct WithDelay {
    timer: Countdown,
}

impl OnFailureCloseWindow {
    /// What [`OnFailureCloseWindow`] does: it ends the application.
    pub fn system(effects: &mut Vec<FailureAction>)
        ensures
            final(effects)@ == old(effects)@.push(FailureAction::Close),
    {
        effects.push(FailureAction::Close);
    }

    /// Combines this manager with another, which is told after this one.
    pub fn and<B: SplashFailureManager>(self, other: B) -> (r: And<OnFailureCloseWindow, B>)
        ensures
            r.first() == self,
            r.second() == other,
    {
        And { first: self, second: other }
    }
}

impl OnFailureContinue {
    /// What [`OnFailureContinue`] does: it goes on to the next state.
    pub fn system(effects: &mut Vec<FailureAction>)
        ensures
            final(effects)@ == old(effects)@.push(FailureAction::Continue),
    {
        effects.push(FailureAction::Continue);
    }

    /// Combines this manager with another, which is told after this one.
    pub fn and<B: SplashFailureManager>(self, other: B) -> (r: And<OnFailureContinue, B>)
        ensures
            r.first() == self,
            r.second() == other,
    {
        And { first: self, second: other }
    }
}

impl OnFailureCloseWindowWithDelay {
    /// Combines this manager with another, which is told after this one.
    pub fn and<B: SplashFailureManager>(self, other: B) -> (r: And<OnFailureCloseWindowWithDelay, B>)
        ensures
            r.first() == self,
            r.second() == other,
    {
        And { first: self, second: other }
    }
}

impl OnFailureContinueWithDelay {
    /// Combines this manager with another, which is told after this one.
    pub fn and<B: SplashFailureManager>(self, other: B) -> (r: And<OnFailureContinueWithDelay, B>)
        ensures
            r.first() == self,
            r.second() == other,
    {
        And { first: self, second: other }
    }
}

impl<T> OnFailureShowMessage<T> {
    /// What [`OnFailureShowMessage`] does: it asks for its message to be
    /// shown.
    pub fn system(effects: &mut Vec<FailureAction>)
        ensures
            final(effects)@ == old(effects)@.push(FailureAction::ShowMessage),
    {
        effects.push(FailureAction::ShowMessage);
    }

    /// Combines this manager with another, which is told after this one.
    pub fn and<B: SplashFailureManager>(self, other: B) -> (r: And<OnFailureShowMessage<T>, B>)
        ensures
            r.first() == self,
            r.second() == other,
    {
        And { first: self, second: other }
    }
}

impl WithDelay {
    /// The countdown is well formed.
    pub closed spec fn wf(self) -> bool {
        self.timer.wf()
    }

    /// The countdown of the delay.
    pub closed spec fn timer(self) -> Countdown {
        self.timer
    }

    /// The delay of `duration` before any time has passed.
    pub closed spec fn fresh(duration: TimeSpan) -> WithDelay {
        WithDelay { timer: Countdown::fresh(duration) }
    }

    /// The delay after a tick of `delta`.
    pub closed spec fn ticked(self, delta: TimeSpan) -> WithDelay {
        WithDelay { timer: self.timer.ticked(delta) }
    }

    /// Whether the delay has passed.
    pub closed spec fn spec_delay_finished(&self) -> bool {
        self.timer.finished()
    }

    /// A delay of `duration` of which nothing has passed yet.
    pub fn new(duration: TimeSpan) -> (r: WithDelay)
        requires
            duration.wf(),
        ensures
            r.wf(),
            r == Self::fresh(duration),
            r.timer() == Countdown::fresh(duration),
            !r.delay_finished(),
    {
        WithDelay { timer: Countdown::new(duration) }
    }

    /// Lets `delta` pass on the delay. Returns whether the delay ran out on
    /// this tick, which it does once.
    pub fn system(&mut self, delta: TimeSpan) -> (fired: bool)
        requires
            old(self).wf(),
            delta.wf(),
        ensures
            final(self).wf(),
            *final(self) == old(self).ticked(delta),
            final(self).timer() == old(self).timer().ticked(delta),
            fired == old(self).timer().fires(delta),
    {
        self.timer.tick(delta)
    }

    /// Whether the delay has passed.
    #[verifier::when_used_as_spec(spec_delay_finished)]
    pub fn delay_finished(&self) -> (r: bool)
        ensures
            r == self.delay_finished(),
            r == self.timer().finished(),
    {
        self.timer.finished()
    }

    /// A fresh delay holds a fresh countdown.
    pub proof fn lemma_fresh(duration: TimeSpan)
        requires
            duration.wf(),
        ensures
            Self::fresh(duration).wf(),
            Self::fresh(duration).timer() == Countdown::fresh(duration),
    {
        Countdown::lemma_fresh(duration);
    }

    /// A tick of the delay is a tick of its countdown.
    pub proof fn lemma_ticked(self, delta: TimeSpan)
        requires
            self.wf(),
            delta.wf(),
        ensures
            self.ticked(delta).wf(),
            self.ticked(delta).timer() == self.timer().ticked(delta),
    {
        self.timer.lemma_ticked(delta);
    }
}

impl<A: SplashFailureManager, B: SplashFailureManager> SplashFailureManager for And<A, B> {
    type Handler = (A::Handler, B::Handler);

    open spec fn wf(&self) -> bool {
        self.first().wf() && self.second().wf()
    }

    open spec fn handler_wf(&self, handler: Self::Handler) -> bool {
        self.first().handler_wf(handler.0) && self.second().handler_wf(handler.1)
    }

    open spec fn installed(&self) -> Self::Handler {
        (self.first().installed(), self.second().installed())
    }

    open spec fn on_enter(&self, handler: Self::Handler) -> Seq<FailureAction> {
        self.first().on_enter(handler.0) + self.second().on_enter(handler.1)
    }

    open spec fn entered(&self, handler: Self::Handler) -> Self::Handler {
        (self.first().entered(handler.0), self.second().entered(handler.1))
    }

    open spec fn on_tick(&self, handler: Self::Handler, delta: TimeSpan) -> Seq<FailureAction> {
        self.first().on_tick(handler.0, delta) + self.second().on_tick(handler.1, delta)
    }

    open spec fn ticked(&self, handler: Self::Handler, delta: TimeSpan) -> Self::Handler {
        (self.first().ticked(handler.0, delta), self.second().ticked(handler.1, delta))
    }

    fn manage_failure(&self) -> (handler: Self::Handler) {
        let first = self.first.manage_failure();
        let second = self.second.manage_failure();
        (first, second)
    }

    fn enter_failure(&self, handler: &mut Self::Handler, effects: &mut Vec<FailureAction>) {
        self.first.enter_failure(&mut handler.0, effects);
        self.second.enter_failure(&mut handler.1, effects);
        assert(final(effects)@ =~= old(effects)@ + self.on_enter(*old(handler)));
    }

    fn tick_failure(
        &self,
        handler: &mut Self::Handler,
        delta: TimeSpan,
        effects: &mut Vec<FailureAction>,
    ) {
        self.first.tick_failure(&mut handler.0, delta, effects);
        self.second.tick_failure(&mut handler.1, delta, effects);
        assert(final(effects)@ =~= old(effects)@ + self.on_tick(*old(handler), delta));
    }
}

impl SplashFailureManager for OnFailureCloseWindow {
    type Handler = ();

    open spec fn wf(&self) -> bool {
        true
    }

    open spec fn handler_wf(&self, handler: ()) -> bool {
        true
    }

    open spec fn installed(&self) -> () {
        ()
    }

    /// The application ends at once.
    open spec fn on_enter(&self, handler: ()) -> Seq<FailureAction> {
        seq![FailureAction::Close]
    }

    open spec fn entered(&self, handler: ()) -> () {
        ()
    }

    /// All was done on entering the failure state: a tick adds nothing.
    open spec fn on_tick(&self, handler: (), delta: TimeSpan) -> Seq<FailureAction> {
        seq![]
    }

    open spec fn ticked(&self, handler: (), delta: TimeSpan) -> () {
        ()
    }

    fn manage_failure(&self) -> (handler: ()) {
        ()
    }

    fn enter_failure(&self, handler: &mut (), effects: &mut Vec<FailureAction>) {
        Self::system(effects);
        assert(final(effects)@ =~= old(effects)@ + seq![FailureAction::Close]);
    }

    fn tick_failure(&self, handler: &mut (), delta: TimeSpan, effects: &mut Vec<FailureAction>) {
        assert(final(effects)@ =~= old(effects)@ + Seq::<FailureAction>::empty());
    }
}

impl SplashFailureManager for OnFailureContinue {
    type Handler = ();

    open spec fn wf(&self) -> bool {
        true
    }

    open spec fn handler_wf(&self, handler: ()) -> bool {
        true
    }

    open spec fn installed(&self) -> () {
        ()
    }

    /// The screen goes on to the next state at once.
    open spec fn on_enter(&self, handler: ()) -> Seq<FailureAction> {
        seq![FailureAction::Continue]
    }

    open spec fn entered(&self, handler: ()) -> () {
        ()
    }

    /// All was done on entering the failure state: a tick adds nothing.
    open spec fn on_tick(&self, handler: (), delta: TimeSpan) -> Seq<FailureAction> {
        seq![]
    }

    open spec fn ticked(&self, handler: (), delta: TimeSpan) -> () {
        ()
    }

    fn manage_failure(&self) -> (handler: ()) {
        ()
    }

    fn enter_failure(&self, handler: &mut (), effects: &mut Vec<FailureAction>) {
        Self::system(effects);
        assert(final(effects)@ =~= old(effects)@ + seq![FailureAction::Continue]);
    }

    fn tick_failure(&self, handler: &mut (), delta: TimeSpan, effects: &mut Vec<FailureAction>) {
        assert(final(effects)@ =~= old(effects)@ + Seq::<FailureAction>::empty());
    }
}

impl<T> SplashFailureManager for OnFailureShowMessage<T> {
    type Handler = ();

    open spec fn wf(&self) -> bool {
        true
    }

    open spec fn handler_wf(&self, handler: ()) -> bool {
        true
    }

    open spec fn installed(&self) -> () {
        ()
    }

    /// The message is shown from the moment the failure state is entered.
    open spec fn on_enter(&self, handler: ()) -> Seq<FailureAction> {
        seq![FailureAction::ShowMessage]
    }

    open spec fn entered(&self, handler: ()) -> () {
        ()
    }

    /// The message is shown on every tick spent in the failure state.
    open spec fn on_tick(&self, handler: (), delta: TimeSpan) -> Seq<FailureAction> {
        seq![FailureAction::ShowMessage]
    }

    open spec fn ticked(&self, handler: (), delta: TimeSpan) -> () {
        ()
    }

    fn manage_failure(&self) -> (handler: ()) {
        ()
    }

    fn enter_failure(&self, handler: &mut (), effects: &mut Vec<FailureAction>) {
        Self::system(effects);
        assert(final(effects)@ =~= old(effects)@ + seq![FailureAction::ShowMessage]);
    }

    fn tick_failure(&self, handler: &mut (), delta: TimeSpan, effects: &mut Vec<FailureAction>) {
        Self::system(effects);
        assert(final(effects)@ =~= old(effects)@ + seq![FailureAction::ShowMessage]);
    }
}

/// What a delayed manager does on a tick of `delta`: `action` on the tick on
/// which its delay runs out, nothing on any other.
pub open spec fn delayed(handler: WithDelay, delta: TimeSpan, action: FailureAction) -> Seq<
    FailureAction,
> {
    if handler.timer().fires(delta) {
        seq![action]
    } else {
        seq![]
    }
}

impl SplashFailureManager for OnFailureCloseWindowWithDelay {
    type Handler = WithDelay;

    open spec fn wf(&self) -> bool {
        self.0.wf()
    }

    open spec fn handler_wf(&self, handler: WithDelay) -> bool {
        handler.wf()
    }

    open spec fn installed(&self) -> WithDelay {
        WithDelay::fresh(self.0)
    }

    /// Nothing happens yet when the failure state is entered.
    open spec fn on_enter(&self, handler: WithDelay) -> Seq<FailureAction> {
        seq![]
    }

    /// The delay starts when the failure state is entered.
    open spec fn entered(&self, handler: WithDelay) -> WithDelay {
        WithDelay::fresh(self.0)
    }

    /// The application ends on the tick on which the delay runs out.
    open spec fn on_tick(&self, handler: WithDelay, delta: TimeSpan) -> Seq<FailureAction> {
        delayed(handler, delta, FailureAction::Close)
    }

    open spec fn ticked(&self, handler: WithDelay, delta: TimeSpan) -> WithDelay {
        handler.ticked(delta)
    }

    fn manage_failure(&self) -> (handler: WithDelay) {
        WithDelay::new(self.0)
    }

    fn enter_failure(&self, handler: &mut WithDelay, effects: &mut Vec<FailureAction>) {
        *handler = WithDelay::new(self.0);
        assert(final(effects)@ =~= old(effects)@ + Seq::<FailureAction>::empty());
    }

    fn tick_failure(
        &self,
        handler: &mut WithDelay,
        delta: TimeSpan,
        effects: &mut Vec<FailureAction>,
    ) {
        if handler.system(delta) {
            OnFailureCloseWindow::system(effects);
        }
        assert(final(effects)@ =~= old(effects)@ + self.on_tick(*old(handler), delta));
    }
}

impl SplashFailureManager for OnFailureContinueWithDelay {
    type Handler = WithDelay;

    open spec fn wf(&self) -> bool {
        self.0.wf()
    }

    open spec fn handler_wf(&self, handler: WithDelay) -> bool {
        handler.wf()
    }

    open spec fn installed(&self) -> WithDelay {
        WithDelay::fresh(self.0)
    }

    /// Nothing happens yet when the failure state is entered.
    open spec fn on_enter(&self, handler: WithDelay) -> Seq<FailureAction> {
        seq![]
    }

    /// The delay starts when the failure state is entered.
    open spec fn entered(&self, handler: WithDelay) -> WithDelay {
        WithDelay::fresh(self.0)
    }

    /// The screen goes on to the next state on the tick on which the delay
    /// runs out.
    open spec fn on_tick(&self, handler: WithDelay, delta: TimeSpan) -> Seq<FailureAction> {
        delayed(handler, delta, FailureAction::Continue)
    }

    open spec fn ticked(&self, handler: WithDelay, delta: TimeSpan) -> WithDelay {
        handler.ticked(delta)
    }

    fn manage_failure(&self) -> (handler: WithDelay) {
        WithDelay::new(self.0)
    }

    fn enter_failure(&self, handler: &mut WithDelay, effects: &mut Vec<FailureAction>) {
        *handler = WithDelay::new(self.0);
        assert(final(effects)@ =~= old(effects)@ + Seq::<FailureAction>::empty());
    }

    fn tick_failure(
        &self,
        handler: &mut WithDelay,
        delta: TimeSpan,
        effects: &mut Vec<FailureAction>,
    ) {
        if handler.system(delta) {
            OnFailureContinue::system(effects);
        }
        assert(final(effects)@ =~= old(effects)@ + self.on_tick(*old(handler), delta));
    }
}

/// A pair of managers does, at every moment, what its first manager does
/// followed by what its second does: on entering the failure state, and on
/// every tick after it. Each of the two runs on a handler of its own, which
/// is the handler it would have alone, so nothing that either of them does
/// is lost or moved, and the first is always served before the second.
pub proof fn lemma_and_runs_both<A: SplashFailureManager, B: SplashFailureManager>(
    pair: And<A, B>,
    deltas: Seq<TimeSpan>,
    i: int,
)
    requires
        0 <= i < deltas.len(),
    ensures
        pair.on_enter(pair.installed()) == pair.first().on_enter(pair.first().installed())
            + pair.second().on_enter(pair.second().installed()),
        handler_after(pair, deltas) == (
            handler_after(pair.first(), deltas),
            handler_after(pair.second(), deltas),
        ),
        effects_at(pair, deltas, i) == effects_at(pair.first(), deltas, i) + effects_at(
            pair.second(),
            deltas,
            i,
        ),
{
    lemma_and_handlers(pair, deltas);
    lemma_and_handlers(pair, deltas.take(i));
}

/// The handler of a pair is the pair of the handlers that its two managers
/// would have alone.
pub proof fn lemma_and_handlers<A: SplashFailureManager, B: SplashFailureManager>(
    pair: And<A, B>,
    deltas: Seq<TimeSpan>,
)
    ensures
        handler_after(pair, deltas) == (
            handler_after(pair.first(), deltas),
            handler_after(pair.second(), deltas),
        ),
    decreases deltas.len(),
{
    if deltas.len() > 0 {
        lemma_and_handlers(pair, deltas.drop_last());
    }
}

/// A message is shown at every moment of the failure and changes nothing
/// else: a manager that is combined with a message, before it or after it,
/// does at every moment exactly what it does alone, and the message is asked
/// for beside it, in the place in which the two were combined.
pub proof fn lemma_message_is_independent<T, F: SplashFailureManager>(
    before: And<OnFailureShowMessage<T>, F>,
    after: And<F, OnFailureShowMessage<T>>,
    deltas: Seq<TimeSpan>,
    i: int,
)
    requires
        0 <= i < deltas.len(),
    ensures
        before.on_enter(before.installed()) == seq![FailureAction::ShowMessage]
            + before.second().on_enter(before.second().installed()),
        effects_at(before, deltas, i) == seq![FailureAction::ShowMessage] + effects_at(
            before.second(),
            deltas,
            i,
        ),
        after.on_enter(after.installed()) == after.first().on_enter(after.first().installed())
            + seq![FailureAction::ShowMessage],
        effects_at(after, deltas, i) == effects_at(after.first(), deltas, i)
            + seq![FailureAction::ShowMessage],
{
    lemma_and_runs_both(before, deltas, i);
    lemma_and_runs_both(after, deltas, i);
}

/// The handler of a delayed close holds the countdown that was started on
/// entering the failure state and has been given every tick since.
pub proof fn lemma_delayed_close_handler(manager: OnFailureCloseWindowWithDelay, deltas: Seq<TimeSpan>)
    requires
        manager.wf(),
        all_wf(deltas),
    ensures
        handler_after(manager, deltas).wf(),
        handler_after(manager, deltas).timer() == Countdown::fresh(manager.0).after(deltas),
    decreases deltas.len(),
{
    WithDelay::lemma_fresh(manager.0);
    if deltas.len() > 0 {
        lemma_delayed_close_handler(manager, deltas.drop_last());
        handler_after(manager, deltas.drop_last()).lemma_ticked(deltas.last());
    }
}

/// A delayed close ends the application exactly once: not when the failure
/// state is entered, not on any tick before the time passed since then has
/// reached the delay, on the first tick on which it has, and never again.
pub proof fn lemma_delayed_close_fires_once(
    manager: OnFailureCloseWindowWithDelay,
    deltas: Seq<TimeSpan>,
    i: int,
)
    requires
        manager.wf(),
        all_wf(deltas),
        0 <= i < deltas.len(),
    ensures
        manager.on_enter(manager.installed()) == Seq::<FailureAction>::empty(),
        effects_at(manager, deltas, i) == if first_reached(manager.0, deltas, i) {
            seq![FailureAction::Close]
        } else {
            seq![]
        },
{
    lemma_delayed_close_handler(manager, deltas.take(i));
    Countdown::lemma_fires_once(manager.0, deltas, i);
}

/// The handler of a delayed continue holds the countdown that was started on
/// entering the failure state and has been given every tick since.
pub proof fn lemma_delayed_continue_handler(
    manager: OnFailureContinueWithDelay,
    deltas: Seq<TimeSpan>,
)
    requires
        manager.wf(),
        all_wf(deltas),
    ensures
        handler_after(manager, deltas).wf(),
        handler_after(manager, deltas).timer() == Countdown::fresh(manager.0).after(deltas),
    decreases deltas.len(),
{
    WithDelay::lemma_fresh(manager.0);
    if deltas.len() > 0 {
        lemma_delayed_continue_handler(manager, deltas.drop_last());
        handler_after(manager, deltas.drop_last()).lemma_ticked(deltas.last());
    }
}

/// A delayed continue goes on to the next state exactly once: not when the
/// failure state is entered, not on any tick before the time passed since
/// then has reached the delay, on the first tick on which it has, and never
/// again.
pub proof fn lemma_delayed_continue_fires_once(
    manager: OnFailureContinueWithDelay,
    deltas: Seq<TimeSpan>,
    i: int,
)
    requires
        manager.wf(),
        all_wf(deltas),
        0 <= i < deltas.len(),
    ensures
        manager.on_enter(manager.installed()) == Seq::<FailureAction>::empty(),
        effects_at(manager, deltas, i) == if first_reached(manager.0, deltas, i) {
            seq![FailureAction::Continue]
        } else {
            seq![]
        },
{
    lemma_delayed_continue_handler(manager, deltas.take(i));
    Countdown::lemma_fires_once(manager.0, deltas, i);
}

} // verus!
