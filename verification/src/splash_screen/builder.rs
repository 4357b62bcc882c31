//! Builders for the preferences and for the screen: each value is given by
//! name, in any order, and the whole is made once all of them are there.

use crate::splash_screen::tick::SplashDuration;
use crate::splash_screen::ui::failure::SplashFailureManager;
use crate::splash_screen::{IntroPreferences, IntroScreenModel, IntroScreenPlugin};
use vstd::prelude::*;

verus! {

/// The values given so far for the preferences of a screen.
pub struct IntroPreferencesBuilder<S, D, U> {
    /// The host state in which the screen is shown.
    pub run_at: Option<S>,
    /// The host state that follows the screen.
    pub transition_to: Option<S>,
    /// Whether input can end the running screen early.
    pub skip_on_input: Option<bool>,
    /// What decides when the running screen ends.
    pub duration: Option<D>,
    /// What shows the screen.
    pub ui: Option<U>,
}

/// The values given so far for a screen.
pub struct IntroScreenPluginBuilder<S, D, U, F> {
    /// The preferences of the screen.
    pub preferences: Option<IntroPreferences<S, D, U>>,
    /// The failure manager of the screen.
    pub failure_manager: Option<F>,
}

impl<S, D, U> IntroPreferences<S, D, U> {
    /// Starts the preferences of a screen, with no value given yet.
    pub fn builder() -> (r: IntroPreferencesBuilder<S, D, U>)
        ensures
            r == (IntroPreferencesBuilder::<S, D, U> {
                run_at: None,
                transition_to: None,
                skip_on_input: None,
                duration: None,
                ui: None,
            }),
    {
        IntroPreferencesBuilder {
            run_at: None,
            transition_to: None,
            skip_on_input: None,
            duration: None,
            ui: None,
        }
    }
}

impl<S, D, U> IntroPreferencesBuilder<S, D, U> {
    /// Whether every value has been given.
    pub open spec fn complete(self) -> bool {
        &&& self.run_at.is_some()
        &&& self.transition_to.is_some()
        &&& self.skip_on_input.is_some()
        &&& self.duration.is_some()
        &&& self.ui.is_some()
    }

    /// Gives the host state in which the screen is shown.
    pub fn run_at(self, run_at: S) -> (r: Self)
        ensures
            r == (IntroPreferencesBuilder { run_at: Some(run_at), ..self }),
    {
        IntroPreferencesBuilder { run_at: Some(run_at), ..self }
    }

    /// Gives the host state that follows the screen.
    pub fn transition_to(self, transition_to: S) -> (r: Self)
        ensures
            r == (IntroPreferencesBuilder { transition_to: Some(transition_to), ..self }),
    {
        IntroPreferencesBuilder { transition_to: Some(transition_to), ..self }
    }

    /// Says whether input can end the running screen early.
    pub fn skip_on_input(self, skip_on_input: bool) -> (r: Self)
        ensures
            r == (IntroPreferencesBuilder { skip_on_input: Some(skip_on_input), ..self }),
    {
        IntroPreferencesBuilder { skip_on_input: Some(skip_on_input), ..self }
    }

    /// Gives the duration strategy.
    pub fn duration(self, duration: D) -> (r: Self)
        ensures
            r == (IntroPreferencesBuilder { duration: Some(duration), ..self }),
    {
        IntroPreferencesBuilder { duration: Some(duration), ..self }
    }

    /// Gives what shows the screen.
    pub fn ui(self, ui: U) -> (r: Self)
        ensures
            r == (IntroPreferencesBuilder { ui: Some(ui), ..self }),
    {
        IntroPreferencesBuilder { ui: Some(ui), ..self }
    }

    /// Makes the preferences, if every value has been given.
    pub fn build(self) -> (r: Option<IntroPreferences<S, D, U>>)
        ensures
            r.is_some() <==> self.complete(),
            self.complete() ==> r == Some(
                IntroPreferences {
                    run_at: self.run_at->0,
                    transition_to: self.transition_to->0,
                    skip_on_input: self.skip_on_input->0,
                    duration: self.duration->0,
                    ui: self.ui->0,
                },
            ),
    {
        match (self.run_at, self.transition_to, self.skip_on_input, self.duration, self.ui) {
            (Some(run_at), Some(transition_to), Some(skip_on_input), Some(duration), Some(ui)) => {
                Some(IntroPreferences { run_at, transition_to, skip_on_input, duration, ui })
            },
            _ => None,
        }
    }
}

impl<S, D: SplashDuration<S>, U, F: SplashFailureManager> IntroScreenPlugin<S, D, U, F> {
    /// Starts a screen, with no value given yet.
    pub fn builder() -> (r: IntroScreenPluginBuilder<S, D, U, F>)
        ensures
            r == (IntroScreenPluginBuilder::<S, D, U, F> {
                preferences: None,
                failure_manager: None,
            }),
    {
        IntroScreenPluginBuilder { preferences: None, failure_manager: None }
    }
}

impl<S, D: SplashDuration<S>, U, F: SplashFailureManager> IntroScreenPluginBuilder<
    S,
    D,
    U,
    F,
> {
    /// Whether both values have been given, and can be used: the duration
    /// strategy and the failure manager are well formed.
    pub open spec fn usable(self) -> bool {
        &&& self.preferences matches Some(p) && p.duration.wf()
        &&& self.failure_manager matches Some(m) && m.wf()
    }

    /// Gives the preferences.
    pub fn preferences(self, preferences: IntroPreferences<S, D, U>) -> (r: Self)
        ensures
            r == (IntroScreenPluginBuilder { preferences: Some(preferences), ..self }),
    {
        IntroScreenPluginBuilder { preferences: Some(preferences), ..self }
    }

    /// Gives the failure manager.
    pub fn failure_manager(self, failure_manager: F) -> (r: Self)
        ensures
            r == (IntroScreenPluginBuilder { failure_manager: Some(failure_manager), ..self }),
    {
        IntroScreenPluginBuilder { failure_manager: Some(failure_manager), ..self }
    }

    /// Sets the screen up, if both values have been given.
    pub fn build(self) -> (r: Option<IntroScreenPlugin<S, D, U, F>>)
        requires
            self.preferences matches Some(p) ==> p.duration.wf(),
            self.failure_manager matches Some(m) ==> m.wf(),
        ensures
            r.is_some() <==> self.preferences.is_some() && self.failure_manager.is_some(),
            r matches Some(screen) ==> screen@.wf() && screen@ == IntroScreenModel::installed(
                self.preferences->0,
                self.failure_manager->0,
            ),
    {
        match (self.preferences, self.failure_manager) {
            (Some(preferences), Some(failure_manager)) => Some(
                IntroScreenPlugin::new(preferences, failure_manager),
            ),
            _ => None,
        }
    }
}

} // verus!
