//! The items most callers need, under one path.

pub use crate::splash_screen::builder::{IntroPreferencesBuilder, IntroScreenPluginBuilder};
pub use crate::splash_screen::countdown::{Countdown, TimeSpan, NANOS_PER_SEC};
pub use crate::splash_screen::skip_screen::{skip_gate, SkipInput};
pub use crate::splash_screen::state::{
    is_failure, is_loading, is_running, started_running, IntroState,
};
pub use crate::splash_screen::tick::dynamic::{DynamicDurationState, GenericDynamicDuration};
pub use crate::splash_screen::tick::fixed::{FixedDuration, SPLASH_DEFAULT_MILLIS};
pub use crate::splash_screen::tick::{DurationRequest, SplashDuration};
pub use crate::splash_screen::ui::failure::{
    And, FailureAction, OnFailureCloseWindow, OnFailureCloseWindowWithDelay, OnFailureContinue,
    OnFailureContinueWithDelay, OnFailureShowMessage, SplashFailureManager, WithDelay,
};
pub use crate::splash_screen::{IntroPreferences, IntroRequests, IntroScreenPlugin};
