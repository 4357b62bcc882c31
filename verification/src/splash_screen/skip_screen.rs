//! The skip gate: input that ends the running screen early.

use crate::splash_screen::IntroPreferences;
use vstd::prelude::*;

verus! {

/// The confirm gestures that were made on one tick.
#[derive(Clone, Copy, Debug, PartialEq, Eq, Structural)]
pub struct SkipInput {
    /// The escape gesture.
    pub escape: bool,
    /// The primary confirm gesture.
    pub primary: bool,
    /// The secondary confirm gesture.
    pub secondary: bool,
}

impl SkipInput {
    /// Whether any of the gestures was made.
    pub open spec fn spec_any_just_pressed(&self) -> bool {
        self.escape || self.primary || self.secondary
    }

    /// Whether any of the gestures was made.
    #[verifier::when_used_as_spec(spec_any_just_pressed)]
    pub fn any_just_pressed(&self) -> (r: bool)
        ensures
            r == self.any_just_pressed(),
    {
        self.escape || self.primary || self.secondary
    }

    /// A tick on which no gesture was made.
    pub fn none() -> (r: SkipInput)
        ensures
            r == (SkipInput { escape: false, primary: false, secondary: false }),
            !r.any_just_pressed(),
    {
        SkipInput { escape: false, primary: false, secondary: false }
    }
}

/// What the gestures of one tick ask for on a running screen that can be
/// skipped: the state `transition_to` if any gesture was made, nothing
/// otherwise.
pub fn skip_gate<'a, S>(transition_to: &'a S, input: &SkipInput) -> (r: Option<&'a S>)
    ensures
        r == if input.any_just_pressed() {
            Some(transition_to)
        } else {
            None
        },
{
    if input.any_just_pressed() {
        Some(transition_to)
    } else {
        None
    }
}

impl<S, D, U> IntroPreferences<S, D, U> {
    /// What the gestures of one tick ask for on a running screen that can be
    /// skipped: the state that follows the screen if any gesture was made,
    /// nothing otherwise.
    pub fn skip_screen(&self, input: &SkipInput) -> (r: Option<&S>)
        ensures
            r == if input.any_just_pressed() {
                Some(&self.transition_to)
            } else {
                None
            },
    {
        skip_gate(&self.transition_to, input)
    }
}

} // verus!
