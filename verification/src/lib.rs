//! Lifecycle of an introduction screen: a four-state machine that waits for a
//! duration strategy to end the screen, lets input skip it, and hands failures
//! to composable failure managers.
//!
//! The screen does nothing by itself. The application that shows it reports
//! what happens (the screen's host state was entered or left, loading has
//! ended, a tick of so much time has passed with such input), and each report
//! is answered with what the application is asked to do next.

pub mod splash_screen;

pub mod prelude;
