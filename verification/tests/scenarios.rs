use bevy_intro_screen::prelude::{
    DynamicDurationState, FixedDuration, GenericDynamicDuration, IntroPreferences, IntroRequests,
    IntroScreenPlugin, IntroState, OnFailureCloseWindow, OnFailureContinue, SkipInput, TimeSpan,
};
use bevy_intro_screen::prelude::skip_gate;

#[derive(Clone, Copy, Debug, PartialEq, Eq)]
enum AppState {
    Splash,
    Menu,
    Credits,
}

fn ms(n: u64) -> TimeSpan {
    TimeSpan::from_millis(n)
}

fn nothing() -> IntroRequests<'static, AppState> {
    IntroRequests { next_state: None, exit: false, show_message: false }
}

fn go_to(s: &AppState) -> IntroRequests<'_, AppState> {
    IntroRequests { next_state: Some(s), exit: false, show_message: false }
}

fn confirm() -> SkipInput {
    SkipInput { escape: false, primary: true, secondary: false }
}

fn fixed_screen(
    skip_on_input: bool,
) -> IntroScreenPlugin<AppState, FixedDuration<AppState>, (), OnFailureContinue> {
    let preferences = IntroPreferences::new(
        AppState::Splash,
        AppState::Menu,
        skip_on_input,
        FixedDuration::new_with_duration(ms(500), AppState::Menu),
        (),
    );
    IntroScreenPlugin::new(preferences, OnFailureContinue)
}

#[test]
fn fixed_screen_runs_its_full_duration() {
    let mut screen = fixed_screen(false);
    assert_eq!(screen.state(), IntroState::Idle);
    screen.change_state();
    assert_eq!(screen.state(), IntroState::Loading);
    assert_eq!(screen.loading_finished(true), nothing());
    assert_eq!(screen.state(), IntroState::Running);
    assert_eq!(screen.tick(ms(499), &SkipInput::none()), nothing());
    assert_eq!(screen.state(), IntroState::Running);
    assert_eq!(screen.tick(ms(1), &SkipInput::none()), go_to(&AppState::Menu));
    screen.splash_finish();
    assert_eq!(screen.state(), IntroState::Idle);
    assert_eq!(screen.tick(ms(1), &SkipInput::none()), nothing());
}

#[test]
fn input_is_ignored_where_the_screen_cannot_be_skipped() {
    let mut screen = fixed_screen(false);
    screen.change_state();
    screen.loading_finished(true);
    let all = SkipInput { escape: true, primary: true, secondary: true };
    assert_eq!(screen.tick(ms(100), &all), nothing());
    assert_eq!(screen.tick(ms(100), &all), nothing());
    assert_eq!(screen.state(), IntroState::Running);
}

#[test]
fn confirm_gesture_skips_the_running_screen() {
    let mut screen = fixed_screen(true);
    screen.change_state();
    screen.loading_finished(true);
    assert_eq!(screen.tick(ms(100), &confirm()), go_to(&AppState::Menu));
    assert!(!screen.preferences().duration().timer().finished());
    assert_eq!(screen.preferences().duration().timer().elapsed(), ms(100));
    screen.splash_finish();
    assert_eq!(screen.tick(ms(1000), &SkipInput::none()), nothing());
    assert!(!screen.preferences().duration().timer().finished());
}

#[test]
fn each_gesture_skips() {
    let gestures = [
        SkipInput { escape: true, primary: false, secondary: false },
        SkipInput { escape: false, primary: true, secondary: false },
        SkipInput { escape: false, primary: false, secondary: true },
    ];
    for gesture in gestures {
        let mut screen = fixed_screen(true);
        screen.change_state();
        screen.loading_finished(true);
        assert_eq!(screen.tick(ms(1), &SkipInput::none()), nothing());
        assert_eq!(screen.tick(ms(1), &gesture), go_to(&AppState::Menu));
    }
}

#[test]
fn gestures_do_nothing_before_the_screen_runs() {
    let mut screen = fixed_screen(true);
    assert_eq!(screen.tick(ms(1), &confirm()), nothing());
    screen.change_state();
    assert_eq!(screen.tick(ms(1), &confirm()), nothing());
    assert_eq!(screen.state(), IntroState::Loading);
    assert_eq!(screen.preferences().duration().timer().elapsed(), ms(0));
}

#[test]
fn skip_overrides_the_target_of_the_strategy() {
    let preferences = IntroPreferences::new(
        AppState::Splash,
        AppState::Menu,
        true,
        FixedDuration::new_with_duration(ms(500), AppState::Credits),
        (),
    );
    let mut screen = IntroScreenPlugin::new(preferences, OnFailureContinue);
    screen.change_state();
    screen.loading_finished(true);
    assert_eq!(screen.tick(ms(500), &confirm()), go_to(&AppState::Menu));

    let preferences = IntroPreferences::new(
        AppState::Splash,
        AppState::Menu,
        true,
        FixedDuration::new_with_duration(ms(500), AppState::Credits),
        (),
    );
    let mut screen = IntroScreenPlugin::new(preferences, OnFailureContinue);
    screen.change_state();
    screen.loading_finished(true);
    assert_eq!(screen.tick(ms(500), &SkipInput::none()), go_to(&AppState::Credits));
}

fn dynamic_screen(
) -> IntroScreenPlugin<AppState, GenericDynamicDuration, (), OnFailureCloseWindow> {
    let preferences = IntroPreferences::new(
        AppState::Splash,
        AppState::Menu,
        false,
        GenericDynamicDuration::new(TimeSpan::from_secs(60)),
        (),
    );
    IntroScreenPlugin::new(preferences, OnFailureCloseWindow)
}

#[test]
fn reported_failure_fails_the_screen_at_once() {
    let mut screen = dynamic_screen();
    screen.change_state();
    screen.loading_finished(true);
    for _ in 0..10 {
        assert_eq!(screen.tick(TimeSpan::from_secs(1), &SkipInput::none()), nothing());
        assert_eq!(screen.state(), IntroState::Running);
    }
    screen.duration_mut().set_state(DynamicDurationState::Failure);
    let asked = screen.tick(ms(0), &SkipInput::none());
    assert_eq!(asked, IntroRequests { next_state: None, exit: true, show_message: false });
    assert_eq!(screen.state(), IntroState::Failure);
}

#[test]
fn reported_completion_ends_the_screen() {
    let mut screen = dynamic_screen();
    screen.change_state();
    screen.loading_finished(true);
    assert_eq!(screen.tick(TimeSpan::from_secs(59), &SkipInput::none()), nothing());
    screen.duration_mut().set_state(DynamicDurationState::Completed);
    assert_eq!(screen.tick(TimeSpan::from_secs(5), &SkipInput::none()), go_to(&AppState::Menu));
    assert_eq!(screen.state(), IntroState::Running);
}

#[test]
fn unreported_screen_fails_when_the_maximum_is_reached() {
    let mut screen = dynamic_screen();
    screen.change_state();
    screen.loading_finished(true);
    assert_eq!(screen.tick(TimeSpan::from_secs(59), &SkipInput::none()), nothing());
    assert_eq!(screen.tick(ms(999), &SkipInput::none()), nothing());
    assert_eq!(screen.state(), IntroState::Running);
    let asked = screen.tick(ms(1), &SkipInput::none());
    assert_eq!(asked, IntroRequests { next_state: None, exit: true, show_message: false });
    assert_eq!(screen.state(), IntroState::Failure);
    assert_eq!(screen.preferences().duration().state(), DynamicDurationState::Failure);
    assert_eq!(screen.tick(ms(1), &SkipInput::none()), nothing());
    assert_eq!(screen.state(), IntroState::Failure);
}

#[test]
fn failed_loading_fails_the_screen() {
    let mut screen = dynamic_screen();
    screen.change_state();
    let asked = screen.loading_finished(false);
    assert_eq!(asked, IntroRequests { next_state: None, exit: true, show_message: false });
    assert_eq!(screen.state(), IntroState::Failure);
}

#[test]
fn end_of_loading_is_ignored_where_nothing_loads() {
    let mut screen = dynamic_screen();
    assert_eq!(screen.loading_finished(true), nothing());
    assert_eq!(screen.state(), IntroState::Idle);
    assert_eq!(screen.loading_finished(false), nothing());
    assert_eq!(screen.state(), IntroState::Idle);
    screen.change_state();
    screen.loading_finished(true);
    assert_eq!(screen.loading_finished(false), nothing());
    assert_eq!(screen.state(), IntroState::Running);
}

#[test]
fn continue_after_failure_asks_for_the_next_state() {
    let preferences = IntroPreferences::new(
        AppState::Splash,
        AppState::Menu,
        false,
        GenericDynamicDuration::new(TimeSpan::from_secs(2)),
        (),
    );
    let mut screen = IntroScreenPlugin::new(preferences, OnFailureContinue);
    screen.change_state();
    screen.loading_finished(true);
    assert_eq!(screen.tick(TimeSpan::from_secs(1), &SkipInput::none()), nothing());
    assert_eq!(screen.tick(TimeSpan::from_secs(1), &SkipInput::none()), go_to(&AppState::Menu));
    assert_eq!(screen.state(), IntroState::Failure);
}

#[test]
fn builders_make_the_screen_once_all_is_given() {
    let preferences = IntroPreferences::builder()
        .run_at(AppState::Splash)
        .transition_to(AppState::Menu)
        .skip_on_input(true)
        .duration(FixedDuration::new(AppState::Menu))
        .ui("screen")
        .build()
        .expect("every value was given");
    assert_eq!(*preferences.run_at(), AppState::Splash);
    assert_eq!(*preferences.transition_to(), AppState::Menu);
    assert!(*preferences.skip_on_input());
    assert_eq!(*preferences.ui(), "screen");
    assert_eq!(*preferences.duration().next_state(), AppState::Menu);
    let screen = IntroScreenPlugin::builder()
        .preferences(preferences)
        .failure_manager(OnFailureContinue)
        .build()
        .expect("both values were given");
    assert_eq!(screen.state(), IntroState::Idle);
}

#[test]
fn builders_make_nothing_while_a_value_is_missing() {
    let missing = IntroPreferences::<AppState, FixedDuration<AppState>, ()>::builder()
        .run_at(AppState::Splash)
        .transition_to(AppState::Menu)
        .duration(FixedDuration::new(AppState::Menu))
        .ui(())
        .build();
    assert!(missing.is_none());
    let preferences = IntroPreferences::new(
        AppState::Splash,
        AppState::Menu,
        false,
        FixedDuration::new(AppState::Menu),
        (),
    );
    let screen = IntroScreenPlugin::<_, _, _, OnFailureContinue>::builder()
        .preferences(preferences)
        .build();
    assert!(screen.is_none());
}

#[test]
fn skip_gate_asks_for_the_next_state_on_any_gesture() {
    let preferences = IntroPreferences::new(
        AppState::Splash,
        AppState::Menu,
        true,
        FixedDuration::new(AppState::Menu),
        (),
    );
    assert_eq!(preferences.skip_screen(&SkipInput::none()), None);
    assert_eq!(preferences.skip_screen(&confirm()), Some(&AppState::Menu));
    assert_eq!(skip_gate(&AppState::Credits, &SkipInput::none()), None);
    assert_eq!(skip_gate(&AppState::Credits, &confirm()), Some(&AppState::Credits));
    assert!(confirm().any_just_pressed());
    assert!(!SkipInput::none().any_just_pressed());
}
