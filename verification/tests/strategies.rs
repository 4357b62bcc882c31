use bevy_intro_screen::prelude::{
    is_failure, is_loading, is_running, started_running, Countdown, DurationRequest,
    DynamicDurationState, FixedDuration, GenericDynamicDuration, IntroState, SplashDuration,
    TimeSpan, NANOS_PER_SEC, SPLASH_DEFAULT_MILLIS,
};

fn ms(n: u64) -> TimeSpan {
    TimeSpan::from_millis(n)
}

#[test]
fn time_span_from_parts() {
    assert_eq!(NANOS_PER_SEC, 1_000_000_000);
    let span = TimeSpan::new(3, 999_999_999).expect("below one second");
    assert_eq!(span.as_secs(), 3);
    assert_eq!(span.subsec_nanos(), 999_999_999);
    assert!(TimeSpan::new(3, 1_000_000_000).is_none());
    assert!(TimeSpan::new(0, u32::MAX).is_none());
}

#[test]
fn time_span_from_millis_and_secs() {
    let span = ms(1500);
    assert_eq!(span.as_secs(), 1);
    assert_eq!(span.subsec_nanos(), 500_000_000);
    assert_eq!(ms(999).as_secs(), 0);
    assert_eq!(ms(999).subsec_nanos(), 999_000_000);
    assert_eq!(ms(u64::MAX).as_secs(), u64::MAX / 1000);
    assert_eq!(ms(u64::MAX).subsec_nanos(), 615_000_000);
    assert_eq!(TimeSpan::from_secs(7), TimeSpan::new(7, 0).expect("below one second"));
    assert_eq!(ms(2000), TimeSpan::from_secs(2));
}

#[test]
fn time_span_sum_fits_up_to_the_longest_span() {
    let longest = TimeSpan::new(u64::MAX, 999_999_999).expect("below one second");
    assert!(longest.fits_with(&ms(0)));
    assert!(!longest.fits_with(&TimeSpan::new(0, 1).expect("below one second")));
    let almost = TimeSpan::new(u64::MAX, 0).expect("below one second");
    assert!(almost.fits_with(&TimeSpan::new(0, 999_999_999).expect("below one second")));
    assert!(!almost.fits_with(&TimeSpan::from_secs(1)));
    let half = TimeSpan::new(u64::MAX - 1, 500_000_000).expect("below one second");
    assert!(half.fits_with(&TimeSpan::new(1, 499_999_999).expect("below one second")));
    assert!(!half.fits_with(&TimeSpan::new(1, 500_000_000).expect("below one second")));
    assert!(ms(1).fits_with(&ms(2)));
}

#[test]
fn countdown_gathers_time_until_it_runs_out() {
    let mut countdown = Countdown::new(ms(500));
    assert_eq!(countdown.duration(), ms(500));
    assert_eq!(countdown.elapsed(), ms(0));
    assert!(!countdown.finished());
    assert!(!countdown.tick(ms(200)));
    assert_eq!(countdown.elapsed(), ms(200));
    assert!(!countdown.tick(ms(299)));
    assert_eq!(countdown.elapsed(), ms(499));
    assert!(!countdown.finished());
    assert!(countdown.tick(ms(1)));
    assert!(countdown.finished());
    assert_eq!(countdown.elapsed(), ms(500));
}

#[test]
fn countdown_runs_out_once_and_holds_its_duration() {
    let mut countdown = Countdown::new(ms(500));
    assert!(countdown.tick(ms(700)));
    assert_eq!(countdown.elapsed(), ms(500));
    assert!(!countdown.tick(ms(700)));
    assert!(!countdown.tick(ms(0)));
    assert!(countdown.finished());
    assert_eq!(countdown.elapsed(), ms(500));
    assert_eq!(countdown.duration(), ms(500));
}

#[test]
fn countdown_of_nothing_runs_out_on_its_first_tick() {
    let mut countdown = Countdown::new(ms(0));
    assert!(!countdown.finished());
    assert!(countdown.tick(ms(0)));
    assert!(countdown.finished());
    assert!(!countdown.tick(ms(0)));
}

#[test]
fn countdown_carries_nanoseconds_into_seconds() {
    let mut countdown = Countdown::new(TimeSpan::from_secs(10));
    let step = TimeSpan::new(0, 600_000_000).expect("below one second");
    assert!(!countdown.tick(step));
    assert!(!countdown.tick(step));
    let gathered = countdown.elapsed();
    assert_eq!(gathered.as_secs(), 1);
    assert_eq!(gathered.subsec_nanos(), 200_000_000);
}

#[test]
fn countdown_takes_a_step_too_long_to_add() {
    let longest = TimeSpan::new(u64::MAX, 999_999_999).expect("below one second");
    let mut countdown = Countdown::new(longest);
    assert!(!countdown.tick(TimeSpan::from_secs(1)));
    assert_eq!(countdown.elapsed(), TimeSpan::from_secs(1));
    assert!(countdown.tick(longest));
    assert!(countdown.finished());
    assert_eq!(countdown.elapsed(), longest);
    assert!(!countdown.tick(longest));
}

#[test]
fn fixed_duration_asks_once_for_its_state() {
    let mut fixed = FixedDuration::new_with_duration(ms(500), 'x');
    assert_eq!(*fixed.next_state(), 'x');
    assert_eq!(fixed.tick_time(ms(250)), None);
    assert_eq!(fixed.tick_time(ms(249)), None);
    assert_eq!(fixed.tick_time(ms(1)), Some(&'x'));
    assert_eq!(fixed.tick_time(ms(1)), None);
    assert_eq!(fixed.tick_time(ms(500)), None);
    assert!(fixed.timer().finished());
}

#[test]
fn fixed_duration_defaults_to_one_and_a_half_seconds() {
    assert_eq!(SPLASH_DEFAULT_MILLIS, 1500);
    let mut fixed = FixedDuration::new(9u8);
    assert_eq!(fixed.timer().duration(), ms(1500));
    assert_eq!(fixed.timer().duration().as_secs(), 1);
    assert_eq!(fixed.timer().duration().subsec_nanos(), 500_000_000);
    assert_eq!(fixed.tick_time(ms(1499)), None);
    assert_eq!(fixed.tick_time(ms(1)), Some(&9u8));
}

#[test]
fn fixed_duration_as_a_strategy_asks_the_host() {
    let mut fixed = FixedDuration::new_with_duration(ms(10), 2u8);
    assert_eq!(fixed.tick_duration(ms(9), &5u8), None);
    assert_eq!(fixed.tick_duration(ms(1), &5u8), Some(DurationRequest::Host(&2u8)));
    assert_eq!(fixed.tick_duration(ms(1), &5u8), None);
}

#[test]
fn strategy_is_ticked_only_on_a_running_screen() {
    let mut fixed = FixedDuration::new_with_duration(ms(10), 2u8);
    for state in [IntroState::Idle, IntroState::Loading, IntroState::Failure] {
        assert_eq!(fixed.only_run_if(&state, ms(100), &5u8), None);
        assert_eq!(fixed.timer().elapsed(), ms(0));
        assert!(!fixed.timer().finished());
    }
    assert_eq!(fixed.only_run_if(&IntroState::Running, ms(4), &5u8), None);
    assert_eq!(fixed.timer().elapsed(), ms(4));
    assert_eq!(
        fixed.only_run_if(&IntroState::Running, ms(6), &5u8),
        Some(DurationRequest::Host(&2u8))
    );
}

#[test]
fn dynamic_duration_starts_running_with_a_failing_fallback() {
    assert_eq!(DynamicDurationState::default(), DynamicDurationState::Running);
    let dynamic = GenericDynamicDuration::new(TimeSpan::from_secs(30));
    assert_eq!(dynamic.state(), DynamicDurationState::Running);
    assert_eq!(*dynamic.as_ref().next_state(), DynamicDurationState::Failure);
    assert_eq!(dynamic.as_ref().timer().duration(), TimeSpan::from_secs(30));
}

#[test]
fn dynamic_duration_completed_before_timeout_succeeds() {
    let mut dynamic = GenericDynamicDuration::new(TimeSpan::from_secs(30));
    assert_eq!(dynamic.tick_duration(TimeSpan::from_secs(29), &'m'), None);
    dynamic.set_state(DynamicDurationState::Completed);
    assert_eq!(dynamic.tick_duration(ms(1), &'m'), Some(DurationRequest::Host(&'m')));
    assert_eq!(dynamic.state(), DynamicDurationState::Completed);
}

#[test]
fn dynamic_duration_completion_wins_over_a_timeout_on_the_same_tick() {
    let mut dynamic = GenericDynamicDuration::new(TimeSpan::from_secs(30));
    assert_eq!(dynamic.tick_duration(TimeSpan::from_secs(29), &'m'), None);
    dynamic.set_state(DynamicDurationState::Completed);
    assert_eq!(
        dynamic.tick_duration(TimeSpan::from_secs(5), &'m'),
        Some(DurationRequest::Host(&'m'))
    );
    assert!(!dynamic.as_ref().timer().finished());
    assert_eq!(dynamic.as_ref().timer().elapsed(), TimeSpan::from_secs(29));
}

#[test]
fn dynamic_duration_times_out_when_nothing_is_reported() {
    let mut dynamic = GenericDynamicDuration::new(TimeSpan::from_secs(30));
    for _ in 0..29 {
        assert_eq!(dynamic.tick_duration(TimeSpan::from_secs(1), &'m'), None);
    }
    assert_eq!(dynamic.tick_duration(ms(999), &'m'), None);
    assert_eq!(dynamic.state(), DynamicDurationState::Running);
    assert_eq!(
        dynamic.tick_duration(ms(1), &'m'),
        Some(DurationRequest::<char>::Intro(IntroState::Failure))
    );
    assert_eq!(dynamic.state(), DynamicDurationState::Failure);
    assert_eq!(
        dynamic.tick_duration(ms(1), &'m'),
        Some(DurationRequest::<char>::Intro(IntroState::Failure))
    );
}

#[test]
fn dynamic_duration_reported_failure_fails() {
    let mut dynamic = GenericDynamicDuration::new(TimeSpan::from_secs(60));
    assert_eq!(dynamic.tick_duration(TimeSpan::from_secs(10), &'m'), None);
    dynamic.set_state(DynamicDurationState::Failure);
    assert_eq!(
        dynamic.tick_duration(ms(0), &'m'),
        Some(DurationRequest::<char>::Intro(IntroState::Failure))
    );
    assert_eq!(dynamic.as_ref().timer().elapsed(), TimeSpan::from_secs(10));
}

#[test]
fn intro_state_predicates() {
    assert_eq!(IntroState::default(), IntroState::Idle);
    assert!(IntroState::Running.is_running());
    assert!(!IntroState::Loading.is_running());
    assert!(IntroState::Loading.is_loading());
    assert!(!IntroState::Idle.is_loading());
    assert!(IntroState::Failure.is_failure());
    assert!(!IntroState::Running.is_failure());
    assert!(is_running(&IntroState::Running));
    assert!(!is_running(&IntroState::Idle));
    assert!(is_loading(&IntroState::Loading));
    assert!(!is_loading(&IntroState::Failure));
    assert!(is_failure(&IntroState::Failure));
    assert!(!is_failure(&IntroState::Idle));
    assert!(started_running(true, &IntroState::Running));
    assert!(!started_running(false, &IntroState::Running));
    assert!(!started_running(true, &IntroState::Loading));
}

#[test]
fn intro_states_are_ordered_as_they_are_passed_through() {
    assert!(IntroState::Idle < IntroState::Loading);
    assert!(IntroState::Loading < IntroState::Running);
    assert!(IntroState::Running < IntroState::Failure);
}
