use catime::{AppCommand, AppEvent, TimerEngine, TimerMode, TimerStatus};

#[test]
fn format_duration_under_one_hour() {
    assert_eq!(TimerEngine::format_duration(0), "00:00");
    assert_eq!(TimerEngine::format_duration(5), "00:05");
    assert_eq!(TimerEngine::format_duration(60), "01:00");
    assert_eq!(TimerEngine::format_duration(1500), "25:00");
    assert_eq!(TimerEngine::format_duration(3599), "59:59");
}

#[test]
fn format_duration_over_one_hour() {
    assert_eq!(TimerEngine::format_duration(3600), "01:00:00");
    assert_eq!(TimerEngine::format_duration(3661), "01:01:01");
    assert_eq!(TimerEngine::format_duration(45296), "12:34:56");
}

#[test]
fn new_stopwatch_starts_idle_at_zero() {
    let engine = TimerEngine::new(TimerMode::Stopwatch, 0);
    assert_eq!(engine.mode, TimerMode::Stopwatch);
    assert_eq!(engine.status, TimerStatus::Idle);
    assert_eq!(engine.elapsed_secs, 0);
    assert_eq!(engine.display_time(), "00:00");
}

#[test]
fn new_countdown_starts_idle_at_duration() {
    let engine = TimerEngine::new(TimerMode::Countdown, 1500);
    assert_eq!(engine.mode, TimerMode::Countdown);
    assert_eq!(engine.status, TimerStatus::Idle);
    assert_eq!(engine.remaining_secs, 1500);
    assert_eq!(engine.display_time(), "25:00");
}

#[test]
fn countdown_full_cycle() {
    let mut engine = TimerEngine::new(TimerMode::Countdown, 3);

    let events = engine.handle(AppCommand::Start);
    assert_eq!(engine.status, TimerStatus::Running);
    assert_eq!(events, vec![AppEvent::TimerUpdated]);

    let events = engine.handle(AppCommand::Tick);
    assert_eq!(engine.remaining_secs, 2);
    assert_eq!(events, vec![AppEvent::TimerUpdated]);

    let events = engine.handle(AppCommand::Tick);
    assert_eq!(engine.remaining_secs, 1);
    assert_eq!(events, vec![AppEvent::TimerUpdated]);

    let events = engine.handle(AppCommand::Tick);
    assert_eq!(engine.remaining_secs, 0);
    assert_eq!(engine.status, TimerStatus::Finished);
    assert_eq!(events, vec![AppEvent::TimerFinished]);
}

#[test]
fn stopwatch_full_cycle() {
    let mut engine = TimerEngine::new(TimerMode::Stopwatch, 0);

    engine.handle(AppCommand::Start);
    assert_eq!(engine.status, TimerStatus::Running);

    engine.handle(AppCommand::Tick);
    assert_eq!(engine.elapsed_secs, 1);
    assert_eq!(engine.display_time(), "00:01");

    engine.handle(AppCommand::Tick);
    engine.handle(AppCommand::Tick);
    assert_eq!(engine.elapsed_secs, 3);
}

#[test]
fn pause_and_resume() {
    let mut engine = TimerEngine::new(TimerMode::Countdown, 10);
    engine.handle(AppCommand::Start);
    engine.handle(AppCommand::Tick);
    engine.handle(AppCommand::Tick);
    assert_eq!(engine.remaining_secs, 8);

    engine.handle(AppCommand::Pause);
    assert_eq!(engine.status, TimerStatus::Paused);

    engine.handle(AppCommand::Tick);
    assert_eq!(engine.remaining_secs, 8);

    engine.handle(AppCommand::Resume);
    assert_eq!(engine.status, TimerStatus::Running);

    engine.handle(AppCommand::Tick);
    assert_eq!(engine.remaining_secs, 7);
}

#[test]
fn start_from_paused_is_resume() {
    let mut engine = TimerEngine::new(TimerMode::Countdown, 10);
    engine.handle(AppCommand::Start);
    engine.handle(AppCommand::Tick);
    engine.handle(AppCommand::Pause);
    engine.handle(AppCommand::Start);
    assert_eq!(engine.status, TimerStatus::Running);
}

#[test]
fn double_start_is_noop() {
    let mut engine = TimerEngine::new(TimerMode::Countdown, 10);
    engine.handle(AppCommand::Start);
    engine.handle(AppCommand::Tick);
    let events = engine.handle(AppCommand::Start);
    assert!(events.is_empty());
    assert_eq!(engine.status, TimerStatus::Running);
}

#[test]
fn pause_when_not_running_is_noop() {
    let mut engine = TimerEngine::new(TimerMode::Countdown, 10);
    let events = engine.handle(AppCommand::Pause);
    assert!(events.is_empty());
}

#[test]
fn tick_when_not_running_is_noop() {
    let mut engine = TimerEngine::new(TimerMode::Countdown, 10);
    let events = engine.handle(AppCommand::Tick);
    assert!(events.is_empty());
}

#[test]
fn reset_from_running() {
    let mut engine = TimerEngine::new(TimerMode::Countdown, 10);
    engine.handle(AppCommand::Start);
    engine.handle(AppCommand::Tick);
    engine.handle(AppCommand::Tick);
    engine.handle(AppCommand::Reset);

    assert_eq!(engine.status, TimerStatus::Idle);
    assert_eq!(engine.remaining_secs, 10);
    assert_eq!(engine.display_time(), "00:10");
}

#[test]
fn reset_from_finished() {
    let mut engine = TimerEngine::new(TimerMode::Countdown, 2);
    engine.handle(AppCommand::Start);
    engine.handle(AppCommand::Tick);
    engine.handle(AppCommand::Tick);
    assert_eq!(engine.status, TimerStatus::Finished);

    engine.handle(AppCommand::Reset);
    assert_eq!(engine.status, TimerStatus::Idle);
    assert_eq!(engine.remaining_secs, 2);
}

#[test]
fn switch_mode_resets() {
    let mut engine = TimerEngine::new(TimerMode::Countdown, 10);
    engine.handle(AppCommand::Start);
    engine.handle(AppCommand::Tick);
    engine.handle(AppCommand::SwitchMode(TimerMode::Stopwatch));

    assert_eq!(engine.mode, TimerMode::Stopwatch);
    assert_eq!(engine.status, TimerStatus::Idle);
    assert_eq!(engine.elapsed_secs, 0);
}

#[test]
fn set_countdown_updates_duration() {
    let mut engine = TimerEngine::new(TimerMode::Countdown, 10);
    engine.handle(AppCommand::SetCountdown(60));

    assert_eq!(engine.countdown_duration_secs, 60);
    assert_eq!(engine.remaining_secs, 60);
    assert_eq!(engine.display_time(), "01:00");
}

#[test]
fn set_countdown_does_not_affect_running_timer() {
    let mut engine = TimerEngine::new(TimerMode::Countdown, 10);
    engine.handle(AppCommand::Start);
    engine.handle(AppCommand::Tick);
    engine.handle(AppCommand::Tick);
    engine.handle(AppCommand::SetCountdown(60));

    assert_eq!(engine.countdown_duration_secs, 60);
    assert_eq!(engine.remaining_secs, 8);
    assert_eq!(engine.status, TimerStatus::Running);
}

#[test]
fn stopwatch_never_finishes() {
    let mut engine = TimerEngine::new(TimerMode::Stopwatch, 0);
    engine.handle(AppCommand::Start);
    for _ in 0..100 {
        engine.handle(AppCommand::Tick);
    }
    assert_eq!(engine.status, TimerStatus::Running);
    assert_eq!(engine.elapsed_secs, 100);
}

#[test]
fn labels() {
    let countdown = TimerEngine::new(TimerMode::Countdown, 10);
    assert_eq!(countdown.mode_label(), "\u{5012}\u{8ba1}\u{65f6}");

    let stopwatch = TimerEngine::new(TimerMode::Stopwatch, 0);
    assert_eq!(stopwatch.mode_label(), "\u{6b63}\u{8ba1}\u{65f6}");
}

#[test]
fn status_labels_follow_status() {
    let mut engine = TimerEngine::new(TimerMode::Countdown, 2);
    assert_eq!(engine.status_label(), "\u{5c31}\u{7eea}");
    engine.handle(AppCommand::Start);
    assert_eq!(engine.status_label(), "\u{8fd0}\u{884c}\u{4e2d}");
    engine.handle(AppCommand::Pause);
    assert_eq!(engine.status_label(), "\u{6682}\u{505c}");
    engine.handle(AppCommand::Resume);
    engine.handle(AppCommand::Tick);
    engine.handle(AppCommand::Tick);
    assert_eq!(engine.status_label(), "\u{5df2}\u{7ed3}\u{675f}");
}

#[test]
fn format_duration_long_hours() {
    assert_eq!(TimerEngine::format_duration(360_000), "100:00:00");
    assert_eq!(TimerEngine::format_duration(u64::MAX), "5124095576030431:00:15");
    assert_eq!(TimerEngine::format_duration(36_000 + 59), "10:00:59");
}

#[test]
fn reset_restores_new_engine_state() {
    let fresh = TimerEngine::new(TimerMode::Stopwatch, 30);
    let mut engine = TimerEngine::new(TimerMode::Stopwatch, 30);
    engine.handle(AppCommand::Start);
    engine.handle(AppCommand::Tick);
    engine.handle(AppCommand::Pause);
    let events = engine.handle(AppCommand::Reset);
    assert_eq!(events, vec![AppEvent::TimerUpdated]);
    assert_eq!(engine.mode, fresh.mode);
    assert_eq!(engine.status, fresh.status);
    assert_eq!(engine.elapsed_secs, fresh.elapsed_secs);
    assert_eq!(engine.remaining_secs, fresh.remaining_secs);
    assert_eq!(engine.countdown_duration_secs, fresh.countdown_duration_secs);
}

#[test]
fn pause_then_resume_keeps_counter() {
    let mut engine = TimerEngine::new(TimerMode::Stopwatch, 0);
    engine.handle(AppCommand::Start);
    engine.handle(AppCommand::Tick);
    assert_eq!(engine.handle(AppCommand::Pause), vec![AppEvent::TimerUpdated]);
    assert_eq!(engine.handle(AppCommand::Resume), vec![AppEvent::TimerUpdated]);
    assert_eq!(engine.status, TimerStatus::Running);
    assert_eq!(engine.elapsed_secs, 1);
}

#[test]
fn finished_countdown_ignores_ticks_and_restarts_full() {
    let mut engine = TimerEngine::new(TimerMode::Countdown, 1);
    engine.handle(AppCommand::Start);
    assert_eq!(engine.handle(AppCommand::Tick), vec![AppEvent::TimerFinished]);
    assert!(engine.handle(AppCommand::Tick).is_empty());
    assert_eq!(engine.status, TimerStatus::Finished);
    engine.handle(AppCommand::Start);
    assert_eq!(engine.status, TimerStatus::Running);
    assert_eq!(engine.remaining_secs, 1);
}

#[test]
fn zero_countdown_runs_without_moving() {
    let mut engine = TimerEngine::new(TimerMode::Countdown, 0);
    assert_eq!(engine.handle(AppCommand::Start), vec![AppEvent::TimerUpdated]);
    assert!(engine.handle(AppCommand::Tick).is_empty());
    assert_eq!(engine.status, TimerStatus::Running);
    assert_eq!(engine.remaining_secs, 0);
}

#[test]
fn non_timer_commands_are_ignored_by_engine() {
    let mut engine = TimerEngine::new(TimerMode::Countdown, 5);
    for cmd in [
        AppCommand::ToggleWindow,
        AppCommand::ShowWindow,
        AppCommand::HideWindow,
        AppCommand::TrayLeftClick,
        AppCommand::ReloadConfig,
        AppCommand::Quit,
    ] {
        assert!(engine.handle(cmd).is_empty());
    }
    assert_eq!(engine.status, TimerStatus::Idle);
    assert_eq!(engine.remaining_secs, 5);
}

#[test]
fn set_countdown_in_stopwatch_keeps_display() {
    let mut engine = TimerEngine::new(TimerMode::Stopwatch, 10);
    engine.handle(AppCommand::SetCountdown(90));
    assert_eq!(engine.countdown_duration_secs, 90);
    assert_eq!(engine.remaining_secs, 0);
    engine.handle(AppCommand::SwitchMode(TimerMode::Countdown));
    assert_eq!(engine.remaining_secs, 90);
    assert_eq!(engine.display_time(), "01:30");
}

#[test]
fn set_countdown_takes_effect_on_reset() {
    let mut engine = TimerEngine::new(TimerMode::Countdown, 10);
    engine.handle(AppCommand::Start);
    engine.handle(AppCommand::Tick);
    engine.handle(AppCommand::SetCountdown(45));
    assert_eq!(engine.remaining_secs, 9);
    engine.handle(AppCommand::Reset);
    assert_eq!(engine.status, TimerStatus::Idle);
    assert_eq!(engine.remaining_secs, 45);
    assert_eq!(engine.display_time(), "00:45");
}
