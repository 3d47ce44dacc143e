use pomodoro::error::SettingsError;
use pomodoro::settings::{PomodoroSettings, TimerSettings};
use pomodoro::timer::{EngineAction, EngineEvent, PomodoroState, Timer, TimerCommand};
use pomodoro::{DEFAULT_BREAK, DEFAULT_ITERATIONS, DEFAULT_WORK};

fn timer(work: i64, brk: i64, iterations: u8) -> Timer {
    Timer::new(&TimerSettings { work_time: work, break_time: brk, iterations }).unwrap()
}

#[test]
fn default_timer_is_stopped_at_first_work_phase() {
    let t = Timer::default();
    assert!(!t.get_running());
    assert_eq!(t.get_current_state(), PomodoroState::Work(DEFAULT_WORK));
    assert_eq!(t.get_break_state(), PomodoroState::Break(DEFAULT_BREAK));
    assert_eq!(t.get_timeleft(), DEFAULT_WORK);
    assert_eq!(t.get_iteration(), 1);
    assert_eq!(t.get_total_iterations(), DEFAULT_ITERATIONS);
    assert_eq!(t.get_total_time(), 1800 * 4);
    assert_eq!(t.get_total_elapsed_time(), 0);
}

#[test]
fn new_refuses_only_an_overflowing_total_time() {
    let bad = TimerSettings { work_time: i64::MAX, break_time: 60, iterations: 2 };
    assert!(matches!(Timer::new(&bad), Err(SettingsError::InvalidValue)));
    let bad = TimerSettings { work_time: i64::MIN / 200, break_time: 60, iterations: 255 };
    assert!(matches!(Timer::new(&bad), Err(SettingsError::InvalidValue)));
    let edge = TimerSettings { work_time: i64::MAX / 255, break_time: i64::MIN, iterations: 255 };
    let t = Timer::new(&edge).unwrap();
    assert_eq!(t.get_total_time(), i64::MAX / 255 * 255);
    let negative = TimerSettings { work_time: -1, break_time: 2_000_000_000, iterations: 2 };
    let t = Timer::new(&negative).unwrap();
    assert_eq!(t.get_total_time(), -2);
    assert_eq!(t.get_break_state(), PomodoroState::Break(2_000_000_000));
}

#[test]
fn get_duration_reads_either_phase() {
    assert_eq!(Timer::get_duration(&PomodoroState::Work(25)), 25);
    assert_eq!(Timer::get_duration(&PomodoroState::Break(7)), 7);
    assert_eq!(PomodoroState::Work(1).name(), "Work");
    assert_eq!(PomodoroState::Break(1).name(), "Break");
}

#[test]
fn start_stop_sequence_leaves_last_command() {
    let mut t = timer(5, 2, 2);
    let seq = [
        TimerCommand::Start,
        TimerCommand::Start,
        TimerCommand::Stop,
        TimerCommand::Stop,
        TimerCommand::Start,
    ];
    for c in seq {
        t.apply_command(c).unwrap();
    }
    assert!(t.get_running());
    t.apply_command(TimerCommand::Stop).unwrap();
    let before = t;
    t.apply_command(TimerCommand::Stop).unwrap();
    assert!(!t.get_running());
    assert_eq!(t.get_timeleft(), before.get_timeleft());
    assert_eq!(t.get_current_state(), before.get_current_state());
}

#[test]
fn swap_is_ignored_while_running() {
    let mut t = timer(5, 2, 2);
    t.set_running(true);
    t.swap_states();
    assert_eq!(t.get_current_state(), PomodoroState::Work(5));
    t.next_iteration();
    assert_eq!(t.get_current_state(), PomodoroState::Work(5));
    assert_eq!(t.get_iteration(), 1);
    t.set_running(false);
    t.swap_states();
    assert_eq!(t.get_current_state(), PomodoroState::Break(2));
    assert_eq!(t.get_timeleft(), 2);
}

#[test]
fn iteration_counts_only_entries_into_work() {
    let mut t = timer(5, 2, 3);
    t.next_iteration();
    assert_eq!(t.get_current_state(), PomodoroState::Break(2));
    assert_eq!(t.get_iteration(), 1);
    t.next_iteration();
    assert_eq!(t.get_current_state(), PomodoroState::Work(5));
    assert_eq!(t.get_iteration(), 2);
    t.next_iteration();
    t.next_iteration();
    assert_eq!(t.get_iteration(), 3);
    t.restart();
    assert_eq!(t.get_iteration(), 1);
    assert_eq!(t.get_current_state(), PomodoroState::Work(5));
}

#[test]
fn total_time_follows_configuration() {
    let mut t = timer(5, 2, 2);
    assert_eq!(t.get_total_time(), 10);
    t.set_setting(PomodoroSettings::WorkTime(Some(1200))).unwrap();
    assert_eq!(t.get_total_time(), 2400);
    t.set_setting(PomodoroSettings::Iterations(Some(3))).unwrap();
    assert_eq!(t.get_total_time(), 3600);
    t.set_setting(PomodoroSettings::BreakTime(Some(90))).unwrap();
    assert_eq!(t.get_total_time(), 3600);
    assert_eq!(t.get_break_state(), PomodoroState::Break(90));
    t.set_total_time();
    assert_eq!(t.get_total_time(), 3600);
}

#[test]
fn set_setting_resets_the_session() {
    let mut t = timer(5, 2, 2);
    t.next_iteration();
    t.next_iteration();
    t.set_elapsed_time(7);
    assert_eq!(t.get_iteration(), 2);
    t.set_setting(PomodoroSettings::BreakTime(Some(3))).unwrap();
    assert_eq!(t.get_iteration(), 1);
    assert_eq!(t.get_total_elapsed_time(), 0);
    assert_eq!(t.get_current_state(), PomodoroState::Work(5));
    assert_eq!(t.get_timeleft(), 5);
    t.next_iteration();
    assert_eq!(t.get_current_state(), PomodoroState::Break(3));
    assert_eq!(t.get_timeleft(), 3);
}

#[test]
fn customize_while_running_is_rejected() {
    let mut t = timer(1500, 300, 4);
    t.apply_command(TimerCommand::Start).unwrap();
    let r = t.apply_command(TimerCommand::Customize(PomodoroSettings::WorkTime(Some(1200))));
    assert!(matches!(r, Err(SettingsError::UpdateError())));
    assert_eq!(t.get_work_state(), PomodoroState::Work(1500));
    assert_eq!(t.get_total_time(), 6000);
    assert!(t.get_running());
}

#[test]
fn customize_without_value_is_rejected() {
    let mut t = timer(5, 2, 2);
    assert!(matches!(
        t.set_setting(PomodoroSettings::Iterations(None)),
        Err(SettingsError::InvalidValue)
    ));
    assert!(matches!(
        t.set_setting(PomodoroSettings::WorkTime(None)),
        Err(SettingsError::InvalidValue)
    ));
    assert_eq!(t.get_work_state(), PomodoroState::Work(5));
    assert_eq!(t.get_total_iterations(), 2);
}

#[test]
fn stopped_timer_takes_any_value_that_fits() {
    let mut t = timer(5, 2, 2);
    t.set_setting(PomodoroSettings::WorkTime(Some(-1))).unwrap();
    assert_eq!(t.get_work_state(), PomodoroState::Work(-1));
    assert_eq!(t.get_current_state(), PomodoroState::Work(-1));
    assert_eq!(t.get_timeleft(), -1);
    assert_eq!(t.get_total_time(), -2);
    t.set_setting(PomodoroSettings::BreakTime(Some(2_000_000_000))).unwrap();
    assert_eq!(t.get_break_state(), PomodoroState::Break(2_000_000_000));
    t.next_iteration();
    assert_eq!(t.get_timeleft(), 2_000_000_000);
}

#[test]
fn customize_overflowing_total_time_is_rejected() {
    let mut t = timer(i64::MAX / 2, 2, 2);
    assert!(matches!(
        t.set_setting(PomodoroSettings::Iterations(Some(3))),
        Err(SettingsError::InvalidValue)
    ));
    assert_eq!(t.get_total_iterations(), 2);
    assert!(matches!(
        t.set_setting(PomodoroSettings::WorkTime(Some(i64::MAX))),
        Err(SettingsError::InvalidValue)
    ));
    assert_eq!(t.get_work_state(), PomodoroState::Work(i64::MAX / 2));
    t.set_setting(PomodoroSettings::Iterations(Some(1))).unwrap();
    t.set_setting(PomodoroSettings::WorkTime(Some(i64::MAX))).unwrap();
    assert_eq!(t.get_total_time(), i64::MAX);
}

#[test]
fn tick_counts_down_and_accrues_work_time() {
    let mut t = timer(2, 1, 1);
    assert!(!t.tick_due());
    t.set_running(true);
    assert!(t.tick_due());
    assert_eq!(t.tick(), 1);
    assert_eq!(t.tick(), 0);
    assert_eq!(t.tick(), -1);
    assert!(!t.tick_due());
    assert_eq!(t.get_total_elapsed_time(), 3);
    t.set_running(false);
    t.next_iteration();
    t.set_running(true);
    assert_eq!(t.tick(), 0);
    assert_eq!(t.get_total_elapsed_time(), 3);
}

#[test]
fn step_emits_ticks_only_when_due() {
    let mut t = timer(1, 1, 1);
    assert!(matches!(t.step(EngineEvent::SecondElapsed), EngineAction::Continue));
    assert_eq!(t.get_timeleft(), 1);
    assert!(matches!(t.step(EngineEvent::Command(TimerCommand::Start)), EngineAction::Continue));
    assert!(matches!(t.step(EngineEvent::SecondElapsed), EngineAction::Emit(0)));
    assert!(matches!(t.step(EngineEvent::SecondElapsed), EngineAction::Emit(-1)));
    assert!(matches!(t.step(EngineEvent::SecondElapsed), EngineAction::Continue));
    let r = t.step(EngineEvent::Command(TimerCommand::Customize(PomodoroSettings::Iterations(Some(3)))));
    assert!(matches!(r, EngineAction::Reject(SettingsError::UpdateError())));
}

#[test]
fn cancellation_mid_countdown_ends_the_loop_without_ticks() {
    let mut t = timer(5, 2, 2);
    t.step(EngineEvent::Command(TimerCommand::Start));
    assert!(matches!(t.step(EngineEvent::SecondElapsed), EngineAction::Emit(4)));
    assert!(matches!(t.step(EngineEvent::Cancelled), EngineAction::Exit));
    assert_eq!(t.get_timeleft(), 4);
    assert!(matches!(t.step(EngineEvent::CommandsClosed), EngineAction::Exit));
    assert_eq!(t.get_timeleft(), 4);
}

#[test]
fn errors_convert_into_the_top_level_error() {
    let e: pomodoro::error::Error = SettingsError::UpdateError().into();
    assert!(matches!(e, pomodoro::error::Error::SettingsError(SettingsError::UpdateError())));
    let io = std::io::Error::other("disk");
    let e: SettingsError = io.into();
    assert!(matches!(e, SettingsError::IO(_)));
    let e: pomodoro::error::Error = std::io::Error::other("disk").into();
    assert!(matches!(e, pomodoro::error::Error::IO(_)));
}
