use pomodoro::error::SettingsError;
use pomodoro::romodoro::{Pomodoro, END_OF_PHASE};
use pomodoro::settings::{PomodoroSettings, TimerSettings};
use pomodoro::timer::{EngineAction, EngineEvent, PomodoroState, Timer, TimerCommand};

fn timer(work: i64, brk: i64, iterations: u8) -> Timer {
    Timer::new(&TimerSettings { work_time: work, break_time: brk, iterations }).unwrap()
}

fn send(engine: &mut Timer, commands: &[TimerCommand]) {
    for c in commands {
        assert!(matches!(engine.step(EngineEvent::Command(*c)), EngineAction::Continue));
    }
}

/// Lets `n` seconds pass on the engine, hands each tick to the coordinator
/// and sends back what it answers; returns the ticks.
fn run_seconds(engine: &mut Timer, coord: &mut Pomodoro, n: usize) -> Vec<i64> {
    let mut ticks = Vec::new();
    for _ in 0..n {
        if let EngineAction::Emit(t) = engine.step(EngineEvent::SecondElapsed) {
            ticks.push(t);
            let commands = coord.handle_timer_responses(t);
            send(engine, &commands);
        }
    }
    ticks
}

#[test]
fn scenario_work_break_iterations() {
    let mut engine = timer(5, 2, 2);
    let mut coord = Pomodoro::new(engine);
    let c = coord.cycle();
    assert_eq!(c, TimerCommand::Start);
    send(&mut engine, &[c]);

    let ticks = run_seconds(&mut engine, &mut coord, 6);
    assert_eq!(ticks, vec![4, 3, 2, 1, 0, -1]);
    assert_eq!(engine.get_current_state(), PomodoroState::Break(2));
    assert_eq!(engine.get_timeleft(), 2);
    assert!(engine.get_running());
    assert_eq!(coord.timer.get_current_state(), PomodoroState::Break(2));
    assert_eq!(engine.get_iteration(), 1);

    let ticks = run_seconds(&mut engine, &mut coord, 3);
    assert_eq!(ticks, vec![1, 0, -1]);
    assert_eq!(engine.get_current_state(), PomodoroState::Work(5));
    assert_eq!(engine.get_iteration(), 2);
    assert!(engine.get_running());

    // The end of the last work phase asks for nothing: the engine stays
    // running at the end-of-phase mark and counts no further.
    let ticks = run_seconds(&mut engine, &mut coord, 8);
    assert_eq!(ticks, vec![4, 3, 2, 1, 0, -1]);
    assert_eq!(engine.get_current_state(), PomodoroState::Work(5));
    assert_eq!(engine.get_total_elapsed_time(), 12);

    // Once in the last break, its end-of-phase mark stops the session.
    send(&mut engine, &[TimerCommand::Stop, TimerCommand::NextIteration, TimerCommand::Start]);
    coord.timer = engine;
    let ticks = run_seconds(&mut engine, &mut coord, 5);
    assert_eq!(ticks, vec![1, 0, -1]);
    assert!(!engine.get_running());
    assert!(!coord.timer.get_running());
    assert_eq!(engine.get_current_state(), PomodoroState::Break(2));
}

#[test]
fn scenario_customize_while_running() {
    let mut engine = timer(1500, 300, 4);
    let mut coord = Pomodoro::new(engine);
    send(&mut engine, &[coord.cycle()]);
    let r = coord.set_setting(PomodoroSettings::WorkTime(Some(1200)));
    assert!(matches!(r, Err(SettingsError::UpdateError())));
    assert_eq!(coord.get_work_state(), PomodoroState::Work(1500));
    let r = engine.step(EngineEvent::Command(TimerCommand::Customize(PomodoroSettings::WorkTime(Some(1200)))));
    assert!(matches!(r, EngineAction::Reject(SettingsError::UpdateError())));
    assert_eq!(engine.get_work_state(), PomodoroState::Work(1500));
}

#[test]
fn end_of_phase_advances_once() {
    let mut coord = Pomodoro::new(timer(5, 2, 2));
    coord.cycle();
    let commands = coord.handle_timer_responses(END_OF_PHASE);
    assert_eq!(
        commands,
        vec![TimerCommand::Stop, TimerCommand::NextIteration, TimerCommand::Start]
    );
    assert_eq!(commands.iter().filter(|c| **c == TimerCommand::NextIteration).count(), 1);
    assert_eq!(coord.timer.get_current_state(), PomodoroState::Break(2));
    assert_eq!(coord.timer.get_timeleft(), 2);
    assert_eq!(coord.timer.get_iteration(), 1);
}

#[test]
fn end_of_phase_past_last_iteration_stops() {
    let mut coord = Pomodoro::new(timer(5, 2, 0));
    coord.cycle();
    assert_eq!(coord.handle_timer_responses(-1), vec![TimerCommand::Stop]);
    assert!(!coord.timer.get_running());
}

#[test]
fn end_of_last_work_phase_asks_nothing() {
    let mut coord = Pomodoro::new(timer(5, 2, 1));
    coord.cycle();
    assert!(coord.handle_timer_responses(-1).is_empty());
    assert!(coord.timer.get_running());
}

#[test]
fn ordinary_tick_updates_display() {
    let mut coord = Pomodoro::new(timer(10, 2, 3));
    coord.timer.next_iteration();
    coord.timer.next_iteration();
    assert_eq!(coord.timer.get_iteration(), 2);
    assert!(coord.handle_timer_responses(7).is_empty());
    assert_eq!(coord.timer.get_timeleft(), 7);
    assert_eq!(coord.timer.get_total_elapsed_time(), 13);
    coord.timer.next_iteration();
    coord.set_time_left(1);
    assert_eq!(coord.timer.get_timeleft(), 1);
    assert_eq!(coord.timer.get_total_elapsed_time(), 13);
}

#[test]
fn cycle_toggles() {
    let mut coord = Pomodoro::new(timer(5, 2, 2));
    assert_eq!(coord.cycle(), TimerCommand::Start);
    assert!(coord.timer.get_running());
    assert_eq!(coord.cycle(), TimerCommand::Stop);
    assert!(!coord.timer.get_running());
}

#[test]
fn apply_setting_skips_values_in_force() {
    let mut coord = Pomodoro::new(timer(5, 2, 2));
    coord.timer.next_iteration();
    let r = coord.apply_setting(PomodoroSettings::WorkTime(Some(5))).unwrap();
    assert_eq!(r, None);
    assert_eq!(coord.timer.get_current_state(), PomodoroState::Break(2));
    let r = coord.apply_setting(PomodoroSettings::WorkTime(Some(6))).unwrap();
    assert_eq!(r, Some(TimerCommand::Customize(PomodoroSettings::WorkTime(Some(6)))));
    assert_eq!(coord.timer.get_current_state(), PomodoroState::Work(6));
    let r = coord.apply_setting(PomodoroSettings::BreakTime(None));
    assert!(matches!(r, Err(SettingsError::InvalidValue)));
}

#[test]
fn large_ticks_are_shown_where_the_arithmetic_fits() {
    let mut coord = Pomodoro::new(timer(5, 2, 2));
    assert!(coord.accepts_tick(2_000_000_000));
    coord.set_time_left(2_000_000_000);
    assert_eq!(coord.timer.get_timeleft(), 2_000_000_000);
    assert_eq!(coord.timer.get_total_elapsed_time(), 5 - 2_000_000_000);
    assert!(coord.accepts_tick(END_OF_PHASE));
    assert!(!coord.accepts_tick(i64::MIN));
    let mut big = Pomodoro::new(timer(i64::MAX, 2, 1));
    assert!(big.accepts_tick(0));
    assert!(!big.accepts_tick(-2));
    big.timer.next_iteration();
    assert!(big.accepts_tick(i64::MIN));
}
