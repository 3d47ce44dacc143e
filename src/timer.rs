use vstd::prelude::*;

use crate::error::SettingsError;
use crate::settings::{PomodoroSettings, TimerSettings};
use crate::{DEFAULT_BREAK, DEFAULT_ITERATIONS, DEFAULT_WORK};

verus! {

/// A phase of the session with its configured length in seconds.
#[derive(Debug, Clone, Copy, PartialEq, Eq, Structural)]
pub enum PomodoroState {
    Work(i64),
    Break(i64),
}

impl PomodoroState {
    /// The configured length of the phase.
    pub open spec fn duration(self) -> int {
        match self {
            PomodoroState::Work(d) => d as int,
            PomodoroState::Break(d) => d as int,
        }
    }

    /// The label shown for the phase.
    pub fn name(&self) -> (r: &'static str)
        ensures
            r@ == (if *self is Work { "Work"@ } else { "Break"@ }),
    {
        match self {
            PomodoroState::Work(_) => "Work",
            PomodoroState::Break(_) => "Break",
        }
    }
}

/// Whether a value can be held in an `i64`.
pub open spec fn fits_i64(x: int) -> bool {
    i64::MIN <= x <= i64::MAX
}

/// The abstract state of a `Timer`.
pub struct TimerView {
    pub running: bool,
    pub time_left: int,
    pub iteration: int,
    pub total_iterations: int,
    pub total_time: int,
    pub total_elapsed: int,
    pub work_state: PomodoroState,
    pub break_state: PomodoroState,
    pub current_state: PomodoroState,
    pub next_state: PomodoroState,
}

impl TimerView {
    /// The state a timer starts in, for a given configuration.
    pub open spec fn initial(work: int, brk: int, iterations: int) -> TimerView {
        TimerView {
            running: false,
            time_left: work,
            iteration: 1,
            total_iterations: iterations,
            total_time: work * iterations,
            total_elapsed: 0,
            work_state: PomodoroState::Work(work as i64),
            break_state: PomodoroState::Break(brk as i64),
            current_state: PomodoroState::Work(work as i64),
            next_state: PomodoroState::Break(brk as i64),
        }
    }

    /// The invariant of every timer: the two configured phases are a work and
    /// a break phase of valid length, the current and next phase are those
    /// two in some order, and `total_time` agrees with the configuration.
    pub open spec fn wf(self) -> bool {
        &&& self.work_state is Work
        &&& self.break_state is Break
        &&& {
            ||| self.current_state == self.work_state && self.next_state == self.break_state
            ||| self.current_state == self.break_state && self.next_state == self.work_state
        }
        &&& 1 <= self.iteration <= u8::MAX
        &&& 0 <= self.total_iterations <= u8::MAX
        &&& self.total_time == self.work_state.duration() * self.total_iterations
        &&& fits_i64(self.total_time)
        &&& i64::MIN <= self.time_left <= i64::MAX
        &&& i64::MIN <= self.total_elapsed <= i64::MAX
    }

    /// The phase swap: only a stopped timer changes phase, and the new
    /// phase starts from its full length.
    pub open spec fn swapped(self) -> TimerView {
        if self.running {
            self
        } else if self.current_state is Work {
            TimerView {
                current_state: self.break_state,
                next_state: self.work_state,
                time_left: self.break_state.duration(),
                ..self
            }
        } else {
            TimerView {
                current_state: self.work_state,
                next_state: self.break_state,
                time_left: self.work_state.duration(),
                ..self
            }
        }
    }

    /// The swap followed by counting a new work iteration when the swap led
    /// into a work phase; the count stops at `u8::MAX`.
    pub open spec fn advanced(self) -> TimerView {
        let s = self.swapped();
        if !self.running && s.current_state is Work && s.iteration < u8::MAX {
            TimerView { iteration: s.iteration + 1, ..s }
        } else {
            s
        }
    }

    /// A fresh, stopped session at the start of the first work phase.
    pub open spec fn restarted(self) -> TimerView {
        TimerView {
            running: false,
            time_left: self.work_state.duration(),
            iteration: 1,
            total_time: self.work_state.duration() * self.total_iterations,
            total_elapsed: 0,
            current_state: self.work_state,
            next_state: self.break_state,
            ..self
        }
    }

    /// The configuration changed by `setting`, then a restart.
    pub open spec fn customized(self, setting: PomodoroSettings) -> TimerView {
        let changed = match setting {
            PomodoroSettings::WorkTime(Some(t)) => TimerView {
                work_state: PomodoroState::Work(t),
                ..self
            },
            PomodoroSettings::BreakTime(Some(t)) => TimerView {
                break_state: PomodoroState::Break(t),
                ..self
            },
            PomodoroSettings::Iterations(Some(n)) => TimerView {
                total_iterations: n as int,
                ..self
            },
            _ => self,
        };
        changed.restarted()
    }

    /// Whether one elapsed second counts down.
    pub open spec fn tick_due(self) -> bool {
        self.running && self.time_left >= 0
    }

    /// One second counted down; work seconds add to `total_elapsed`, which
    /// stops at `i64::MAX`.
    pub open spec fn ticked(self) -> TimerView {
        TimerView {
            time_left: self.time_left - 1,
            total_elapsed: if self.current_state is Work && self.total_elapsed < i64::MAX {
                self.total_elapsed + 1
            } else {
                self.total_elapsed
            },
            ..self
        }
    }
}

/// A control message for the engine.
#[derive(Debug, Clone, Copy, PartialEq, Eq, Structural)]
pub enum TimerCommand {
    Start,
    NextIteration,
    Customize(PomodoroSettings),
    Stop,
}

/// What wakes the engine: a command, a second gone by, cancellation, or
/// the command channel closed by its last sender.
#[derive(Debug, Clone, Copy, PartialEq, Eq, Structural)]
pub enum EngineEvent {
    Command(TimerCommand),
    SecondElapsed,
    Cancelled,
    CommandsClosed,
}

/// What the engine does after an event: wait again, send a tick, report a
/// refused command, or leave its loop.
#[derive(Debug)]
pub enum EngineAction {
    Continue,
    Emit(i64),
    Reject(SettingsError),
    Exit,
}

impl TimerView {
    /// Whether a reconfiguration carries a value the timer can take: any
    /// value, provided that the total time (work duration times iteration
    /// count) it leads to fits in an `i64`.
    pub open spec fn accepts(self, setting: PomodoroSettings) -> bool {
        match setting {
            PomodoroSettings::WorkTime(Some(t)) => fits_i64(t * self.total_iterations),
            PomodoroSettings::BreakTime(Some(_)) => true,
            PomodoroSettings::Iterations(Some(n)) => fits_i64(self.work_state.duration() * n),
            _ => false,
        }
    }

    /// Whether a command is carried out; only a reconfiguration can be refused.
    pub open spec fn command_accepted(self, command: TimerCommand) -> bool {
        match command {
            TimerCommand::Customize(setting) => !self.running && self.accepts(setting),
            _ => true,
        }
    }

    /// The state after a command.
    pub open spec fn applied(self, command: TimerCommand) -> TimerView {
        match command {
            TimerCommand::Start => TimerView { running: true, ..self },
            TimerCommand::Stop => TimerView { running: false, ..self },
            TimerCommand::NextIteration => self.advanced(),
            TimerCommand::Customize(setting) => if self.command_accepted(command) {
                self.customized(setting)
            } else {
                self
            },
        }
    }

    /// The state after a sequence of commands, applied in order.
    pub open spec fn applied_all(self, commands: Seq<TimerCommand>) -> TimerView
        decreases commands.len(),
    {
        if commands.len() == 0 {
            self
        } else {
            self.applied(commands[0]).applied_all(commands.drop_first())
        }
    }

    /// The state after one round of the engine.
    pub open spec fn after(self, event: EngineEvent) -> TimerView {
        match event {
            EngineEvent::Command(c) => self.applied(c),
            EngineEvent::SecondElapsed => if self.tick_due() {
                self.ticked()
            } else {
                self
            },
            _ => self,
        }
    }
}

/// The countdown and its work/break state machine.
#[derive(Debug, Clone, Copy)]
pub struct Timer {
    running: bool,
    time_left: i64,
    iteration: u8,
    total_iterations: u8,
    total_time: i64,
    total_elapsed: i64,
    work_state: PomodoroState,
    break_state: PomodoroState,
    current_state: PomodoroState,
    next_state: PomodoroState,
}

impl View for Timer {
    type V = TimerView;

    closed spec fn view(&self) -> TimerView {
        TimerView {
            running: self.running,
            time_left: self.time_left as int,
            iteration: self.iteration as int,
            total_iterations: self.total_iterations as int,
            total_time: self.total_time as int,
            total_elapsed: self.total_elapsed as int,
            work_state: self.work_state,
            break_state: self.break_state,
            current_state: self.current_state,
            next_state: self.next_state,
        }
    }
}

impl Timer {
    /// The length of a phase.
    pub fn get_duration(pomodoro_state: &PomodoroState) -> (r: i64)
        ensures
            r as int == pomodoro_state.duration(),
    {
        match pomodoro_state {
            PomodoroState::Work(dur) => *dur,
            PomodoroState::Break(dur) => *dur,
        }
    }

    /// Recomputes `total_time` from the work duration and the iteration count.
    pub fn set_total_time(&mut self)
        requires
            old(self)@.wf(),
        ensures
            final(self)@ == (TimerView {
                total_time: old(self)@.work_state.duration() * old(self)@.total_iterations,
                ..old(self)@
            }),
            final(self)@.wf(),
    {
        let duration = Timer::get_duration(&self.work_state);
        self.total_time = duration * self.total_iterations as i64;
    }

    /// Exchanges the current and the next phase and resets the countdown to
    /// the new phase's length; does nothing while the timer runs.
    pub fn swap_states(&mut self)
        requires
            old(self)@.wf(),
        ensures
            final(self)@ == old(self)@.swapped(),
            final(self)@.wf(),
    {
        if !self.running {
            match self.current_state {
                PomodoroState::Work(_) => {
                    self.current_state = self.break_state;
                    self.next_state = self.work_state;
                },
                PomodoroState::Break(_) => {
                    self.current_state = self.work_state;
                    self.next_state = self.break_state;
                },
            }
            let duration = Timer::get_duration(&self.current_state);
            self.time_left = duration;
        }
    }

    /// Moves to the next phase, counting a new iteration when that phase is
    /// a work phase.
    pub fn next_iteration(&mut self)
        requires
            old(self)@.wf(),
        ensures
            final(self)@ == old(self)@.advanced(),
            final(self)@.wf(),
    {
        let was_running = self.running;
        self.swap_states();
        if !was_running && self.iteration < u8::MAX {
            if let PomodoroState::Work(_) = self.current_state {
                self.iteration = self.iteration + 1;
            }
        }
    }

    /// Stops the timer and starts the session over from the first work phase.
    pub fn restart(&mut self)
        requires
            old(self)@.wf(),
        ensures
            final(self)@ == old(self)@.restarted(),
            final(self)@.wf(),
    {
        self.running = false;
        if let PomodoroState::Break(_) = self.current_state {
            self.swap_states();
        }
        self.iteration = 1;
        self.time_left = Timer::get_duration(&self.work_state);
        self.total_elapsed = 0;
        self.set_total_time();
    }

    /// Changes one setting and restarts the session. Refused while the
    /// timer runs, and for a setting without a value or one whose total time
    /// would not fit in an `i64`; a refused change leaves the timer as it was.
    pub fn set_setting(&mut self, setting: PomodoroSettings) -> (r: Result<(), SettingsError>)
        requires
            old(self)@.wf(),
        ensures
            final(self)@.wf(),
            old(self)@.running ==> r is Err && r->Err_0 is UpdateError && final(self)@ == old(
                self,
            )@,
            !old(self)@.running && !old(self)@.accepts(setting) ==> r is Err && r->Err_0 is InvalidValue
                && final(self)@ == old(self)@,
            !old(self)@.running && old(self)@.accepts(setting) ==> r is Ok && final(self)@ == old(
                self,
            )@.customized(setting),
    {
        if self.running {
            return Err(SettingsError::UpdateError());
        }
        match setting {
            PomodoroSettings::WorkTime(Some(t)) => {
                if t.checked_mul(self.total_iterations as i64).is_none() {
                    return Err(SettingsError::InvalidValue);
                }
                self.work_state = PomodoroState::Work(t);
                if let PomodoroState::Work(_) = self.current_state {
                    self.current_state = self.work_state;
                } else {
                    self.next_state = self.work_state;
                }
            },
            PomodoroSettings::BreakTime(Some(t)) => {
                self.break_state = PomodoroState::Break(t);
                if let PomodoroState::Break(_) = self.current_state {
                    self.current_state = self.break_state;
                } else {
                    self.next_state = self.break_state;
                }
            },
            PomodoroSettings::Iterations(Some(n)) => {
                if Timer::get_duration(&self.work_state).checked_mul(n as i64).is_none() {
                    return Err(SettingsError::InvalidValue);
                }
                self.total_iterations = n;
            },
            _ => {
                return Err(SettingsError::InvalidValue);
            },
        }
        self.total_time = Timer::get_duration(&self.work_state) * self.total_iterations as i64;
        self.restart();
        Ok(())
    }

    /// Whether the next elapsed second counts down: the timer runs and the
    /// current phase has not yet run out.
    pub fn tick_due(&self) -> (r: bool)
        ensures
            r == self@.tick_due(),
    {
        self.running && self.time_left >= 0
    }

    /// Counts one second down and returns the new time left.
    pub fn tick(&mut self) -> (r: i64)
        requires
            old(self)@.wf(),
            old(self)@.tick_due(),
        ensures
            final(self)@ == old(self)@.ticked(),
            final(self)@.wf(),
            r as int == final(self)@.time_left,
    {
        self.time_left = self.time_left - 1;
        if let PomodoroState::Work(_) = self.current_state {
            if self.total_elapsed < i64::MAX {
                self.total_elapsed = self.total_elapsed + 1;
            }
        }
        self.time_left
    }

    pub fn get_timeleft(&self) -> (r: i64)
        ensures
            r as int == self@.time_left,
    {
        self.time_left
    }

    pub fn get_work_state(&self) -> (r: PomodoroState)
        ensures
            r == self@.work_state,
    {
        self.work_state
    }

    pub fn get_break_state(&self) -> (r: PomodoroState)
        ensures
            r == self@.break_state,
    {
        self.break_state
    }

    pub fn get_running(&self) -> (r: bool)
        ensures
            r == self@.running,
    {
        self.running
    }

    pub fn get_total_iterations(&self) -> (r: u8)
        ensures
            r as int == self@.total_iterations,
    {
        self.total_iterations
    }

    pub fn get_iteration(&self) -> (r: u8)
        ensures
            r as int == self@.iteration,
    {
        self.iteration
    }

    pub fn get_total_time(&self) -> (r: i64)
        ensures
            r as int == self@.total_time,
    {
        self.total_time
    }

    pub fn get_total_elapsed_time(&self) -> (r: i64)
        ensures
            r as int == self@.total_elapsed,
    {
        self.total_elapsed
    }

    pub fn get_current_state(&self) -> (r: PomodoroState)
        ensures
            r == self@.current_state,
    {
        self.current_state
    }

    pub fn set_running(&mut self, state: bool)
        requires
            old(self)@.wf(),
        ensures
            final(self)@ == (TimerView { running: state, ..old(self)@ }),
            final(self)@.wf(),
    {
        self.running = state;
    }

    pub fn set_elapsed_time(&mut self, elapsed: i64)
        requires
            old(self)@.wf(),
        ensures
            final(self)@ == (TimerView { total_elapsed: elapsed as int, ..old(self)@ }),
            final(self)@.wf(),
    {
        self.total_elapsed = elapsed;
    }

    pub fn set_time_left(&mut self, time: i64)
        requires
            old(self)@.wf(),
        ensures
            final(self)@ == (TimerView { time_left: time as int, ..old(self)@ }),
            final(self)@.wf(),
    {
        self.time_left = time;
    }

    /// A stopped timer at the start of the first work phase of the given
    /// configuration; refused where the total time (work duration times
    /// iteration count) does not fit in an `i64`.
    pub fn new(settings: &TimerSettings) -> (r: Result<Timer, SettingsError>)
        ensures
            fits_i64(settings.work_time * settings.iterations) ==> r is Ok && r->Ok_0@
                == TimerView::initial(
                settings.work_time as int,
                settings.break_time as int,
                settings.iterations as int,
            ) && r->Ok_0@.wf(),
            !fits_i64(settings.work_time * settings.iterations) ==> r is Err && r->Err_0 is InvalidValue,
    {
        let work = settings.work_time;
        let brk = settings.break_time;
        let total_time = match work.checked_mul(settings.iterations as i64) {
            Some(t) => t,
            None => {
                return Err(SettingsError::InvalidValue);
            },
        };
        let work_state = PomodoroState::Work(work);
        let break_state = PomodoroState::Break(brk);
        Ok(
            Timer {
                running: false,
                time_left: work,
                iteration: 1,
                total_iterations: settings.iterations,
                total_time,
                total_elapsed: 0,
                work_state,
                break_state,
                current_state: work_state,
                next_state: break_state,
            },
        )
    }

    /// Applies one control command. `Customize` is refused, with the timer
    /// left as it was, in the cases `set_setting` refuses it.
    pub fn apply_command(&mut self, command: TimerCommand) -> (r: Result<(), SettingsError>)
        requires
            old(self)@.wf(),
        ensures
            final(self)@ == old(self)@.applied(command),
            final(self)@.wf(),
            r is Ok <==> old(self)@.command_accepted(command),
            command is Customize && old(self)@.running ==> r is Err && r->Err_0 is UpdateError,
            command is Customize && !old(self)@.running && !old(self)@.command_accepted(command)
                ==> r is Err && r->Err_0 is InvalidValue,
    {
        match command {
            TimerCommand::Start => {
                self.running = true;
                Ok(())
            },
            TimerCommand::Stop => {
                self.running = false;
                Ok(())
            },
            TimerCommand::NextIteration => {
                self.next_iteration();
                Ok(())
            },
            TimerCommand::Customize(setting) => self.set_setting(setting),
        }
    }

    /// One round of the engine: the state change and the action owed for
    /// the event that woke it.
    pub fn step(&mut self, event: EngineEvent) -> (r: EngineAction)
        requires
            old(self)@.wf(),
        ensures
            final(self)@.wf(),
            final(self)@ == old(self)@.after(event),
            match event {
                EngineEvent::Command(c) => if old(self)@.command_accepted(c) {
                    r is Continue
                } else {
                    r is Reject && (if old(self)@.running {
                        r->Reject_0 is UpdateError
                    } else {
                        r->Reject_0 is InvalidValue
                    })
                },
                EngineEvent::SecondElapsed => if old(self)@.tick_due() {
                    r == EngineAction::Emit(final(self)@.time_left as i64)
                } else {
                    r is Continue
                },
                EngineEvent::Cancelled => r is Exit,
                EngineEvent::CommandsClosed => r is Exit,
            },
    {
        match event {
            EngineEvent::Command(command) => match self.apply_command(command) {
                Ok(()) => EngineAction::Continue,
                Err(e) => EngineAction::Reject(e),
            },
            EngineEvent::SecondElapsed => {
                if self.tick_due() {
                    let t = self.tick();
                    EngineAction::Emit(t)
                } else {
                    EngineAction::Continue
                }
            },
            EngineEvent::Cancelled => EngineAction::Exit,
            EngineEvent::CommandsClosed => EngineAction::Exit,
        }
    }
}

impl Default for Timer {
    /// A timer with the default configuration.
    fn default() -> (r: Timer)
        ensures
            r@ == TimerView::initial(DEFAULT_WORK as int, DEFAULT_BREAK as int, DEFAULT_ITERATIONS as int),
            r@.wf(),
    {
        let work_state = PomodoroState::Work(DEFAULT_WORK);
        let break_state = PomodoroState::Break(DEFAULT_BREAK);
        let total_iterations = DEFAULT_ITERATIONS;
        let duration = Timer::get_duration(&work_state);
        let total_time: i64 = DEFAULT_WORK * DEFAULT_ITERATIONS as i64;
        Timer {
            running: false,
            total_iterations,
            current_state: work_state,
            time_left: duration,
            next_state: break_state,
            iteration: 1,
            total_time,
            total_elapsed: 0,
            work_state,
            break_state,
        }
    }
}

/// Applying a sequence and then one more command is applying the longer sequence.
pub proof fn lemma_applied_all_push(v: TimerView, commands: Seq<TimerCommand>, c: TimerCommand)
    ensures
        v.applied_all(commands.push(c)) == v.applied_all(commands).applied(c),
    decreases commands.len(),
{
    if commands.len() == 0 {
        assert(commands.push(c).drop_first() =~= Seq::<TimerCommand>::empty());
        assert(v.applied(c).applied_all(Seq::<TimerCommand>::empty()) == v.applied(c));
    } else {
        assert(commands.push(c).drop_first() =~= commands.drop_first().push(c));
        assert(commands.push(c)[0] == commands[0]);
        lemma_applied_all_push(v.applied(commands[0]), commands.drop_first(), c);
    }
}

/// Start and stop set the running flag and nothing else: after any non-empty
/// sequence of them the timer runs exactly when the last one was `Start`.
pub proof fn lemma_running_follows_last_command(v: TimerView, commands: Seq<TimerCommand>)
    requires
        commands.len() > 0,
        forall|i: int| 0 <= i < commands.len() ==> (commands[i] is Start || commands[i] is Stop),
    ensures
        v.applied_all(commands) == (TimerView { running: commands.last() is Start, ..v }),
    decreases commands.len(),
{
    let w = v.applied(commands[0]);
    assert(w == TimerView { running: commands[0] is Start, ..v });
    assert(v.applied_all(commands) == w.applied_all(commands.drop_first()));
    if commands.len() == 1 {
        assert(commands.drop_first().len() == 0);
        assert(w.applied_all(commands.drop_first()) == w);
    } else {
        let rest = commands.drop_first();
        assert forall|i: int| 0 <= i < rest.len() implies (rest[i] is Start || rest[i] is Stop) by {
            assert(rest[i] == commands[i + 1]);
        }
        lemma_running_follows_last_command(w, rest);
        assert(rest.last() == commands.last());
    }
}

/// Starting a running timer and stopping a stopped one change nothing.
pub proof fn lemma_start_stop_idempotent(v: TimerView)
    ensures
        v.running ==> v.applied(TimerCommand::Start) == v,
        !v.running ==> v.applied(TimerCommand::Stop) == v,
{
}

/// While the timer runs, its phase never changes: a swap is a no-op, and
/// no event of the engine moves it to another phase.
pub proof fn lemma_no_swap_while_running(v: TimerView, event: EngineEvent)
    requires
        v.running,
    ensures
        v.swapped() == v,
        v.advanced() == v,
        v.after(event).current_state == v.current_state,
        v.after(event).next_state == v.next_state,
{
}

/// Outside reconfiguration, the iteration count grows by one exactly when
/// the timer enters a work phase from a break, and is otherwise unchanged.
pub proof fn lemma_iteration_counts_work_entries(v: TimerView, event: EngineEvent)
    requires
        v.wf(),
        v.iteration < u8::MAX,
        !(event matches EngineEvent::Command(TimerCommand::Customize(_))),
    ensures
        v.after(event).iteration == v.iteration + (if v.current_state is Break && v.after(
            event,
        ).current_state is Work {
            1int
        } else {
            0int
        }),
{
}

/// The iteration count never decreases, except when an accepted
/// reconfiguration starts the session over at iteration 1.
pub proof fn lemma_iteration_never_decreases(v: TimerView, event: EngineEvent)
    requires
        v.wf(),
    ensures
        !(event matches EngineEvent::Command(TimerCommand::Customize(_))) ==> v.after(
            event,
        ).iteration >= v.iteration,
        event matches EngineEvent::Command(TimerCommand::Customize(s)) ==> v.after(event).iteration
            == if v.command_accepted(TimerCommand::Customize(s)) {
            1
        } else {
            v.iteration
        },
{
}

/// After a restart or an accepted reconfiguration, the total time is the
/// work duration times the number of iterations.
pub proof fn lemma_total_time_after_reset(v: TimerView, setting: PomodoroSettings)
    requires
        v.wf(),
    ensures
        v.restarted().total_time == v.restarted().work_state.duration()
            * v.restarted().total_iterations,
        v.command_accepted(TimerCommand::Customize(setting)) ==> ({
            let w = v.applied(TimerCommand::Customize(setting));
            &&& w.total_time == w.work_state.duration() * w.total_iterations
            &&& w.wf()
        }),
{
}

} // verus!
