use vstd::prelude::*;

use crate::error::SettingsError;
use crate::settings::PomodoroSettings;
use crate::timer::{fits_i64, PomodoroState, Timer, TimerCommand, TimerView};

verus! {

/// The tick value that marks the end of a phase.
pub const END_OF_PHASE: i64 = -1;

/// Whether showing `time` as the time left keeps the work seconds spent
/// (see `displayed`) inside an `i64`.
pub open spec fn display_fits(v: TimerView, time: int) -> bool {
    v.current_state is Work ==> fits_i64(v.iteration * v.work_state.duration() - time)
}

/// Whether the coordinator can take a tick: the end-of-phase mark, or a
/// time left it can show.
pub open spec fn tick_accepted(v: TimerView, time: int) -> bool {
    time == END_OF_PHASE || display_fits(v, time)
}

/// The commands owed for a tick, in the order they are sent. At the end of
/// a phase: the next phase while work iterations remain; a stop once the
/// session has run its iterations, or after the last break; nothing at the
/// end of the last work phase.
pub open spec fn response_commands(v: TimerView, time: int) -> Seq<TimerCommand> {
    if time != END_OF_PHASE {
        seq![]
    } else if v.iteration < v.total_iterations {
        seq![TimerCommand::Stop, TimerCommand::NextIteration, TimerCommand::Start]
    } else if v.iteration > v.total_iterations {
        seq![TimerCommand::Stop]
    } else if v.current_state is Break {
        seq![TimerCommand::Stop]
    } else {
        seq![]
    }
}

/// The mirror after a tick other than the end-of-phase mark: the time left
/// shown, and in a work phase the work seconds spent so far in the session.
pub open spec fn displayed(v: TimerView, time: int) -> TimerView {
    if v.current_state is Work {
        TimerView {
            time_left: time,
            total_elapsed: v.iteration * v.work_state.duration() - time,
            ..v
        }
    } else {
        TimerView { time_left: time, ..v }
    }
}

/// Whether a setting carries exactly the value the timer is configured with.
pub open spec fn setting_unchanged(v: TimerView, setting: PomodoroSettings) -> bool {
    match setting {
        PomodoroSettings::WorkTime(Some(t)) => t as int == v.work_state.duration(),
        PomodoroSettings::BreakTime(Some(t)) => t as int == v.break_state.duration(),
        PomodoroSettings::Iterations(Some(n)) => n as int == v.total_iterations,
        _ => false,
    }
}

/// The session coordinator. It decides which commands the engine is sent
/// and applies each of them to `timer`, its mirror of the engine's state.
#[derive(Debug)]
pub struct Pomodoro {
    pub timer: Timer,
}

impl Pomodoro {
    pub open spec fn wf(&self) -> bool {
        self.timer@.wf()
    }

    /// A coordinator whose mirror starts as a copy of the engine's timer.
    pub fn new(timer: Timer) -> (r: Pomodoro)
        requires
            timer@.wf(),
        ensures
            r.timer@ == timer@,
            r.wf(),
    {
        Pomodoro { timer }
    }

    /// Starts a stopped timer and stops a running one; returns the command
    /// to send.
    pub fn cycle(&mut self) -> (r: TimerCommand)
        requires
            old(self).wf(),
        ensures
            r == (if old(self).timer@.running {
                TimerCommand::Stop
            } else {
                TimerCommand::Start
            }),
            final(self).timer@ == old(self).timer@.applied(r),
            final(self).timer@.running == !old(self).timer@.running,
            final(self).wf(),
    {
        let command = if self.timer.get_running() {
            TimerCommand::Stop
        } else {
            TimerCommand::Start
        };
        let _ = self.timer.apply_command(command);
        command
    }

    pub fn get_work_state(&self) -> (r: PomodoroState)
        ensures
            r == self.timer@.work_state,
    {
        self.timer.get_work_state()
    }

    /// Whether the coordinator can take a tick (see `tick_accepted`).
    pub fn accepts_tick(&self, time: i64) -> (r: bool)
        requires
            self.wf(),
        ensures
            r == tick_accepted(self.timer@, time as int),
    {
        if time == END_OF_PHASE {
            return true;
        }
        if let PomodoroState::Work(_) = self.timer.get_current_state() {
            let elapsed = Pomodoro::work_elapsed(
                self.timer.get_iteration(),
                Timer::get_duration(&self.timer.get_work_state()),
                time,
            );
            i64::MIN as i128 <= elapsed && elapsed <= i64::MAX as i128
        } else {
            true
        }
    }

    /// `iteration * work - time`, computed without overflow.
    fn work_elapsed(iteration: u8, work: i64, time: i64) -> (r: i128)
        ensures
            r as int == iteration as int * work as int - time as int,
    {
        assert(-0x100_0000_0000_0000_0000 <= iteration as int * work as int
            <= 0x100_0000_0000_0000_0000) by (nonlinear_arith)
            requires
                0 <= iteration <= 0x100,
                -0x8000_0000_0000_0000 <= work <= 0x8000_0000_0000_0000,
        ;
        iteration as i128 * work as i128 - time as i128
    }

    /// Shows a tick other than the end-of-phase mark (see `displayed`).
    pub fn set_time_left(&mut self, time: i64)
        requires
            old(self).wf(),
            display_fits(old(self).timer@, time as int),
        ensures
            final(self).timer@ == displayed(old(self).timer@, time as int),
            final(self).wf(),
    {
        self.timer.set_time_left(time);
        if let PomodoroState::Work(_) = self.timer.get_current_state() {
            let elapsed = Pomodoro::work_elapsed(
                self.timer.get_iteration(),
                Timer::get_duration(&self.timer.get_work_state()),
                time,
            );
            self.timer.set_elapsed_time(elapsed as i64);
        }
    }

    /// Whether a setting carries exactly the value in force.
    pub fn setting_unchanged(&self, setting: PomodoroSettings) -> (r: bool)
        ensures
            r == setting_unchanged(self.timer@, setting),
    {
        match setting {
            PomodoroSettings::WorkTime(Some(t)) => t == Timer::get_duration(
                &self.timer.get_work_state(),
            ),
            PomodoroSettings::BreakTime(Some(t)) => t == Timer::get_duration(
                &self.timer.get_break_state(),
            ),
            PomodoroSettings::Iterations(Some(n)) => n == self.timer.get_total_iterations(),
            _ => false,
        }
    }

    /// Whether a setting carries a value the timer can take.
    pub fn setting_takes(&self, setting: PomodoroSettings) -> (r: bool)
        ensures
            r == self.timer@.accepts(setting),
    {
        match setting {
            PomodoroSettings::WorkTime(Some(t)) => t.checked_mul(
                self.timer.get_total_iterations() as i64,
            ).is_some(),
            PomodoroSettings::BreakTime(Some(_)) => true,
            PomodoroSettings::Iterations(Some(n)) => Timer::get_duration(
                &self.timer.get_work_state(),
            ).checked_mul(n as i64).is_some(),
            _ => false,
        }
    }

    /// Changes one setting of a stopped timer; returns the command to send.
    /// Refused, with nothing changed, while the timer runs or for a value
    /// the timer cannot take.
    pub fn set_setting(&mut self, setting: PomodoroSettings) -> (r: Result<
        TimerCommand,
        SettingsError,
    >)
        requires
            old(self).wf(),
        ensures
            final(self).wf(),
            old(self).timer@.running ==> r is Err && r->Err_0 is UpdateError,
            !old(self).timer@.command_accepted(TimerCommand::Customize(setting))
                ==> final(self).timer@ == old(self).timer@ && r is Err,
            !old(self).timer@.running && !old(self).timer@.command_accepted(
                TimerCommand::Customize(setting),
            ) ==> r->Err_0 is InvalidValue,
            old(self).timer@.command_accepted(TimerCommand::Customize(setting)) ==> r == Ok::<
                TimerCommand,
                SettingsError,
            >(TimerCommand::Customize(setting)) && final(self).timer@ == old(
                self,
            ).timer@.customized(setting),
    {
        match self.timer.set_setting(setting) {
            Ok(()) => Ok(TimerCommand::Customize(setting)),
            Err(e) => Err(e),
        }
    }

    /// Asks for a setting only where it differs from the configuration in
    /// force, so that confirming a value does not reset the session.
    pub fn apply_setting(&mut self, setting: PomodoroSettings) -> (r: Result<
        Option<TimerCommand>,
        SettingsError,
    >)
        requires
            old(self).wf(),
        ensures
            final(self).wf(),
            setting_unchanged(old(self).timer@, setting) ==> r == Ok::<
                Option<TimerCommand>,
                SettingsError,
            >(None) && final(self).timer@ == old(self).timer@,
            !setting_unchanged(old(self).timer@, setting) ==> {
                &&& old(self).timer@.running ==> r is Err && r->Err_0 is UpdateError
                &&& !old(self).timer@.command_accepted(TimerCommand::Customize(setting))
                    ==> final(self).timer@ == old(self).timer@ && r is Err
                &&& !old(self).timer@.running && !old(self).timer@.command_accepted(
                    TimerCommand::Customize(setting),
                ) ==> r->Err_0 is InvalidValue
                &&& old(self).timer@.command_accepted(TimerCommand::Customize(setting)) ==> r
                    == Ok::<Option<TimerCommand>, SettingsError>(
                    Some(TimerCommand::Customize(setting)),
                ) && final(self).timer@ == old(self).timer@.customized(setting)
            },
    {
        if self.setting_unchanged(setting) {
            return Ok(None);
        }
        match self.set_setting(setting) {
            Ok(command) => Ok(Some(command)),
            Err(e) => Err(e),
        }
    }

    /// Handles a tick from the engine and returns the commands to send, in
    /// order (see `response_commands`); the mirror takes the same commands,
    /// or shows the tick.
    pub fn handle_timer_responses(&mut self, time: i64) -> (r: Vec<TimerCommand>)
        requires
            old(self).wf(),
            tick_accepted(old(self).timer@, time as int),
        ensures
            r@ == response_commands(old(self).timer@, time as int),
            time == END_OF_PHASE ==> final(self).timer@ == old(self).timer@.applied_all(r@),
            time != END_OF_PHASE ==> final(self).timer@ == displayed(old(self).timer@, time as int),
            final(self).wf(),
    {
        let mut commands: Vec<TimerCommand> = Vec::new();
        if time != END_OF_PHASE {
            self.set_time_left(time);
            assert(commands@ =~= response_commands(old(self).timer@, time as int));
            return commands;
        }
        let iteration = self.timer.get_iteration();
        let total = self.timer.get_total_iterations();
        if iteration < total {
            commands.push(TimerCommand::Stop);
            commands.push(TimerCommand::NextIteration);
            commands.push(TimerCommand::Start);
        } else if iteration > total {
            commands.push(TimerCommand::Stop);
        } else if let PomodoroState::Break(_) = self.timer.get_current_state() {
            commands.push(TimerCommand::Stop);
        }
        let ghost start = self.timer@;
        let mut i: usize = 0;
        assert(commands@.skip(0) =~= commands@);
        while i < commands.len()
            invariant
                0 <= i <= commands@.len(),
                self.timer@.wf(),
                start.wf(),
                start.applied_all(commands@) == self.timer@.applied_all(commands@.skip(i as int)),
            decreases commands@.len() - i,
        {
            let _ = self.timer.apply_command(commands[i]);
            proof {
                assert(commands@.skip(i as int).drop_first() =~= commands@.skip(i + 1));
            }
            i = i + 1;
        }
        proof {
            assert(commands@.skip(i as int) =~= Seq::<TimerCommand>::empty());
            assert(commands@ =~= response_commands(old(self).timer@, time as int));
        }
        commands
    }
}

/// An end-of-phase mark advances the session at most once: the response
/// asks for the next phase exactly once while work iterations remain and
/// not at all otherwise. After an advance the new phase starts from its
/// full length, so the same mark cannot count twice (a phase of negative
/// length does not count down at all); after a stop the timer no longer
/// counts down.
pub proof fn lemma_end_of_phase_advances_once(v: TimerView)
    requires
        v.wf(),
    ensures
        ({
            let commands = response_commands(v, END_OF_PHASE as int);
            let w = v.applied_all(commands);
            &&& (exists|i: int| 0 <= i < commands.len() && commands[i] is NextIteration) <==> v.iteration
                < v.total_iterations
            &&& forall|i: int, j: int|
                0 <= i < commands.len() && 0 <= j < commands.len() && commands[i] is NextIteration
                    && commands[j] is NextIteration ==> i == j
            &&& w.iteration <= v.iteration + 1
            &&& v.iteration < v.total_iterations ==> {
                &&& w.running
                &&& w.current_state != v.current_state
                &&& w.time_left == w.current_state.duration()
                &&& !w.tick_due() ==> w.time_left < 0
            }
            &&& v.iteration > v.total_iterations ==> !w.running
            &&& v.iteration == v.total_iterations && v.current_state is Break ==> !w.running
            &&& v.iteration == v.total_iterations && v.current_state is Work ==> w == v
        }),
{
    let commands = response_commands(v, END_OF_PHASE as int);
    if v.iteration < v.total_iterations {
        let s1 = v.applied(TimerCommand::Stop);
        let s2 = s1.applied(TimerCommand::NextIteration);
        let s3 = s2.applied(TimerCommand::Start);
        assert(commands.drop_first() =~= seq![TimerCommand::NextIteration, TimerCommand::Start]);
        assert(commands.drop_first().drop_first() =~= seq![TimerCommand::Start]);
        assert(commands.drop_first().drop_first().drop_first() =~= Seq::<TimerCommand>::empty());
        let c1 = commands.drop_first();
        let c2 = c1.drop_first();
        assert(s3.applied_all(c2.drop_first()) == s3);
        assert(s2.applied_all(c2) == s3.applied_all(c2.drop_first()));
        assert(s1.applied_all(c1) == s2.applied_all(c2));
        assert(v.applied_all(commands) == s1.applied_all(c1));
        assert(commands[1] is NextIteration);
    } else if v.iteration > v.total_iterations || v.current_state is Break {
        assert(commands.drop_first() =~= Seq::<TimerCommand>::empty());
        let s1 = v.applied(TimerCommand::Stop);
        assert(s1.applied_all(commands.drop_first()) == s1);
        assert(v.applied_all(commands) == s1.applied_all(commands.drop_first()));
    } else {
        assert(commands.len() == 0);
    }
}

} // verus!
