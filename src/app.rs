use vstd::prelude::*;

use crate::error::SettingsError;
use crate::romodoro::{
    displayed, response_commands, setting_unchanged, tick_accepted, Pomodoro, END_OF_PHASE,
};
use crate::settings::{PomodoroSettings, SettingsTab, TimerSettings};
use crate::timer::{lemma_applied_all_push, TimerCommand, TimerView};

verus! {

/// Index of the last tab (0 timer, 1 settings, 2 statistics).
pub const LAST_TAB: usize = 2;

/// A key press, as far as the program tells keys apart.
#[derive(Debug, Clone, Copy, PartialEq, Eq, Structural)]
pub enum Key {
    Char(char),
    Tab,
    Up,
    Down,
    Left,
    Right,
    Other,
}

/// The settings in the settings tab that differ from the configuration in
/// force, in the order they are sent: break time, work time, iterations.
pub open spec fn settings_changes(v: TimerView, t: TimerSettings) -> Seq<PomodoroSettings> {
    let b = PomodoroSettings::BreakTime(Some(t.break_time));
    let w = PomodoroSettings::WorkTime(Some(t.work_time));
    let i = PomodoroSettings::Iterations(Some(t.iterations));
    (if setting_unchanged(v, b) {
        seq![]
    } else {
        seq![b]
    }) + (if setting_unchanged(v, w) {
        seq![]
    } else {
        seq![w]
    }) + (if setting_unchanged(v, i) {
        seq![]
    } else {
        seq![i]
    })
}

/// Whether a list of changes can be applied one after the other: each is
/// accepted by the timer as the earlier ones left it.
pub open spec fn changes_accepted(v: TimerView, changes: Seq<PomodoroSettings>) -> bool
    decreases changes.len(),
{
    changes.len() == 0 || (v.command_accepted(TimerCommand::Customize(changes[0]))
        && changes_accepted(v.customized(changes[0]), changes.drop_first()))
}

/// The commands that carry a list of changes.
pub open spec fn customize_commands(changes: Seq<PomodoroSettings>) -> Seq<TimerCommand> {
    changes.map_values(|s: PomodoroSettings| TimerCommand::Customize(s))
}

/// The tab after the given one, from the last back to the first.
pub open spec fn next_tab(tab: int) -> int {
    if tab >= LAST_TAB {
        0
    } else {
        tab + 1
    }
}

/// The abstract state of an `App`.
pub struct AppView {
    pub exit: bool,
    pub selected_tab: int,
    pub settings: SettingsTab,
    pub timer: TimerView,
}

impl AppView {
    pub open spec fn wf(self) -> bool {
        0 <= self.selected_tab <= LAST_TAB && self.timer.wf()
    }

    /// The state after the keys that act in every tab: `Q` asks to quit,
    /// Tab moves to the next tab.
    pub open spec fn after_global_key(self, key: Key) -> AppView {
        if key == Key::Char('Q') {
            AppView { exit: true, ..self }
        } else if key == Key::Tab {
            AppView { selected_tab: next_tab(self.selected_tab), ..self }
        } else {
            self
        }
    }

    /// The settings tab after a key that edits it there.
    pub open spec fn settings_after_key(self, key: Key) -> SettingsTab {
        if key == Key::Down {
            self.settings.selected_down()
        } else if key == Key::Up {
            self.settings.selected_up()
        } else if key == Key::Right {
            self.settings.incremented()
        } else if key == Key::Left {
            self.settings.decremented()
        } else if key == Key::Char('r') {
            self.settings.defaults_restored()
        } else {
            self.settings
        }
    }
}

/// The program's state between events: the tab shown, the coordinator, the
/// settings being edited, and whether to quit.
#[derive(Debug)]
pub struct App {
    exit: bool,
    pomodoro: Pomodoro,
    selected_tab: usize,
    settings: SettingsTab,
}

impl View for App {
    type V = AppView;

    closed spec fn view(&self) -> AppView {
        AppView {
            exit: self.exit,
            selected_tab: self.selected_tab as int,
            settings: self.settings,
            timer: self.pomodoro.timer@,
        }
    }
}

impl App {
    pub fn new(pomodoro: Pomodoro, settings: SettingsTab) -> (r: App)
        requires
            pomodoro.wf(),
        ensures
            r@ == (AppView { exit: false, selected_tab: 0, settings, timer: pomodoro.timer@ }),
            r@.wf(),
    {
        App { pomodoro, exit: false, selected_tab: 0, settings }
    }

    /// Handles a key press and returns the commands to send to the engine,
    /// in order. Confirming the settings (space in the settings tab) fails
    /// as `update_settings` does, with nothing changed but the global keys.
    pub fn handle_key_event(&mut self, key: Key) -> (r: Result<Vec<TimerCommand>, SettingsError>)
        requires
            old(self)@.wf(),
        ensures
            final(self)@.wf(),
            ({
                let g = old(self)@.after_global_key(key);
                let changes = settings_changes(g.timer, g.settings.timer_settings);
                if g.selected_tab == 0 && key == Key::Char(' ') {
                    let c = if g.timer.running {
                        TimerCommand::Stop
                    } else {
                        TimerCommand::Start
                    };
                    &&& r is Ok && r->Ok_0@ == seq![c]
                    &&& final(self)@ == (AppView { timer: g.timer.applied(c), ..g })
                } else if g.selected_tab == 1 && key == Key::Char(' ') {
                    &&& changes_accepted(g.timer, changes) ==> r is Ok && r->Ok_0@
                        == customize_commands(changes) && final(self)@ == (AppView {
                        timer: g.timer.applied_all(customize_commands(changes)),
                        ..g
                    })
                    &&& !changes_accepted(g.timer, changes) ==> r is Err && final(self)@ == g
                    &&& changes.len() > 0 && g.timer.running ==> r is Err && r->Err_0 is UpdateError
                    &&& changes.len() > 0 && !g.timer.running && !changes_accepted(g.timer, changes)
                        ==> r is Err && r->Err_0 is InvalidValue
                } else if g.selected_tab == 1 {
                    &&& r is Ok && r->Ok_0@.len() == 0
                    &&& final(self)@ == (AppView { settings: g.settings_after_key(key), ..g })
                } else {
                    &&& r is Ok && r->Ok_0@.len() == 0
                    &&& final(self)@ == g
                }
            }),
    {
        match key {
            Key::Char('Q') => self.exit(),
            Key::Tab => self.change_tab(),
            _ => {},
        }
        let empty: Vec<TimerCommand> = Vec::new();
        if self.selected_tab == 0 {
            if key == Key::Char(' ') {
                let c = self.pomodoro.cycle();
                let mut commands: Vec<TimerCommand> = Vec::new();
                commands.push(c);
                assert(commands@ =~= seq![c]);
                return Ok(commands);
            }
        } else if self.selected_tab == 1 {
            match key {
                Key::Down => self.settings.select_down(),
                Key::Up => self.settings.select_up(),
                Key::Right => self.settings.increment(),
                Key::Left => self.settings.decrement(),
                Key::Char(' ') => {
                    return self.update_settings();
                },
                Key::Char('r') => self.settings.restore_defaults(),
                _ => {},
            }
        }
        Ok(empty)
    }

    /// Sends the settings of the settings tab that differ from those in
    /// force (see `settings_changes`) and returns their commands, in order.
    /// All or none: while the timer runs, or where a change would make the
    /// total time overflow, nothing is sent and the error says why.
    pub fn update_settings(&mut self) -> (r: Result<Vec<TimerCommand>, SettingsError>)
        requires
            old(self)@.wf(),
        ensures
            final(self)@.wf(),
            ({
                let v = old(self)@;
                let changes = settings_changes(v.timer, v.settings.timer_settings);
                &&& changes_accepted(v.timer, changes) ==> r is Ok && r->Ok_0@ == customize_commands(
                    changes,
                ) && final(self)@ == (AppView {
                    timer: v.timer.applied_all(customize_commands(changes)),
                    ..v
                })
                &&& !changes_accepted(v.timer, changes) ==> r is Err && final(self)@ == v
                &&& changes.len() > 0 && v.timer.running ==> r is Err && r->Err_0 is UpdateError
                &&& changes.len() > 0 && !v.timer.running && !changes_accepted(v.timer, changes)
                    ==> r is Err && r->Err_0 is InvalidValue
            }),
    {
        let t = self.settings.timer_settings;
        let candidates: [PomodoroSettings; 3] = [
            self.settings.get_pomodoro_setting(PomodoroSettings::BreakTime(None)),
            self.settings.get_pomodoro_setting(PomodoroSettings::WorkTime(None)),
            self.settings.get_pomodoro_setting(PomodoroSettings::Iterations(None)),
        ];
        let ghost v = self@;
        assert(v == old(self)@);
        let ghost expected = settings_changes(v.timer, t);
        let mut changes: Vec<PomodoroSettings> = Vec::new();
        let mut k: usize = 0;
        while k < 3
            invariant
                self@ == v,
                v.wf(),
                t == v.settings.timer_settings,
                k <= 3,
                candidates@ == seq![
                    PomodoroSettings::BreakTime(Some(t.break_time)),
                    PomodoroSettings::WorkTime(Some(t.work_time)),
                    PomodoroSettings::Iterations(Some(t.iterations)),
                ],
                changes@ == settings_changes_prefix(v.timer, candidates@, k as int),
            decreases 3 - k,
        {
            let s = candidates[k];
            if !self.pomodoro.setting_unchanged(s) {
                changes.push(s);
            }
            k = k + 1;
        }
        proof {
            lemma_settings_changes_prefix(v.timer, t, candidates@);
        }
        assert(changes@ == expected);
        if changes.len() == 0 {
            let none: Vec<TimerCommand> = Vec::new();
            assert(none@ =~= customize_commands(changes@));
            assert(v.timer.applied_all(none@) == v.timer);
            return Ok(none);
        }
        if self.pomodoro.timer.get_running() {
            return Err(SettingsError::UpdateError());
        }
        let mut trial = self.pomodoro.timer;
        let mut commands: Vec<TimerCommand> = Vec::new();
        let mut i: usize = 0;
        assert(changes@.skip(0) =~= changes@);
        assert(commands@ =~= customize_commands(changes@.take(0)));
        assert(v.timer.applied_all(commands@) == v.timer);
        while i < changes.len()
            invariant
                self@ == v,
                v.wf(),
                !v.timer.running,
                changes@ == expected,
                expected == settings_changes(v.timer, v.settings.timer_settings),
                i <= changes@.len(),
                trial@.wf(),
                !trial@.running,
                commands@ == customize_commands(changes@.take(i as int)),
                trial@ == v.timer.applied_all(commands@),
                changes_accepted(v.timer, changes@) == changes_accepted(
                    trial@,
                    changes@.skip(i as int),
                ),
            decreases changes@.len() - i,
        {
            let s = changes[i];
            let ghost before = trial@;
            proof {
                assert(changes@.skip(i as int)[0] == s);
                assert(changes@.skip(i as int).drop_first() =~= changes@.skip(i + 1));
            }
            if trial.set_setting(s).is_err() {
                return Err(SettingsError::InvalidValue);
            }
            let c = TimerCommand::Customize(s);
            proof {
                lemma_applied_all_push(v.timer, commands@, c);
                assert(customize_commands(changes@.take(i + 1)) =~= customize_commands(
                    changes@.take(i as int),
                ).push(c));
                assert(trial@ == before.applied(c));
            }
            commands.push(c);
            i = i + 1;
        }
        proof {
            assert(changes@.skip(i as int).len() == 0);
        }
        self.pomodoro.timer = trial;
        assert(changes@.take(changes@.len() as int) =~= changes@);
        Ok(commands)
    }

    /// Hands a tick from the engine to the coordinator and returns the
    /// commands to send, in order (see `Pomodoro::handle_timer_responses`).
    pub fn handle_tick(&mut self, time: i64) -> (r: Vec<TimerCommand>)
        requires
            old(self)@.wf(),
            tick_accepted(old(self)@.timer, time as int),
        ensures
            final(self)@.wf(),
            r@ == response_commands(old(self)@.timer, time as int),
            final(self)@ == (AppView {
                timer: if time == END_OF_PHASE {
                    old(self)@.timer.applied_all(r@)
                } else {
                    displayed(old(self)@.timer, time as int)
                },
                ..old(self)@
            }),
    {
        self.pomodoro.handle_timer_responses(time)
    }

    /// Whether `handle_tick` can take a tick (see `tick_accepted`).
    pub fn accepts_tick(&self, time: i64) -> (r: bool)
        requires
            self@.wf(),
        ensures
            r == tick_accepted(self@.timer, time as int),
    {
        self.pomodoro.accepts_tick(time)
    }

    pub fn get_selected_tab(&self) -> (r: usize)
        ensures
            r as int == self@.selected_tab,
    {
        self.selected_tab
    }

    pub fn get_settings_ref(&self) -> (r: &SettingsTab)
        ensures
            *r == self@.settings,
    {
        &self.settings
    }

    pub fn get_pomodoro_ref(&self) -> (r: &Pomodoro)
        ensures
            r.timer@ == self@.timer,
    {
        &self.pomodoro
    }

    /// Whether the program was asked to quit.
    pub fn exit_requested(&self) -> (r: bool)
        ensures
            r == self@.exit,
    {
        self.exit
    }

    fn change_tab(&mut self)
        requires
            old(self)@.wf(),
        ensures
            final(self)@ == (AppView { selected_tab: next_tab(old(self)@.selected_tab), ..old(self)@ }),
            final(self)@.wf(),
    {
        if self.selected_tab >= LAST_TAB {
            self.selected_tab = 0;
        } else {
            self.selected_tab = self.selected_tab + 1;
        }
    }

    fn exit(&mut self)
        ensures
            final(self)@ == (AppView { exit: true, ..old(self)@ }),
    {
        self.exit = true;
    }
}

/// The changes among the first `k` candidates.
pub open spec fn settings_changes_prefix(v: TimerView, candidates: Seq<PomodoroSettings>, k: int) -> Seq<PomodoroSettings>
    decreases k,
{
    if k <= 0 {
        seq![]
    } else {
        let before = settings_changes_prefix(v, candidates, k - 1);
        if setting_unchanged(v, candidates[k - 1]) {
            before
        } else {
            before.push(candidates[k - 1])
        }
    }
}

proof fn lemma_settings_changes_prefix(v: TimerView, t: TimerSettings, candidates: Seq<PomodoroSettings>)
    requires
        candidates == seq![
            PomodoroSettings::BreakTime(Some(t.break_time)),
            PomodoroSettings::WorkTime(Some(t.work_time)),
            PomodoroSettings::Iterations(Some(t.iterations)),
        ],
    ensures
        settings_changes_prefix(v, candidates, 3) == settings_changes(v, t),
{
    let p1 = settings_changes_prefix(v, candidates, 1);
    let p2 = settings_changes_prefix(v, candidates, 2);
    assert(settings_changes_prefix(v, candidates, 0) == Seq::<PomodoroSettings>::empty());
    assert(p2 == if setting_unchanged(v, candidates[1]) { p1 } else { p1.push(candidates[1]) });
    assert(settings_changes_prefix(v, candidates, 3) =~= settings_changes(v, t));
}

} // verus!
