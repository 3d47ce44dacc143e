use vstd::prelude::*;

use crate::timer::PomodoroState;
use crate::{BREAK_TIME_INCR, DEFAULT_BREAK, DEFAULT_ITERATIONS, DEFAULT_WORK, WORK_TIME_INCR};

verus! {

/// Index of the last entry on the settings screen.
pub const LAST_SETTING: usize = 4;

/// A single change of the timer's configuration; `None` asks for the
/// current value (see `SettingsTab::get_pomodoro_setting`).
#[derive(Debug, Clone, Copy, PartialEq, Eq, Structural)]
pub enum PomodoroSettings {
    WorkTime(Option<i64>),
    BreakTime(Option<i64>),
    Iterations(Option<u8>),
}

/// Display preferences.
#[derive(Debug, Clone, Copy, PartialEq, Eq, Structural)]
pub struct UISettings {
    pub pause_after_state_change: bool,
    pub hide_work_countdown: bool,
}

/// The timer's configuration: durations in seconds and the iteration count.
#[derive(Debug, Clone, Copy, PartialEq, Eq, Structural)]
pub struct TimerSettings {
    pub work_time: i64,
    pub break_time: i64,
    pub iterations: u8,
}

/// The settings screen: the entry under the cursor and the values edited.
/// Entries: 0 work time, 1 break time, 2 iterations, 3 pause after a phase
/// change, 4 hide the work countdown.
#[derive(Debug, Clone, Copy, PartialEq, Eq, Structural)]
pub struct SettingsTab {
    pub selected_setting: usize,
    pub ui_settings: UISettings,
    pub timer_settings: TimerSettings,
}

impl UISettings {
    pub open spec fn spec_default() -> UISettings {
        UISettings { pause_after_state_change: false, hide_work_countdown: false }
    }
}

impl TimerSettings {
    pub open spec fn spec_default() -> TimerSettings {
        TimerSettings {
            work_time: DEFAULT_WORK,
            break_time: DEFAULT_BREAK,
            iterations: DEFAULT_ITERATIONS,
        }
    }
}

impl Default for UISettings {
    fn default() -> (r: UISettings)
        ensures
            r == UISettings::spec_default(),
    {
        UISettings { pause_after_state_change: false, hide_work_countdown: false }
    }
}

impl Default for TimerSettings {
    fn default() -> (r: TimerSettings)
        ensures
            r == TimerSettings::spec_default(),
    {
        TimerSettings {
            work_time: DEFAULT_WORK,
            break_time: DEFAULT_BREAK,
            iterations: DEFAULT_ITERATIONS,
        }
    }
}

impl Default for SettingsTab {
    fn default() -> (r: SettingsTab)
        ensures
            r == (SettingsTab {
                selected_setting: 0,
                ui_settings: UISettings::spec_default(),
                timer_settings: TimerSettings::spec_default(),
            }),
    {
        SettingsTab {
            selected_setting: 0,
            ui_settings: UISettings::default(),
            timer_settings: TimerSettings::default(),
        }
    }
}

impl SettingsTab {
    /// The cursor moved to the next entry, from the last back to the first.
    pub open spec fn selected_down(self) -> SettingsTab {
        SettingsTab {
            selected_setting: if self.selected_setting >= LAST_SETTING {
                0
            } else {
                (self.selected_setting + 1) as usize
            },
            ..self
        }
    }

    /// The cursor moved to the previous entry, from the first to the last.
    pub open spec fn selected_up(self) -> SettingsTab {
        SettingsTab {
            selected_setting: if self.selected_setting == 0 {
                LAST_SETTING
            } else {
                (self.selected_setting - 1) as usize
            },
            ..self
        }
    }

    /// The timer and display settings back at their defaults.
    pub open spec fn defaults_restored(self) -> SettingsTab {
        SettingsTab {
            timer_settings: TimerSettings::spec_default(),
            ui_settings: UISettings::spec_default(),
            ..self
        }
    }

    /// The values after one step down of the entry under the cursor. A
    /// duration never reaches zero this way and stays put where the step
    /// would leave `i64`; the iteration count stays at least 1; a flag flips.
    pub open spec fn decremented(self) -> SettingsTab {
        let t = self.timer_settings;
        let u = self.ui_settings;
        if self.selected_setting == 0 && t.work_time != WORK_TIME_INCR && t.work_time
            >= i64::MIN + WORK_TIME_INCR {
            SettingsTab {
                timer_settings: TimerSettings { work_time: (t.work_time - WORK_TIME_INCR) as i64, ..t },
                ..self
            }
        } else if self.selected_setting == 1 && t.break_time != BREAK_TIME_INCR && t.break_time
            >= i64::MIN + BREAK_TIME_INCR {
            SettingsTab {
                timer_settings: TimerSettings {
                    break_time: (t.break_time - BREAK_TIME_INCR) as i64,
                    ..t
                },
                ..self
            }
        } else if self.selected_setting == 2 && t.iterations > 1 {
            SettingsTab {
                timer_settings: TimerSettings { iterations: (t.iterations - 1) as u8, ..t },
                ..self
            }
        } else if self.selected_setting == 3 {
            SettingsTab {
                ui_settings: UISettings { pause_after_state_change: !u.pause_after_state_change, ..u },
                ..self
            }
        } else if self.selected_setting == 4 {
            SettingsTab {
                ui_settings: UISettings { hide_work_countdown: !u.hide_work_countdown, ..u },
                ..self
            }
        } else {
            self
        }
    }

    /// The values after one step up of the entry under the cursor; a value
    /// at the top of its type stays put, a flag flips.
    pub open spec fn incremented(self) -> SettingsTab {
        let t = self.timer_settings;
        let u = self.ui_settings;
        if self.selected_setting == 0 && t.work_time <= i64::MAX - WORK_TIME_INCR {
            SettingsTab {
                timer_settings: TimerSettings { work_time: (t.work_time + WORK_TIME_INCR) as i64, ..t },
                ..self
            }
        } else if self.selected_setting == 1 && t.break_time <= i64::MAX - BREAK_TIME_INCR {
            SettingsTab {
                timer_settings: TimerSettings {
                    break_time: (t.break_time + BREAK_TIME_INCR) as i64,
                    ..t
                },
                ..self
            }
        } else if self.selected_setting == 2 && t.iterations < u8::MAX {
            SettingsTab {
                timer_settings: TimerSettings { iterations: (t.iterations + 1) as u8, ..t },
                ..self
            }
        } else if self.selected_setting == 3 {
            SettingsTab {
                ui_settings: UISettings { pause_after_state_change: !u.pause_after_state_change, ..u },
                ..self
            }
        } else if self.selected_setting == 4 {
            SettingsTab {
                ui_settings: UISettings { hide_work_countdown: !u.hide_work_countdown, ..u },
                ..self
            }
        } else {
            self
        }
    }

    /// Puts the timer and display settings back to their defaults.
    pub fn restore_defaults(&mut self)
        ensures
            *final(self) == old(self).defaults_restored(),
    {
        self.timer_settings = TimerSettings::default();
        self.ui_settings = UISettings::default();
    }

    /// The configured value of the kind of setting given; the value carried
    /// by the argument is ignored.
    pub fn get_pomodoro_setting(&self, setting: PomodoroSettings) -> (r: PomodoroSettings)
        ensures
            r == (match setting {
                PomodoroSettings::BreakTime(_) => PomodoroSettings::BreakTime(
                    Some(self.timer_settings.break_time),
                ),
                PomodoroSettings::WorkTime(_) => PomodoroSettings::WorkTime(
                    Some(self.timer_settings.work_time),
                ),
                PomodoroSettings::Iterations(_) => PomodoroSettings::Iterations(
                    Some(self.timer_settings.iterations),
                ),
            }),
    {
        match setting {
            PomodoroSettings::BreakTime(_) => PomodoroSettings::BreakTime(
                Some(self.timer_settings.break_time),
            ),
            PomodoroSettings::WorkTime(_) => PomodoroSettings::WorkTime(
                Some(self.timer_settings.work_time),
            ),
            PomodoroSettings::Iterations(_) => PomodoroSettings::Iterations(
                Some(self.timer_settings.iterations),
            ),
        }
    }

    /// Moves the cursor to the next entry, from the last back to the first.
    pub fn select_down(&mut self)
        ensures
            *final(self) == old(self).selected_down(),
    {
        if self.selected_setting >= LAST_SETTING {
            self.selected_setting = 0;
        } else {
            self.selected_setting = self.selected_setting + 1;
        }
    }

    /// Moves the cursor to the previous entry, from the first to the last.
    pub fn select_up(&mut self)
        ensures
            *final(self) == old(self).selected_up(),
    {
        if self.selected_setting == 0 {
            self.selected_setting = LAST_SETTING;
        } else {
            self.selected_setting = self.selected_setting - 1;
        }
    }

    /// Lowers the value under the cursor (see `decremented`).
    pub fn decrement(&mut self)
        ensures
            *final(self) == old(self).decremented(),
    {
        let sel = self.selected_setting;
        if sel == 0 {
            if self.timer_settings.work_time != WORK_TIME_INCR && self.timer_settings.work_time
                >= i64::MIN + WORK_TIME_INCR {
                self.timer_settings.work_time = self.timer_settings.work_time - WORK_TIME_INCR;
            }
        } else if sel == 1 {
            if self.timer_settings.break_time != BREAK_TIME_INCR && self.timer_settings.break_time
                >= i64::MIN + BREAK_TIME_INCR {
                self.timer_settings.break_time = self.timer_settings.break_time - BREAK_TIME_INCR;
            }
        } else if sel == 2 {
            if self.timer_settings.iterations > 1 {
                self.timer_settings.iterations = self.timer_settings.iterations - 1;
            }
        } else if sel == 3 {
            self.ui_settings.pause_after_state_change = !self.ui_settings.pause_after_state_change;
        } else if sel == 4 {
            self.ui_settings.hide_work_countdown = !self.ui_settings.hide_work_countdown;
        }
    }

    /// Raises the value under the cursor (see `incremented`).
    pub fn increment(&mut self)
        ensures
            *final(self) == old(self).incremented(),
    {
        let sel = self.selected_setting;
        if sel == 0 {
            if self.timer_settings.work_time <= i64::MAX - WORK_TIME_INCR {
                self.timer_settings.work_time = self.timer_settings.work_time + WORK_TIME_INCR;
            }
        } else if sel == 1 {
            if self.timer_settings.break_time <= i64::MAX - BREAK_TIME_INCR {
                self.timer_settings.break_time = self.timer_settings.break_time + BREAK_TIME_INCR;
            }
        } else if sel == 2 {
            if self.timer_settings.iterations < u8::MAX {
                self.timer_settings.iterations = self.timer_settings.iterations + 1;
            }
        } else if sel == 3 {
            self.ui_settings.pause_after_state_change = !self.ui_settings.pause_after_state_change;
        } else if sel == 4 {
            self.ui_settings.hide_work_countdown = !self.ui_settings.hide_work_countdown;
        }
    }
}

impl From<PomodoroState> for PomodoroSettings {
    fn from(value: PomodoroState) -> (r: PomodoroSettings) {
        match value {
            PomodoroState::Work(time) => PomodoroSettings::WorkTime(Some(time)),
            PomodoroState::Break(time) => PomodoroSettings::BreakTime(Some(time)),
        }
    }
}

impl vstd::std_specs::convert::FromSpecImpl<PomodoroState> for PomodoroSettings {
    open spec fn obeys_from_spec() -> bool {
        true
    }

    open spec fn from_spec(value: PomodoroState) -> PomodoroSettings {
        match value {
            PomodoroState::Work(time) => PomodoroSettings::WorkTime(Some(time)),
            PomodoroState::Break(time) => PomodoroSettings::BreakTime(Some(time)),
        }
    }
}

impl From<u8> for PomodoroSettings {
    fn from(value: u8) -> (r: PomodoroSettings) {
        PomodoroSettings::Iterations(Some(value))
    }
}

impl vstd::std_specs::convert::FromSpecImpl<u8> for PomodoroSettings {
    open spec fn obeys_from_spec() -> bool {
        true
    }

    open spec fn from_spec(value: u8) -> PomodoroSettings {
        PomodoroSettings::Iterations(Some(value))
    }
}

} // verus!
