pub mod app;
pub mod error;
pub mod settings;
pub mod romodoro;
pub mod timer;
pub mod ui;

use vstd::prelude::*;

verus! {

/// Default length of a work phase, in seconds.
pub const DEFAULT_WORK: i64 = 1800;

/// Default number of work iterations in a session.
pub const DEFAULT_ITERATIONS: u8 = 4;

/// Default length of a break phase, in seconds.
pub const DEFAULT_BREAK: i64 = 300;

/// Step by which the settings screen changes the work duration.
pub const WORK_TIME_INCR: i64 = 900;

/// Step by which the settings screen changes the break duration.
pub const BREAK_TIME_INCR: i64 = 60;

} // verus!
