//! Core coordination logic of a terminal feed reader: the UI mode state
//! machine, the command protocol between the render thread and the I/O
//! thread, the bounded-concurrency refresh pipeline, and the transient
//! notification ("flash") lifecycle.

use vstd::prelude::*;

pub mod command;
pub mod control;
pub mod dispatch;
pub mod keys;
pub mod modes;
pub mod pipeline;
pub mod state;
pub mod text;

verus! {

/// A unified event delivered to the render/control loop: either an input
/// event from the terminal or a periodic timer tick.
pub enum Event<I> {
    Input(I),
    Tick,
}

/// Startup parameters. Configuration loading itself happens outside this
/// core; durations are carried as plain numbers of milliseconds or whole
/// seconds.
#[derive(Clone, Debug)]
pub struct Options {
    /// Feed database path.
    pub database_path: String,
    /// Time in milliseconds between two ticks.
    pub tick_rate: u64,
    /// Number of seconds to show the flash message before clearing it.
    pub flash_display_duration_seconds: u64,
    /// Network request timeout in seconds.
    pub network_timeout: u64,
}

impl Options {
    /// Options with every duration at its default.
    pub fn with_defaults(database_path: String) -> (r: Options)
        ensures
            r.database_path@ == database_path@,
            r.tick_rate == 250,
            r.flash_display_duration_seconds == 4,
            r.network_timeout == 5,
    {
        Options { database_path, tick_rate: 250, flash_display_duration_seconds: 4, network_timeout: 5 }
    }
}

/// How long the input poll may wait for a key before the next tick is due:
/// the remainder of the tick interval, or nothing once the interval has
/// already elapsed. Tick boundaries are not a wall-clock grid; the caller
/// measures `elapsed_ms` from when the previous tick fired.
pub fn remaining_until_tick(tick_rate_ms: u64, elapsed_ms: u64) -> (r: u64)
    ensures
        elapsed_ms < tick_rate_ms ==> r == tick_rate_ms - elapsed_ms,
        elapsed_ms >= tick_rate_ms ==> r == 0,
{
    if elapsed_ms < tick_rate_ms {
        tick_rate_ms - elapsed_ms
    } else {
        0
    }
}

} // verus!
