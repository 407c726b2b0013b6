//! The fixed plugin-registration plan.
//!
//! A build runs in one of two modes.  A debug build registers four plugins,
//! in the fixed order log, filesystem, dialog, process; a release build skips
//! the logging plugin and registers the remaining three in the same order.

use vstd::prelude::*;

verus! {

/// The sole variable of the bootstrap: whether this is a debug or a release
/// build.  The driver decides once, at startup, which one holds.
#[derive(Clone, Copy, Debug, PartialEq, Eq, Structural)]
pub enum BuildMode {
    Debug,
    Release,
}

/// The plugins the shell registers with the host framework.
#[derive(Clone, Copy, Debug, PartialEq, Eq, Structural)]
pub enum Plugin {
    Log,
    Fs,
    Dialog,
    Process,
}

/// The verbosity level the logging plugin is configured with.
#[derive(Clone, Copy, Debug, PartialEq, Eq, Structural)]
pub enum LogVerbosity {
    Error,
    Warn,
    Info,
    Debug,
    Trace,
}

/// The registration plan of a build mode: the plugins to register, in order.
pub open spec fn plan(mode: BuildMode) -> Seq<Plugin> {
    match mode {
        BuildMode::Debug => seq![Plugin::Log, Plugin::Fs, Plugin::Dialog, Plugin::Process],
        BuildMode::Release => seq![Plugin::Fs, Plugin::Dialog, Plugin::Process],
    }
}

/// How many plugins the plan of `mode` holds: four in debug, three in release.
pub fn plan_len(mode: BuildMode) -> (n: usize)
    ensures
        n == plan(mode).len(),
{
    match mode {
        BuildMode::Debug => 4,
        BuildMode::Release => 3,
    }
}

/// The plugin registered at position `i` of the plan of `mode`.
pub fn plugin_at(mode: BuildMode, i: usize) -> (p: Plugin)
    requires
        i < plan(mode).len(),
    ensures
        p == plan(mode)[i as int],
{
    match mode {
        BuildMode::Debug => {
            if i == 0 {
                Plugin::Log
            } else if i == 1 {
                Plugin::Fs
            } else if i == 2 {
                Plugin::Dialog
            } else {
                Plugin::Process
            }
        },
        BuildMode::Release => {
            if i == 0 {
                Plugin::Fs
            } else if i == 1 {
                Plugin::Dialog
            } else {
                Plugin::Process
            }
        },
    }
}

/// The whole plan of `mode` as a vector, in registration order.
pub fn registration_plan(mode: BuildMode) -> (r: Vec<Plugin>)
    ensures
        r@ == plan(mode),
{
    let r: Vec<Plugin> = match mode {
        BuildMode::Debug => vec![Plugin::Log, Plugin::Fs, Plugin::Dialog, Plugin::Process],
        BuildMode::Release => vec![Plugin::Fs, Plugin::Dialog, Plugin::Process],
    };
    proof {
        assert(r@ =~= plan(mode));
    }
    r
}

/// The fixed verbosity level the logging plugin is configured with.
pub fn log_plugin_verbosity() -> (v: LogVerbosity)
    ensures
        v == LogVerbosity::Info,
{
    LogVerbosity::Info
}

/// The fixed diagnostic the process aborts with when the host run loop fails.
pub fn run_failure_message() -> (m: String)
    ensures
        m@ == "error while running tauri application"@,
{
    String::from_str("error while running tauri application")
}

} // verus!
