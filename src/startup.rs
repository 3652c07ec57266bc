//! What startup registers with the host runtime: a fixed set of capability
//! plugins, and a logging plugin in debug builds only.
use vstd::prelude::*;

verus! {

/// A capability plugin registered with the host at startup.
#[derive(Clone, Copy, Debug, PartialEq, Eq, Structural)]
pub enum Plugin {
    Filesystem,
    Dialog,
    Notification,
    Store,
}

/// Severity threshold handed to the logging plugin.
#[derive(Clone, Copy, Debug, PartialEq, Eq, Structural)]
pub enum LogLevel {
    Off,
    Error,
    Warn,
    Info,
    Debug,
    Trace,
}

/// The registrations that startup performs, in order.
pub struct StartupPlan {
    /// Capability plugins, each with its default configuration.
    pub plugins: Vec<Plugin>,
    /// The level of the logging plugin, when one is registered.
    pub log_level: Option<LogLevel>,
}

/// The capability plugins of every build, in registration order.
pub open spec fn capability_plugins() -> Seq<Plugin> {
    seq![Plugin::Filesystem, Plugin::Dialog, Plugin::Notification, Plugin::Store]
}

/// The logging plugin is registered at informational level in debug builds,
/// and not at all otherwise.
pub open spec fn planned_log_level(debug: bool) -> Option<LogLevel> {
    if debug {
        Some(LogLevel::Info)
    } else {
        None
    }
}

/// What the setup step may return for a planned log level, given the
/// registration closure.
pub open spec fn setup_outcome<E, R: FnOnce(LogLevel) -> Result<(), E>>(
    log_level: Option<LogLevel>,
    register_log: R,
    r: Result<(), E>,
) -> bool {
    match log_level {
        None => r is Ok,
        Some(level) => register_log.ensures((level,), r),
    }
}

/// The plan for a build, `debug` telling whether it is a debug build.
pub fn startup_plan(debug: bool) -> (p: StartupPlan)
    ensures
        p.plugins@ == capability_plugins(),
        p.log_level == planned_log_level(debug),
{
    let plugins: Vec<Plugin> = vec![
        Plugin::Filesystem,
        Plugin::Dialog,
        Plugin::Notification,
        Plugin::Store,
    ];
    let log_level = if debug {
        Some(LogLevel::Info)
    } else {
        None
    };
    StartupPlan { plugins, log_level }
}

/// The setup step: registers the logging plugin through `register_log` when
/// the plan asks for one, and passes a failure of that registration on
/// unchanged. With no logging plugin planned it succeeds without a call.
pub fn setup<E, R>(plan: &StartupPlan, register_log: R) -> (r: Result<(), E>) where
    R: FnOnce(LogLevel) -> Result<(), E>,

    requires
        plan.log_level matches Some(level) ==> register_log.requires((level,)),
    ensures
        setup_outcome(plan.log_level, register_log, r),
{
    match plan.log_level {
        None => Ok(()),
        Some(level) => register_log(level),
    }
}

/// A release build registers no logging plugin and its setup succeeds; a
/// debug build registers it at informational level, and setup ends with
/// whatever that registration returned, failure included.
pub proof fn logging_only_in_debug<E, R: FnOnce(LogLevel) -> Result<(), E>>(
    debug: bool,
    register_log: R,
    r: Result<(), E>,
)
    requires
        setup_outcome(planned_log_level(debug), register_log, r),
    ensures
        !debug ==> planned_log_level(debug) is None && r is Ok,
        debug ==> planned_log_level(debug) == Some(LogLevel::Info) && register_log.ensures(
            (LogLevel::Info,),
            r,
        ),
{
}

} // verus!
