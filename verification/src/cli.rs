//! Decisions behind the tool's diagnostics: how the verbosity count and the
//! color mode choose each sink's severity threshold and color rendering, and
//! which log file, if any, the `--log` flag asks for.
//!
//! The process edge parses the flags, hands their values in here, and builds
//! the actual sinks from what these functions decide.

use vstd::prelude::*;

verus! {

/// How terminal output should be colorized.
#[derive(Clone, Copy, Debug, PartialEq, Eq, Structural)]
pub enum ColorMode {
    Auto,
    Always,
    Never,
}

impl Default for ColorMode {
    /// The default color mode is `Auto`.
    fn default() -> (r: Self)
        ensures
            r == ColorMode::Auto,
    {
        ColorMode::Auto
    }
}

/// The minimum severity a sink records: every event at this level or above is
/// kept, quieter ones are dropped.
#[derive(Clone, Copy, Debug, PartialEq, Eq, Structural)]
pub enum SeverityThreshold {
    Info,
    Debug,
    Trace,
}

/// The terminal sink's threshold for a verbosity count: no `-v` keeps it at
/// `Info`, one lowers it to `Debug`, two or more lower it to `Trace`.
pub open spec fn terminal_threshold(verbose: u8) -> SeverityThreshold {
    if verbose == 0 {
        SeverityThreshold::Info
    } else if verbose == 1 {
        SeverityThreshold::Debug
    } else {
        SeverityThreshold::Trace
    }
}

/// Chooses the terminal sink's severity threshold from the verbosity count.
pub fn terminal_severity(verbose: u8) -> (t: SeverityThreshold)
    ensures
        t == terminal_threshold(verbose),
{
    match verbose {
        0 => SeverityThreshold::Info,
        1 => SeverityThreshold::Debug,
        _ => SeverityThreshold::Trace,
    }
}

/// Whether the terminal sink renders ANSI colors: it does in every mode but
/// `Never`.
pub fn terminal_ansi(color: ColorMode) -> (r: bool)
    ensures
        r == (color != ColorMode::Never),
{
    match color {
        ColorMode::Auto => true,
        ColorMode::Always => true,
        ColorMode::Never => false,
    }
}

/// Whether the file sink renders ANSI colors: only when colors are forced
/// with `Always`; `Auto` keeps control codes out of the file.
pub fn file_ansi(color: ColorMode) -> (r: bool)
    ensures
        r == (color == ColorMode::Always),
{
    match color {
        ColorMode::Auto => false,
        ColorMode::Always => true,
        ColorMode::Never => false,
    }
}

/// The log file the `--log` flag asks for: none when the flag is absent, the
/// given name when one was supplied, and `<program>.log` when the flag stands
/// alone.
pub fn resolve_log_target(log: &Option<Option<String>>, program_name: &str) -> (r: Option<
    String,
>)
    ensures
        r is Some <==> log is Some,
        log matches Some(Some(name)) ==> r matches Some(chosen) && chosen@ == name@,
        log matches Some(None) ==> r matches Some(chosen) && chosen@ == program_name@ + ".log"@,
{
    match log {
        Option::None => Option::None,
        Option::Some(Option::Some(name)) => Option::Some(name.clone()),
        Option::Some(Option::None) => {
            let mut s = program_name.to_owned();
            s.append(".log");
            Option::Some(s)
        },
    }
}

} // verus!
