//! Decisions drawn from the command line before the engine runs: whether
//! color output is enabled, which logging directives apply, and which
//! subcommands prefer silence.  Parsing the command line and talking to the
//! terminal are the caller's job; the rules live here.

use vstd::prelude::*;

verus! {

/// The color mode chosen on the command line.
#[derive(Debug, Clone, Copy, PartialEq, Eq, Structural)]
pub enum ColorMode {
    /// Enable color when running on a TTY.
    Auto,
    /// Always enable color.
    Always,
    /// Never enable color.
    Never,
}

impl Default for ColorMode {
    /// Color on a TTY only.
    fn default() -> (r: ColorMode)
        ensures
            r == ColorMode::Auto,
    {
        ColorMode::Auto
    }
}

/// Whether color output is enabled: never under `NO_COLOR`, else as the mode
/// says, with `Auto` deciding by whether standard output is a terminal.
pub fn color_enabled(no_color: bool, mode: ColorMode, stdout_is_terminal: bool) -> (r: bool)
    ensures
        r == (!no_color && match mode {
            ColorMode::Always => true,
            ColorMode::Never => false,
            ColorMode::Auto => stdout_is_terminal,
        }),
{
    if no_color {
        return false;
    }
    match mode {
        ColorMode::Always => true,
        ColorMode::Never => false,
        ColorMode::Auto => stdout_is_terminal,
    }
}

/// The subcommand the tool was invoked with.
#[derive(Debug, Clone, Copy, PartialEq, Eq, Structural)]
pub enum PrankAction {
    /// Build the web app and all of its assets.
    Build,
    /// Build and watch.
    Watch,
    /// Build, watch and serve.
    Serve,
    /// Clean output artifacts.
    Clean,
    /// Configuration controls.
    Config,
    /// Working with tools.
    Tools,
}

/// Whether a subcommand prefers silence: its main purpose is to write to the
/// console, so logging stays out of the way.
pub fn prefer_silence(action: PrankAction) -> (r: bool)
    ensures
        r == (action == PrankAction::Config || action == PrankAction::Tools),
{
    match action {
        PrankAction::Config => true,
        PrankAction::Tools => true,
        _ => false,
    }
}

/// The logging directives for a run: an explicit filter overrides
/// everything; otherwise quietness (asked for, or preferred by the
/// subcommand) wins over verbosity, and verbosity raises the engine's own
/// level step by step.
pub fn log_directives(log: Option<String>, verbose: u8, quiet: bool, prefer_silence: bool) -> (r:
    String)
    ensures
        match log {
            Some(directives) => r == directives,
            None => r@ == (if quiet || prefer_silence {
                "error,prank=warn"@
            } else if verbose == 0 {
                "error,prank=info"@
            } else if verbose == 1 {
                "error,prank=debug"@
            } else {
                "error,prank=trace"@
            }),
        },
{
    // an explicit filter overrides everything
    if let Some(directives) = log {
        return directives;
    }
    // quiet overrides verbose
    let silent = quiet || prefer_silence;
    let directives = if silent {
        "error,prank=warn"
    } else if verbose == 0 {
        "error,prank=info"
    } else if verbose == 1 {
        "error,prank=debug"
    } else {
        "error,prank=trace"
    };
    String::from_str(directives)
}

} // verus!
