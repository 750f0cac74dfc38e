//! Output settings: quiet mode and colours.
//!
//! The settings are an ordinary value. They are made once, from the flags of
//! the command line and the environment, and handed to whatever formats output.

use vstd::prelude::*;
use crate::config::Environment;

verus! {

/// The environment variable that switches colours off when it is set.
pub const NO_COLOR_VAR: &'static str = "NO_COLOR";

/// Output configuration settings.
#[derive(Debug, Clone, Copy)]
pub struct OutputConfig {
    /// Suppress non-essential output.
    pub quiet: bool,
    /// Disable colored output.
    pub no_color: bool,
}

/// Makes the output configuration from the command line's flags.
///
/// Colours are off if the flag says so or if `NO_COLOR` is set, to whatever value.
pub fn init(quiet: bool, no_color: bool, env: &Environment) -> (settings: OutputConfig)
    ensures
        settings.quiet == quiet,
        settings.no_color == (no_color || env@.contains_key(NO_COLOR_VAR@)),
{
    OutputConfig { quiet, no_color: no_color || env.var(NO_COLOR_VAR).is_some() }
}

/// The output configuration when no flag is given: not quiet, and colours
/// are off exactly if `NO_COLOR` is set.
pub fn config(env: &Environment) -> (settings: OutputConfig)
    ensures
        !settings.quiet,
        settings.no_color == env@.contains_key(NO_COLOR_VAR@),
{
    init(false, false, env)
}

/// Check if quiet mode is enabled.
pub fn is_quiet(settings: &OutputConfig) -> (quiet: bool)
    ensures
        quiet == settings.quiet,
{
    settings.quiet
}

/// Check if colors are disabled.
pub fn is_no_color(settings: &OutputConfig) -> (no_color: bool)
    ensures
        no_color == settings.no_color,
{
    settings.no_color
}

} // verus!
