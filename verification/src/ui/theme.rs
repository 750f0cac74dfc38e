//! Consistent styling for terminal output.
//!
//! Each kind of text has one look. With colours switched off every text is
//! returned as it stands.

use owo_colors::OwoColorize;
use vstd::prelude::*;
use vstd::string::*;
use crate::output::OutputConfig;

verus! {

/// `text` between the escape sequences `open` and `close`.
pub open spec fn wrapped(open: Seq<char>, text: Seq<char>, close: Seq<char>) -> Seq<char> {
    open + text + close
}

/// `text` in bold.
pub open spec fn bold(text: Seq<char>) -> Seq<char> {
    wrapped("\x1b[1m"@, text, "\x1b[0m"@)
}

/// `text` dimmed.
pub open spec fn dimmed(text: Seq<char>) -> Seq<char> {
    wrapped("\x1b[2m"@, text, "\x1b[0m"@)
}

/// `text` in italics.
pub open spec fn italic(text: Seq<char>) -> Seq<char> {
    wrapped("\x1b[3m"@, text, "\x1b[0m"@)
}

/// `text` in red.
pub open spec fn red(text: Seq<char>) -> Seq<char> {
    wrapped("\x1b[31m"@, text, "\x1b[39m"@)
}

/// `text` in green.
pub open spec fn green(text: Seq<char>) -> Seq<char> {
    wrapped("\x1b[32m"@, text, "\x1b[39m"@)
}

/// `text` in yellow.
pub open spec fn yellow(text: Seq<char>) -> Seq<char> {
    wrapped("\x1b[33m"@, text, "\x1b[39m"@)
}

/// `text` in cyan.
pub open spec fn cyan(text: Seq<char>) -> Seq<char> {
    wrapped("\x1b[36m"@, text, "\x1b[39m"@)
}

/// Formats `text` in bold.
///
/// Calls `OwoColorize::bold`. Trusted: it writes `ESC[1m`, the text, `ESC[0m`.
#[verifier::external_body]
fn paint_bold(text: &str) -> (out: String)
    ensures
        out@ == bold(text@),
{
    format!("{}", text.bold())
}

/// Formats `text` dimmed.
///
/// Calls `OwoColorize::dimmed`. Trusted: it writes `ESC[2m`, the text, `ESC[0m`.
#[verifier::external_body]
fn paint_dimmed(text: &str) -> (out: String)
    ensures
        out@ == dimmed(text@),
{
    format!("{}", text.dimmed())
}

/// Formats `text` in italics.
///
/// Calls `OwoColorize::italic`. Trusted: it writes `ESC[3m`, the text, `ESC[0m`.
#[verifier::external_body]
fn paint_italic(text: &str) -> (out: String)
    ensures
        out@ == italic(text@),
{
    format!("{}", text.italic())
}

/// Formats `text` in red.
///
/// Calls `OwoColorize::red`. Trusted: it writes `ESC[31m`, the text, `ESC[39m`.
#[verifier::external_body]
fn paint_red(text: &str) -> (out: String)
    ensures
        out@ == red(text@),
{
    format!("{}", text.red())
}

/// Formats `text` in green.
///
/// Calls `OwoColorize::green`. Trusted: it writes `ESC[32m`, the text, `ESC[39m`.
#[verifier::external_body]
fn paint_green(text: &str) -> (out: String)
    ensures
        out@ == green(text@),
{
    format!("{}", text.green())
}

/// Formats `text` in yellow.
///
/// Calls `OwoColorize::yellow`. Trusted: it writes `ESC[33m`, the text, `ESC[39m`.
#[verifier::external_body]
fn paint_yellow(text: &str) -> (out: String)
    ensures
        out@ == yellow(text@),
{
    format!("{}", text.yellow())
}

/// Formats `text` in cyan.
///
/// Calls `OwoColorize::cyan`. Trusted: it writes `ESC[36m`, the text, `ESC[39m`.
#[verifier::external_body]
fn paint_cyan(text: &str) -> (out: String)
    ensures
        out@ == cyan(text@),
{
    format!("{}", text.cyan())
}

/// The marker put behind the default entry of a listing.
pub const DEFAULT_MARKER: &'static str = "(default)";

/// Styles for different semantic elements.
///
/// A `Style` is made from the output configuration. When colours are
/// disabled, every text is returned without formatting.
#[derive(Debug, Clone, Copy)]
pub struct Style {
    /// Whether colours are disabled.
    pub no_color: bool,
}

impl Style {
    /// How section headers look.
    pub open spec fn header_text(self, text: Seq<char>) -> Seq<char> {
        if self.no_color {
            text
        } else {
            bold(text)
        }
    }

    /// How labels and keys look.
    pub open spec fn label_text(self, text: Seq<char>) -> Seq<char> {
        if self.no_color {
            text
        } else {
            dimmed(text)
        }
    }

    /// How primary values look.
    pub open spec fn value_text(self, text: Seq<char>) -> Seq<char> {
        if self.no_color {
            text
        } else {
            cyan(text)
        }
    }

    /// How supplementary information look.
    pub open spec fn secondary_text(self, text: Seq<char>) -> Seq<char> {
        if self.no_color {
            text
        } else {
            dimmed(text)
        }
    }

    /// How success messages look.
    pub open spec fn success_text(self, text: Seq<char>) -> Seq<char> {
        if self.no_color {
            text
        } else {
            green(text)
        }
    }

    /// How error messages look.
    pub open spec fn error_text(self, text: Seq<char>) -> Seq<char> {
        if self.no_color {
            text
        } else {
            bold(red(text))
        }
    }

    /// How warning messages look.
    pub open spec fn warning_text(self, text: Seq<char>) -> Seq<char> {
        if self.no_color {
            text
        } else {
            yellow(text)
        }
    }

    /// How commands look.
    pub open spec fn command_text(self, text: Seq<char>) -> Seq<char> {
        if self.no_color {
            text
        } else {
            green(text)
        }
    }

    /// How language codes look.
    pub open spec fn code_text(self, text: Seq<char>) -> Seq<char> {
        if self.no_color {
            text
        } else {
            yellow(text)
        }
    }

    /// How hints look.
    pub open spec fn hint_text(self, text: Seq<char>) -> Seq<char> {
        if self.no_color {
            text
        } else {
            italic(dimmed(text))
        }
    }

    /// How version information look.
    pub open spec fn version_text(self, text: Seq<char>) -> Seq<char> {
        if self.no_color {
            text
        } else {
            dimmed(text)
        }
    }

    /// How the default marker looks.
    pub open spec fn default_marker_text(self) -> Seq<char> {
        if self.no_color {
            DEFAULT_MARKER@
        } else {
            dimmed(DEFAULT_MARKER@)
        }
    }

    /// The styles for an output configuration.
    pub fn new(settings: &OutputConfig) -> (style: Self)
        ensures
            style.no_color == settings.no_color,
    {
        Style { no_color: settings.no_color }
    }

    /// Style for section headers (e.g., "Configuration", "Available commands")
    pub fn header(&self, text: &str) -> (out: String)
        ensures
            out@ == self.header_text(text@),
    {
        if self.no_color {
            text.to_string()
        } else {
            paint_bold(text)
        }
    }

    /// Style for labels/keys (e.g., "provider", "model")
    pub fn label(&self, text: &str) -> (out: String)
        ensures
            out@ == self.label_text(text@),
    {
        if self.no_color {
            text.to_string()
        } else {
            paint_dimmed(text)
        }
    }

    /// Style for primary values (e.g., provider names, model names)
    pub fn value(&self, text: &str) -> (out: String)
        ensures
            out@ == self.value_text(text@),
    {
        if self.no_color {
            text.to_string()
        } else {
            paint_cyan(text)
        }
    }

    /// Style for secondary/supplementary info (e.g., endpoints, descriptions)
    pub fn secondary(&self, text: &str) -> (out: String)
        ensures
            out@ == self.secondary_text(text@),
    {
        if self.no_color {
            text.to_string()
        } else {
            paint_dimmed(text)
        }
    }

    /// Style for success messages
    pub fn success(&self, text: &str) -> (out: String)
        ensures
            out@ == self.success_text(text@),
    {
        if self.no_color {
            text.to_string()
        } else {
            paint_green(text)
        }
    }

    /// Style for error messages
    pub fn error(&self, text: &str) -> (out: String)
        ensures
            out@ == self.error_text(text@),
    {
        if self.no_color {
            text.to_string()
        } else {
            paint_bold(paint_red(text).as_str())
        }
    }

    /// Style for warning messages
    pub fn warning(&self, text: &str) -> (out: String)
        ensures
            out@ == self.warning_text(text@),
    {
        if self.no_color {
            text.to_string()
        } else {
            paint_yellow(text)
        }
    }

    /// Style for commands (e.g., "/config", "/help")
    pub fn command(&self, text: &str) -> (out: String)
        ensures
            out@ == self.command_text(text@),
    {
        if self.no_color {
            text.to_string()
        } else {
            paint_green(text)
        }
    }

    /// Style for language codes
    pub fn code(&self, text: &str) -> (out: String)
        ensures
            out@ == self.code_text(text@),
    {
        if self.no_color {
            text.to_string()
        } else {
            paint_yellow(text)
        }
    }

    /// Style for hints/help text
    pub fn hint(&self, text: &str) -> (out: String)
        ensures
            out@ == self.hint_text(text@),
    {
        if self.no_color {
            text.to_string()
        } else {
            paint_italic(paint_dimmed(text).as_str())
        }
    }

    /// Style for the default marker
    pub fn default_marker(&self) -> (out: String)
        ensures
            out@ == self.default_marker_text(),
    {
        if self.no_color {
            DEFAULT_MARKER.to_string()
        } else {
            paint_dimmed(DEFAULT_MARKER)
        }
    }

    /// Style for version info
    pub fn version(&self, text: &str) -> (out: String)
        ensures
            out@ == self.version_text(text@),
    {
        if self.no_color {
            text.to_string()
        } else {
            paint_dimmed(text)
        }
    }
}

} // verus!
