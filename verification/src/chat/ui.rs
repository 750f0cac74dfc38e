//! What chat mode shows: each function returns the lines to print.

use vstd::prelude::*;
use vstd::string::*;
use crate::chat::session::{SessionConfig, SetOutcome};
use crate::text::texts_of;
use crate::ui::theme::Style;

verus! {

/// A line made of an indent, a styled text, a gap, and another styled text.
pub open spec fn row(indent: Seq<char>, left: Seq<char>, gap: Seq<char>, right: Seq<char>) -> Seq<
    char,
> {
    indent + left + gap + right
}

/// Makes a line of an indent, a styled text, a gap, and another styled text.
pub fn write_row(indent: &str, left: &str, gap: &str, right: &str) -> (line: String)
    ensures
        line@ == row(indent@, left@, gap@, right@),
{
    let mut line = indent.to_string();
    line.append(left);
    line.append(gap);
    line.append(right);
    line
}

/// The header of chat mode for a version of the program, and an empty line.
pub open spec fn header_text(style: Style, version: Seq<char>) -> Seq<Seq<char>> {
    seq![
        style.header_text("tl"@) + " "@ + style.version_text("v"@ + version)
            + " - Interactive Translation Mode"@,
        Seq::empty(),
    ]
}

/// The lines that open chat mode.
pub fn header_lines(style: &Style, version: &str) -> (lines: Vec<String>)
    ensures
        texts_of(lines@) == header_text(*style, version@),
{
    let mut tag = "v".to_string();
    tag.append(version);
    let mut line = style.header("tl");
    line.append(" ");
    line.append(style.version(tag.as_str()).as_str());
    line.append(" - Interactive Translation Mode");
    let mut lines: Vec<String> = Vec::new();
    lines.push(line);
    lines.push(String::new());
    assert(texts_of(lines@) =~= header_text(*style, version@));
    lines
}

/// The line that closes chat mode.
pub fn goodbye_line(style: &Style) -> (line: String)
    ensures
        line@ == style.success_text("Goodbye!"@),
{
    style.success("Goodbye!")
}

/// The session's configuration as it is shown, followed by an empty line.
pub open spec fn config_text(style: Style, config: SessionConfig) -> Seq<Seq<char>> {
    seq![
        style.header_text("Configuration"@),
        row("  "@, style.label_text("provider"@), "   "@, style.value_text(config.provider_name@)),
        row("  "@, style.label_text("model"@), "      "@, style.value_text(config.model@)),
        row("  "@, style.label_text("to"@), "         "@, style.value_text(config.to@)),
        row(
            "  "@,
            style.label_text("style"@),
            "      "@,
            match config.style_name {
                Some(name) => style.value_text(name@),
                None => style.secondary_text("(none)"@),
            },
        ),
        row("  "@, style.label_text("endpoint"@), "   "@, style.secondary_text(config.endpoint@)),
        Seq::empty(),
    ]
}

/// The lines that show the session's configuration.
pub fn config_lines(style: &Style, config: &SessionConfig) -> (lines: Vec<String>)
    ensures
        texts_of(lines@) == config_text(*style, *config),
{
    let mut lines: Vec<String> = Vec::new();
    lines.push(style.header("Configuration"));
    lines.push(
        write_row(
            "  ",
            style.label("provider").as_str(),
            "   ",
            style.value(config.provider_name.as_str()).as_str(),
        ),
    );
    lines.push(
        write_row(
            "  ",
            style.label("model").as_str(),
            "      ",
            style.value(config.model.as_str()).as_str(),
        ),
    );
    lines.push(
        write_row(
            "  ",
            style.label("to").as_str(),
            "         ",
            style.value(config.to.as_str()).as_str(),
        ),
    );
    let shown = match &config.style_name {
        Some(name) => style.value(name.as_str()),
        None => style.secondary("(none)"),
    };
    lines.push(write_row("  ", style.label("style").as_str(), "      ", shown.as_str()));
    lines.push(
        write_row(
            "  ",
            style.label("endpoint").as_str(),
            "   ",
            style.secondary(config.endpoint.as_str()).as_str(),
        ),
    );
    lines.push(String::new());
    assert(texts_of(lines@) =~= config_text(*style, *config));
    lines
}

/// One line of the help: a command and what it does.
pub open spec fn help_row(style: Style, command: Seq<char>, gap: Seq<char>, note: Seq<char>) -> Seq<
    char,
> {
    row("  "@, style.command_text(command), gap, style.secondary_text(note))
}

/// The help of chat mode.
pub open spec fn help_text(style: Style) -> Seq<Seq<char>> {
    seq![
        style.header_text("Available commands"@),
        help_row(style, "/config"@, "  "@, "Show current configuration"@),
        help_row(style, "/help"@, "    "@, "Show this help"@),
        help_row(style, "/quit"@, "    "@, "Exit chat mode"@),
        help_row(style, "/set"@, "     "@, "Set option (style, to, model)"@),
        Seq::empty(),
        style.header_text("Set examples"@),
        help_row(style, "/set style casual"@, "  "@, "Use casual translation style"@),
        help_row(style, "/set to ja"@, "         "@, "Set target language to Japanese"@),
        help_row(style, "/set model gpt-4o"@, "  "@, "Switch to a different model"@),
        help_row(style, "/set style"@, "      "@, "Clear style (no style)"@),
        Seq::empty(),
    ]
}

/// Makes one line of the help.
fn write_help_row(style: &Style, command: &str, gap: &str, note: &str) -> (line: String)
    ensures
        line@ == help_row(*style, command@, gap@, note@),
{
    write_row("  ", style.command(command).as_str(), gap, style.secondary(note).as_str())
}

/// The lines of the help of chat mode.
pub fn help_lines(style: &Style) -> (lines: Vec<String>)
    ensures
        texts_of(lines@) == help_text(*style),
{
    let mut lines: Vec<String> = Vec::new();
    lines.push(style.header("Available commands"));
    lines.push(write_help_row(style, "/config", "  ", "Show current configuration"));
    lines.push(write_help_row(style, "/help", "    ", "Show this help"));
    lines.push(write_help_row(style, "/quit", "    ", "Exit chat mode"));
    lines.push(write_help_row(style, "/set", "     ", "Set option (style, to, model)"));
    lines.push(String::new());
    lines.push(style.header("Set examples"));
    lines.push(write_help_row(style, "/set style casual", "  ", "Use casual translation style"));
    lines.push(write_help_row(style, "/set to ja", "         ", "Set target language to Japanese"));
    lines.push(write_help_row(style, "/set model gpt-4o", "  ", "Switch to a different model"));
    lines.push(write_help_row(style, "/set style", "      ", "Clear style (no style)"));
    lines.push(String::new());
    assert(texts_of(lines@) =~= help_text(*style));
    lines
}

/// An error as it is shown, followed by an empty line.
pub open spec fn error_text(style: Style, message: Seq<char>) -> Seq<Seq<char>> {
    seq![style.error_text("Error:"@) + " "@ + message, Seq::empty()]
}

/// The lines that report an error.
pub fn error_lines(style: &Style, message: &str) -> (lines: Vec<String>)
    ensures
        texts_of(lines@) == error_text(*style, message@),
{
    let mut line = style.error("Error:");
    line.append(" ");
    line.append(message);
    let mut lines: Vec<String> = Vec::new();
    lines.push(line);
    lines.push(String::new());
    assert(texts_of(lines@) =~= error_text(*style, message@));
    lines
}

/// What is shown after a `/set` command: lines for the error stream and lines
/// for the output stream, the error stream first.
#[derive(Debug, Clone)]
pub struct SetReport {
    pub errors: Vec<String>,
    pub output: Vec<String>,
}

/// A confirmation: a check mark and what was done.
pub open spec fn confirmation(style: Style, what: Seq<char>) -> Seq<char> {
    style.success_text("\u{2713}"@) + " "@ + what
}

/// The lines for the error stream after a `/set` command.
pub open spec fn set_errors(style: Style, outcome: SetOutcome) -> Seq<Seq<char>> {
    match outcome {
        SetOutcome::StyleRejected(e) => error_text(style, e@.message()),
        SetOutcome::MissingValue(key) => error_text(
            style,
            if key@ == "to"@ {
                "Usage: /set to <language>"@
            } else {
                "Usage: /set model <name>"@
            },
        ),
        SetOutcome::UnknownSetting(key) => error_text(style, "Unknown setting: "@ + key@),
        _ => Seq::empty(),
    }
}

/// The lines for the output stream after a `/set` command.
pub open spec fn set_output(style: Style, outcome: SetOutcome) -> Seq<Seq<char>> {
    match outcome {
        SetOutcome::StyleCleared => seq![confirmation(style, "Style cleared"@)],
        SetOutcome::StyleSet(name) => seq![
            confirmation(style, "Style set to "@ + style.value_text(name@)),
            Seq::empty(),
        ],
        SetOutcome::TargetSet(code) => seq![
            confirmation(style, "Target language set to "@ + style.value_text(code@)),
        ],
        SetOutcome::ModelSet(name) => seq![
            confirmation(style, "Model set to "@ + style.value_text(name@)),
        ],
        SetOutcome::Usage => seq!["Usage: /set <key> <value>"@, "Keys: style, to, model"@],
        SetOutcome::UnknownSetting(_) => seq!["Available: style, to, model"@],
        _ => Seq::empty(),
    }
}

/// Makes a confirmation of `what` was set to `value`.
fn write_confirmation(style: &Style, what: &str, value: Option<&str>) -> (line: String)
    ensures
        line@ == confirmation(
            *style,
            match value {
                Some(v) => what@ + style.value_text(v@),
                None => what@,
            },
        ),
{
    let mut line = style.success("\u{2713}");
    line.append(" ");
    line.append(what);
    match value {
        Some(v) => {
            line.append(style.value(v).as_str());
            assert(line@ =~= confirmation(*style, what@ + style.value_text(v@)));
        },
        None => {},
    }
    line
}

/// What to show after a `/set` command.
pub fn set_report(style: &Style, outcome: &SetOutcome) -> (report: SetReport)
    ensures
        texts_of(report.errors@) == set_errors(*style, *outcome),
        texts_of(report.output@) == set_output(*style, *outcome),
{
    let mut errors: Vec<String> = Vec::new();
    let mut output: Vec<String> = Vec::new();
    assert(texts_of(errors@) =~= Seq::<Seq<char>>::empty());
    assert(texts_of(output@) =~= Seq::<Seq<char>>::empty());
    match outcome {
        SetOutcome::StyleCleared => {
            output.push(write_confirmation(style, "Style cleared", None));
            assert(texts_of(output@) =~= set_output(*style, *outcome));
        },
        SetOutcome::StyleSet(name) => {
            output.push(write_confirmation(style, "Style set to ", Some(name.as_str())));
            output.push(String::new());
            assert(texts_of(output@) =~= set_output(*style, *outcome));
        },
        SetOutcome::StyleRejected(e) => {
            errors = error_lines(style, e.message().as_str());
        },
        SetOutcome::TargetSet(code) => {
            output.push(write_confirmation(style, "Target language set to ", Some(code.as_str())));
            assert(texts_of(output@) =~= set_output(*style, *outcome));
        },
        SetOutcome::ModelSet(name) => {
            output.push(write_confirmation(style, "Model set to ", Some(name.as_str())));
            assert(texts_of(output@) =~= set_output(*style, *outcome));
        },
        SetOutcome::MissingValue(key) => {
            if crate::text::same_text(key.as_str(), "to") {
                errors = error_lines(style, "Usage: /set to <language>");
            } else {
                errors = error_lines(style, "Usage: /set model <name>");
            }
        },
        SetOutcome::Usage => {
            output.push("Usage: /set <key> <value>".to_string());
            output.push("Keys: style, to, model".to_string());
            assert(texts_of(output@) =~= set_output(*style, *outcome));
        },
        SetOutcome::UnknownSetting(key) => {
            let mut message = "Unknown setting: ".to_string();
            message.append(key.as_str());
            errors = error_lines(style, message.as_str());
            output.push("Available: style, to, model".to_string());
            assert(texts_of(output@) =~= set_output(*style, *outcome));
        },
    }
    SetReport { errors, output }
}

} // verus!
