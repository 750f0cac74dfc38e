use tl_cli::chat::session::{SessionConfig, SetOutcome};
use tl_cli::chat::ui::{
    config_lines, error_lines, goodbye_line, header_lines, help_lines, set_report, write_row,
};
use tl_cli::name_map::NameMap;
use tl_cli::output::OutputConfig;
use tl_cli::style::StyleError;
use tl_cli::translation::language::print_languages;
use tl_cli::ui::Style;

fn plain() -> Style {
    Style::new(&OutputConfig { quiet: false, no_color: true })
}

fn colored() -> Style {
    Style::new(&OutputConfig { quiet: false, no_color: false })
}

#[test]
fn chat_header_and_goodbye() {
    assert_eq!(
        header_lines(&plain(), "0.3.1"),
        vec!["tl v0.3.1 - Interactive Translation Mode", ""]
    );
    assert_eq!(
        header_lines(&colored(), "1.0.0")[0],
        "\x1b[1mtl\x1b[0m \x1b[2mv1.0.0\x1b[0m - Interactive Translation Mode"
    );
    assert_eq!(goodbye_line(&plain()), "Goodbye!");
    assert_eq!(goodbye_line(&colored()), "\x1b[32mGoodbye!\x1b[39m");
    assert_eq!(write_row("  ", "a", " - ", "b"), "  a - b");
}

#[test]
fn chat_config_lines() {
    let mut config = SessionConfig::new(
        "ollama".to_string(),
        "http://localhost:11434".to_string(),
        "gemma3:12b".to_string(),
        None,
        "ja".to_string(),
        None,
        None,
        NameMap::new(),
    );
    assert_eq!(
        config_lines(&plain(), &config),
        vec![
            "Configuration",
            "  provider   ollama",
            "  model      gemma3:12b",
            "  to         ja",
            "  style      (none)",
            "  endpoint   http://localhost:11434",
            "",
        ]
    );
    config.style_name = Some("casual".to_string());
    assert_eq!(config_lines(&plain(), &config)[4], "  style      casual");
    assert_eq!(
        config_lines(&colored(), &config)[4],
        "  \x1b[2mstyle\x1b[0m      \x1b[36mcasual\x1b[39m"
    );
}

#[test]
fn chat_help_lines() {
    assert_eq!(
        help_lines(&plain()),
        vec![
            "Available commands",
            "  /config  Show current configuration",
            "  /help    Show this help",
            "  /quit    Exit chat mode",
            "  /set     Set option (style, to, model)",
            "",
            "Set examples",
            "  /set style casual  Use casual translation style",
            "  /set to ja         Set target language to Japanese",
            "  /set model gpt-4o  Switch to a different model",
            "  /set style      Clear style (no style)",
            "",
        ]
    );
}

#[test]
fn chat_error_lines() {
    assert_eq!(error_lines(&plain(), "boom"), vec!["Error: boom", ""]);
    assert_eq!(error_lines(&colored(), "boom")[0], "\x1b[1m\x1b[31mError:\x1b[39m\x1b[0m boom");
}

#[test]
fn set_reports() {
    let style = plain();
    let report = set_report(&style, &SetOutcome::StyleCleared);
    assert!(report.errors.is_empty());
    assert_eq!(report.output, vec!["\u{2713} Style cleared"]);
    let report = set_report(&style, &SetOutcome::StyleSet("casual".to_string()));
    assert_eq!(report.output, vec!["\u{2713} Style set to casual", ""]);
    let report = set_report(&style, &SetOutcome::TargetSet("en".to_string()));
    assert_eq!(report.output, vec!["\u{2713} Target language set to en"]);
    let report = set_report(&style, &SetOutcome::ModelSet("gpt-4o".to_string()));
    assert_eq!(report.output, vec!["\u{2713} Model set to gpt-4o"]);
    let report = set_report(&style, &SetOutcome::Usage);
    assert!(report.errors.is_empty());
    assert_eq!(report.output, vec!["Usage: /set <key> <value>", "Keys: style, to, model"]);
    let report = set_report(&style, &SetOutcome::MissingValue("to".to_string()));
    assert_eq!(report.errors, vec!["Error: Usage: /set to <language>", ""]);
    assert!(report.output.is_empty());
    let report = set_report(&style, &SetOutcome::MissingValue("model".to_string()));
    assert_eq!(report.errors, vec!["Error: Usage: /set model <name>", ""]);
    let report = set_report(&style, &SetOutcome::UnknownSetting("x".to_string()));
    assert_eq!(report.errors, vec!["Error: Unknown setting: x", ""]);
    assert_eq!(report.output, vec!["Available: style, to, model"]);
    let rejected = SetOutcome::StyleRejected(StyleError::NotFound {
        key: "x".to_string(),
        custom_keys: vec![],
    });
    let report = set_report(&style, &rejected);
    assert_eq!(
        report.errors,
        vec!["Error: Style 'x' not found\n\nAvailable styles: casual, formal, literal, natural", ""]
    );
    assert!(report.output.is_empty());
    let report = set_report(&colored(), &SetOutcome::ModelSet("m".to_string()));
    assert_eq!(report.output, vec!["\x1b[32m\u{2713}\x1b[39m Model set to \x1b[36mm\x1b[39m"]);
}

#[test]
fn language_listing_lines() {
    let lines = print_languages(&plain());
    assert_eq!(lines.len(), 78);
    assert_eq!(lines[0], "Supported language codes (ISO 639-1)");
    assert_eq!(lines[1], "  af    Afrikaans");
    assert_eq!(lines[21], "  fil   Filipino");
    assert_eq!(lines[77], "  zh-TW Chinese (Traditional)");
    let colored_lines = print_languages(&colored());
    assert_eq!(colored_lines[1], "  \x1b[33maf\x1b[39m \x1b[2mAfrikaans\x1b[0m");
}
