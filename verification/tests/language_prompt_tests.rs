use tl_cli::translation::language::LanguageError;
use tl_cli::translation::prompt::{PROMPT_HEAD, PROMPT_TAIL, TARGET_PLACEHOLDER};
use tl_cli::translation::{
    build_system_prompt_with_style, supported_languages, validate_language, SYSTEM_PROMPT_TEMPLATE,
};

#[test]
fn test_validate_language_valid() {
    assert!(validate_language("ja").is_ok());
    assert!(validate_language("en").is_ok());
    assert!(validate_language("zh-TW").is_ok());
}

#[test]
fn test_validate_language_invalid() {
    assert!(validate_language("invalid").is_err());
    assert!(validate_language("").is_err());
    assert!(validate_language("JP").is_err()); // Case sensitive
}

#[test]
fn test_build_system_prompt_with_style_no_style() {
    let prompt = build_system_prompt_with_style("Japanese", None);
    assert!(prompt.contains("Japanese"));
    assert!(prompt.contains("Translate the following text"));
}

#[test]
fn test_build_system_prompt_with_style_casual() {
    let prompt = build_system_prompt_with_style("Japanese", Some("Use a casual tone."));
    assert!(prompt.contains("Japanese"));
    assert!(prompt.contains("Use a casual tone."));
}

#[test]
fn test_system_prompt_template_has_placeholder() {
    assert!(SYSTEM_PROMPT_TEMPLATE.contains("{target_language}"));
}

#[test]
fn system_prompt_is_exact() {
    assert_eq!(
        build_system_prompt_with_style("Japanese", None),
        "You are a translator. Translate the following text to Japanese. Output only the translated text without any explanations. Preserve the original formatting including blank lines and whitespace."
    );
    assert_eq!(
        build_system_prompt_with_style("ja", Some("Use a casual tone.")),
        "You are a translator. Translate the following text to ja. Output only the translated text without any explanations. Preserve the original formatting including blank lines and whitespace. Use a casual tone."
    );
}

#[test]
fn system_prompt_is_the_template_with_the_placeholder_replaced() {
    for language in ["ja", "", "{target_language}", "a {b} c", "zh-TW"] {
        assert_eq!(
            build_system_prompt_with_style(language, None),
            SYSTEM_PROMPT_TEMPLATE.replace("{target_language}", language)
        );
    }
    assert_eq!(
        format!("{}{}{}", PROMPT_HEAD, TARGET_PLACEHOLDER, PROMPT_TAIL),
        SYSTEM_PROMPT_TEMPLATE
    );
}

#[test]
fn system_prompt_keeps_both_texts_unchanged() {
    let prompt = build_system_prompt_with_style("  Fran\u{e7}ais\n", Some("  keep  this\t"));
    assert!(prompt.contains("to   Fran\u{e7}ais\n. Output"));
    assert!(prompt.ends_with("whitespace.   keep  this\t"));
    let empty_style = build_system_prompt_with_style("ja", Some(""));
    assert!(empty_style.ends_with("whitespace. "));
}

#[test]
fn language_table_is_complete() {
    let list = supported_languages();
    assert_eq!(list.len(), 77);
    assert_eq!(list[0], ("af", "Afrikaans"));
    assert_eq!(list[33], ("ja", "Japanese"));
    assert_eq!(list[76], ("zh-TW", "Chinese (Traditional)"));
    for (code, _) in &list {
        assert!(validate_language(code).is_ok());
    }
}

#[test]
fn invalid_language_is_reported_with_its_code() {
    match validate_language("xx") {
        Err(LanguageError { code }) => assert_eq!(code, "xx"),
        Ok(()) => panic!("expected an error"),
    }
    assert_eq!(
        validate_language("JP").unwrap_err().message(),
        "Invalid language code: 'JP'\n\nValid language codes (ISO 639-1): ja, en, zh, ko, fr, de, es, ...\nRun 'tl languages' to see all supported codes."
    );
    assert!(validate_language("zh-tw").is_err());
    assert!(validate_language(" ja").is_err());
}
