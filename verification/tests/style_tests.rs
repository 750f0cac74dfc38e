use tl_cli::config::CustomStyle;
use tl_cli::name_map::NameMap;
use tl_cli::style::{
    get_preset, is_preset, presets, resolve_style, sorted_custom_keys, validate_custom_key,
    ResolvedStyle, StyleError,
};

#[test]
fn test_preset_count() {
    assert_eq!(presets().len(), 4);
}

#[test]
fn test_get_preset_exists() {
    assert!(get_preset("casual").is_some());
    assert!(get_preset("formal").is_some());
    assert!(get_preset("literal").is_some());
    assert!(get_preset("natural").is_some());
}

#[test]
fn test_get_preset_not_exists() {
    assert!(get_preset("nonexistent").is_none());
}

#[test]
fn test_is_preset() {
    assert!(is_preset("casual"));
    assert!(!is_preset("my_custom"));
}

#[test]
fn test_sorted_custom_keys() {
    let mut styles = NameMap::new();
    styles.insert(
        "zebra".to_string(),
        CustomStyle { description: "z desc".to_string(), prompt: "z prompt".to_string() },
    );
    styles.insert(
        "alpha".to_string(),
        CustomStyle { description: "a desc".to_string(), prompt: "a prompt".to_string() },
    );
    styles.insert(
        "beta".to_string(),
        CustomStyle { description: "b desc".to_string(), prompt: "b prompt".to_string() },
    );

    let keys = sorted_custom_keys(&styles);
    assert_eq!(keys, vec!["alpha", "beta", "zebra"]);
}

#[test]
fn test_sorted_custom_keys_empty() {
    let styles: NameMap<CustomStyle> = NameMap::new();
    let keys = sorted_custom_keys(&styles);
    assert!(keys.is_empty());
}

#[test]
fn test_resolve_style_preset() {
    let custom: NameMap<CustomStyle> = NameMap::new();
    let resolved = resolve_style("casual", &custom);
    assert!(resolved.is_ok());
    assert_eq!(resolved.as_ref().ok().map(ResolvedStyle::key), Some("casual"));
}

#[test]
fn test_resolve_style_custom() {
    let mut custom = NameMap::new();
    custom.insert(
        "my_style".to_string(),
        CustomStyle {
            description: "My description".to_string(),
            prompt: "My custom prompt".to_string(),
        },
    );

    let resolved = resolve_style("my_style", &custom);
    assert!(resolved.is_ok());
    assert_eq!(resolved.as_ref().ok().map(ResolvedStyle::key), Some("my_style"));
    assert_eq!(resolved.as_ref().ok().map(ResolvedStyle::prompt), Some("My custom prompt"));
}

#[test]
fn test_resolve_style_not_found() {
    let custom: NameMap<CustomStyle> = NameMap::new();
    let resolved = resolve_style("nonexistent", &custom);
    assert!(resolved.is_err());
}

#[test]
fn test_validate_custom_key_valid() {
    assert!(validate_custom_key("my_style").is_ok());
    assert!(validate_custom_key("style123").is_ok());
    assert!(validate_custom_key("MyStyle").is_ok());
}

#[test]
fn test_validate_custom_key_preset() {
    let result = validate_custom_key("casual");
    assert!(matches!(result, Err(StyleError::PresetImmutable(_))));
}

#[test]
fn test_validate_custom_key_invalid() {
    assert!(validate_custom_key("").is_err());
    assert!(validate_custom_key("123start").is_err());
    assert!(validate_custom_key("has-dash").is_err());
    assert!(validate_custom_key("has space").is_err());
}

#[test]
fn test_validate_custom_key_underscore_prefix() {
    // Underscore at start is invalid (must start with letter)
    assert!(matches!(validate_custom_key("_style"), Err(StyleError::InvalidKey(_))));
}

#[test]
fn test_validate_custom_key_single_letter() {
    // Single letter is valid
    assert!(validate_custom_key("a").is_ok());
}

#[test]
fn test_style_error_not_found_display_shows_presets() {
    let error = StyleError::NotFound { key: "unknown".to_string(), custom_keys: vec![] };
    let msg = error.message();
    assert!(msg.contains("Style 'unknown' not found"));
    assert!(msg.contains("casual"));
    assert!(msg.contains("formal"));
    assert!(msg.contains("literal"));
    assert!(msg.contains("natural"));
}

#[test]
fn test_style_error_not_found_display_includes_custom() {
    let error = StyleError::NotFound {
        key: "unknown".to_string(),
        custom_keys: vec!["my_custom".to_string(), "another".to_string()],
    };
    let msg = error.message();
    assert!(msg.contains("Available styles:"));
    assert!(msg.contains("casual"));
    assert!(msg.contains("my_custom"));
    assert!(msg.contains("another"));
}

#[test]
fn test_style_error_preset_immutable_display() {
    let error = StyleError::PresetImmutable("casual".to_string());
    let msg = error.message();
    assert!(msg.contains("Cannot modify preset style 'casual'"));
}

#[test]
fn test_style_error_already_exists_display() {
    let error = StyleError::AlreadyExists("my_style".to_string());
    let msg = error.message();
    assert!(msg.contains("Style 'my_style' already exists"));
}

#[test]
fn test_style_error_invalid_key_display() {
    let error = StyleError::InvalidKey("123bad".to_string());
    let msg = error.message();
    assert!(msg.contains("Invalid style key '123bad'"));
    assert!(msg.contains("must start with a letter"));
}

#[test]
fn test_resolve_style_error_includes_custom_keys() {
    let mut custom = NameMap::new();
    custom.insert(
        "my_style".to_string(),
        CustomStyle { description: "desc".to_string(), prompt: "prompt".to_string() },
    );

    let result = resolve_style("nonexistent", &custom);
    match result {
        Err(StyleError::NotFound { custom_keys, .. }) => {
            assert!(custom_keys.contains(&"my_style".to_string()));
        }
        _ => panic!("Expected StyleError::NotFound"),
    }
}

#[test]
fn preset_table_holds_keys_descriptions_and_prompts() {
    let list = presets();
    assert_eq!(list[0].key, "casual");
    assert_eq!(list[0].description, "Casual, conversational tone");
    assert_eq!(list[0].prompt, "Use a casual, friendly, conversational tone.");
    assert_eq!(list[1].key, "formal");
    assert_eq!(list[1].prompt, "Use a formal, polite, business-appropriate tone.");
    assert_eq!(list[2].key, "literal");
    assert_eq!(list[2].prompt, "Translate as literally as possible while remaining grammatical.");
    assert_eq!(list[3].key, "natural");
    assert_eq!(
        list[3].prompt,
        "Translate naturally, prioritizing idiomatic expressions over literal accuracy."
    );
    assert_eq!(get_preset("formal").map(|p| p.description), Some("Formal, business-appropriate"));
}

#[test]
fn preset_wins_over_custom_style_with_same_key() {
    let mut custom = NameMap::new();
    custom.insert(
        "casual".to_string(),
        CustomStyle { description: "mine".to_string(), prompt: "my casual".to_string() },
    );
    match resolve_style("casual", &custom) {
        Ok(ResolvedStyle::Preset(preset)) => {
            assert_eq!(preset.prompt, "Use a casual, friendly, conversational tone.")
        }
        _ => panic!("expected the preset"),
    }
}

#[test]
fn custom_key_named_like_preset_is_preset_immutable_and_my_style_2_is_accepted() {
    for preset in presets() {
        match validate_custom_key(preset.key) {
            Err(StyleError::PresetImmutable(key)) => assert_eq!(key, preset.key),
            _ => panic!("expected PresetImmutable"),
        }
    }
    assert!(validate_custom_key("my_style_2").is_ok());
}

#[test]
fn validate_custom_key_errors_carry_the_key() {
    match validate_custom_key("has-dash") {
        Err(StyleError::InvalidKey(key)) => assert_eq!(key, "has-dash"),
        _ => panic!("expected InvalidKey"),
    }
    assert!(matches!(validate_custom_key("caf\u{e9}"), Err(StyleError::InvalidKey(_))));
    assert!(matches!(validate_custom_key("\u{e9}t\u{e9}"), Err(StyleError::InvalidKey(_))));
    assert!(matches!(validate_custom_key("a b"), Err(StyleError::InvalidKey(_))));
    assert!(validate_custom_key("Casual").is_ok());
    assert!(validate_custom_key("a_").is_ok());
    assert!(validate_custom_key("Z9_z").is_ok());
}

#[test]
fn style_error_messages_are_exact() {
    let not_found = StyleError::NotFound {
        key: "x".to_string(),
        custom_keys: vec!["a".to_string(), "b".to_string()],
    };
    assert_eq!(
        not_found.message(),
        "Style 'x' not found\n\nAvailable styles: casual, formal, literal, natural, a, b"
    );
    let bare = StyleError::NotFound { key: "x".to_string(), custom_keys: vec![] };
    assert_eq!(
        bare.message(),
        "Style 'x' not found\n\nAvailable styles: casual, formal, literal, natural"
    );
    assert_eq!(
        StyleError::PresetImmutable("casual".to_string()).message(),
        "Cannot modify preset style 'casual'"
    );
    assert_eq!(
        StyleError::AlreadyExists("mine".to_string()).message(),
        "Style 'mine' already exists"
    );
    assert_eq!(
        StyleError::InvalidKey("1".to_string()).message(),
        "Invalid style key '1': must start with a letter and contain only alphanumeric characters and underscores"
    );
}

#[test]
fn resolve_style_not_found_lists_custom_keys_sorted() {
    let mut custom = NameMap::new();
    for key in ["zeta", "Alpha", "beta", "alpha"] {
        custom.insert(
            key.to_string(),
            CustomStyle { description: String::new(), prompt: String::new() },
        );
    }
    match resolve_style("missing", &custom) {
        Err(StyleError::NotFound { key, custom_keys }) => {
            assert_eq!(key, "missing");
            assert_eq!(custom_keys, vec!["Alpha", "alpha", "beta", "zeta"]);
        }
        _ => panic!("Expected StyleError::NotFound"),
    }
}

#[test]
fn style_not_found_carries_every_candidate() {
    let error = StyleError::NotFound {
        key: "x".to_string(),
        custom_keys: vec!["mine".to_string(), "yours".to_string()],
    };
    assert_eq!(error.candidates(), vec!["casual", "formal", "literal", "natural", "mine", "yours"]);
    assert!(StyleError::InvalidKey("1".to_string()).candidates().is_empty());
}
