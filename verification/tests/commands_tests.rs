use tl_cli::cli::commands::chat::{load_session_config, ChatOptions};
use tl_cli::cli::commands::configure::{
    check_configurable, check_model_name, default_index, language_default_index, language_options,
    print_current_defaults, provider_models, run_configure, selection_key, style_default_index,
    style_of_selection, style_options, ConfigureError,
};
use tl_cli::cli::commands::providers::{
    add_provider, build_provider, check_credential, check_endpoint, check_provider_exists,
    check_provider_name, check_provider_removable, default_key_method, edit_provider,
    list_providers, models_answer, parse_models, remove_provider, reserved_name, KeyMethod,
    ProviderAnswers, ProviderCommandError,
};
use tl_cli::cli::commands::styles::{
    add_style, check_description, check_edited_prompt, check_editable, check_new_prompt,
    check_new_style_name, check_removable, edit_style, filter_comment_lines, list_styles,
    remove_style, show_style, Removal, StyleCommandError,
};
use tl_cli::config::{ConfigError, ConfigFile, CustomStyle, Environment, ProviderConfig, TlConfig};
use tl_cli::name_map::NameMap;
use tl_cli::output::OutputConfig;
use tl_cli::style::StyleError;
use tl_cli::ui::Style;

fn plain() -> Style {
    Style::new(&OutputConfig { quiet: false, no_color: true })
}

fn sample_config() -> ConfigFile {
    let mut providers = NameMap::new();
    providers.insert(
        "ollama".to_string(),
        ProviderConfig {
            endpoint: "http://localhost:11434".to_string(),
            api_key: None,
            api_key_env: None,
            models: vec!["gemma3:12b".to_string(), "llama3.2".to_string()],
        },
    );
    providers.insert(
        "openrouter".to_string(),
        ProviderConfig {
            endpoint: "https://openrouter.ai/api".to_string(),
            api_key: None,
            api_key_env: Some("OPENROUTER_API_KEY".to_string()),
            models: vec![],
        },
    );
    let mut styles = NameMap::new();
    styles.insert(
        "ojisan".to_string(),
        CustomStyle { description: "Ojisan texting".to_string(), prompt: "Write like ojisan.".to_string() },
    );
    ConfigFile {
        tl: TlConfig {
            provider: Some("ollama".to_string()),
            model: Some("gemma3:12b".to_string()),
            to: Some("ja".to_string()),
            style: Some("ojisan".to_string()),
        },
        providers,
        styles,
    }
}

#[test]
fn filter_comment_lines_drops_comments_and_trims() {
    assert_eq!(
        filter_comment_lines("# Enter the prompt\n# Lines starting with # are ignored.\n\nBe kind.\n"),
        "Be kind."
    );
    assert_eq!(filter_comment_lines("a\n  # indented comment\nb"), "a\nb");
    assert_eq!(filter_comment_lines("a # not a comment\r\nb\r\n"), "a # not a comment\nb");
    assert_eq!(filter_comment_lines("#only"), "");
    assert_eq!(filter_comment_lines(""), "");
    assert_eq!(filter_comment_lines("\n\n  x  \n\n"), "x");
    assert_eq!(filter_comment_lines("a\n\nb"), "a\n\nb");
}

fn reference_filter(text: &str) -> String {
    text.lines()
        .filter(|line| !line.trim_start().starts_with('#'))
        .collect::<Vec<_>>()
        .join("\n")
        .trim()
        .to_string()
}

#[test]
fn filter_comment_lines_agrees_with_line_iteration() {
    for text in [
        "", "\n", "a", "a\n", "a\r\n", "a\r", "\r\n\r\n", "#\n#", " \t#x\ny\n", "x\n#\r\ny\r",
        "\u{3000}# wide\nz", "a\n\n\nb\n", "##", "a\rb\nc",
    ] {
        assert_eq!(filter_comment_lines(text), reference_filter(text), "{:?}", text);
    }
}

#[test]
fn add_style_checks_answers_in_order() {
    let mut config = sample_config();
    assert!(matches!(
        add_style(&mut config, "1bad", "", ""),
        Err(StyleCommandError::Key(StyleError::InvalidKey(_)))
    ));
    assert!(matches!(
        add_style(&mut config, " casual ", "d", "p"),
        Err(StyleCommandError::Key(StyleError::PresetImmutable(_)))
    ));
    match add_style(&mut config, "ojisan", "d", "p") {
        Err(StyleCommandError::AlreadyExists(name)) => assert_eq!(name, "ojisan"),
        _ => panic!("expected AlreadyExists"),
    }
    assert!(matches!(
        add_style(&mut config, "fresh", "   ", ""),
        Err(StyleCommandError::EmptyDescription)
    ));
    assert!(matches!(
        add_style(&mut config, "fresh", "d", "# nothing\n"),
        Err(StyleCommandError::EmptyPrompt)
    ));
    assert_eq!(config.styles.len(), 1);
    assert_eq!(
        add_style(&mut config, "  my_style_2 ", " Short ", "# help\nUse slang.\n").unwrap(),
        "my_style_2"
    );
    let stored = config.styles.get("my_style_2").unwrap();
    assert_eq!(stored.description, "Short");
    assert_eq!(stored.prompt, "Use slang.");
    assert_eq!(config.styles.len(), 2);
    assert_eq!(config.styles.get("ojisan").unwrap().prompt, "Write like ojisan.");
}

#[test]
fn style_answers_are_checked_one_by_one() {
    let config = sample_config();
    assert_eq!(check_new_style_name(&config, " new_one ").unwrap(), "new_one");
    assert!(check_new_style_name(&config, "ojisan").is_err());
    assert_eq!(check_description("  d  ").unwrap(), "d");
    assert!(matches!(check_description("\t"), Err(StyleCommandError::EmptyDescription)));
    assert_eq!(check_new_prompt("#c\n p ").unwrap(), "p");
    assert!(matches!(check_new_prompt("#c"), Err(StyleCommandError::EmptyPrompt)));
    assert_eq!(check_edited_prompt(" #kept ").unwrap(), "#kept");
    assert!(matches!(check_edited_prompt(""), Err(StyleCommandError::EmptyPrompt)));
}

#[test]
fn edit_style_replaces_an_existing_custom_style() {
    let mut config = sample_config();
    match edit_style(&mut config, "casual", "d", "p") {
        Err(StyleCommandError::EditPreset(name)) => assert_eq!(name, "casual"),
        _ => panic!("expected EditPreset"),
    }
    match edit_style(&mut config, "missing", "d", "p") {
        Err(StyleCommandError::NothingToEdit(name)) => assert_eq!(name, "missing"),
        _ => panic!("expected NothingToEdit"),
    }
    assert!(matches!(
        edit_style(&mut config, "ojisan", " ", "p"),
        Err(StyleCommandError::EmptyDescription)
    ));
    assert!(matches!(
        edit_style(&mut config, "ojisan", "d", " "),
        Err(StyleCommandError::EmptyPrompt)
    ));
    assert_eq!(config.styles.get("ojisan").unwrap().prompt, "Write like ojisan.");
    assert_eq!(check_editable(&config, "ojisan").unwrap().description, "Ojisan texting");
    assert!(edit_style(&mut config, "ojisan", " New ", " # kept \n").is_ok());
    let stored = config.styles.get("ojisan").unwrap();
    assert_eq!(stored.description, "New");
    assert_eq!(stored.prompt, "# kept");
}

#[test]
fn remove_style_needs_confirmation_and_reports_the_default() {
    let mut config = sample_config();
    assert!(matches!(
        remove_style(&mut config, "formal", true),
        Err(StyleCommandError::RemovePreset(_))
    ));
    assert!(matches!(
        remove_style(&mut config, "missing", true),
        Err(StyleCommandError::NotFound(_))
    ));
    assert!(check_removable(&config, "ojisan").is_ok());
    assert_eq!(remove_style(&mut config, "ojisan", false).unwrap(), Removal::Cancelled);
    assert!(config.styles.contains_key("ojisan"));
    assert_eq!(
        remove_style(&mut config, "ojisan", true).unwrap(),
        Removal::Removed { was_default: true }
    );
    assert!(!config.styles.contains_key("ojisan"));
    assert_eq!(config.tl.style, Some("ojisan".to_string()));

    let mut other = sample_config();
    other.tl.style = None;
    assert_eq!(
        remove_style(&mut other, "ojisan", true).unwrap(),
        Removal::Removed { was_default: false }
    );
}

#[test]
fn style_command_error_messages_are_exact() {
    assert_eq!(
        StyleCommandError::AlreadyExists("x".to_string()).message(),
        "Style 'x' already exists. Use 'tl styles edit x' to modify it."
    );
    assert_eq!(StyleCommandError::EmptyDescription.message(), "Description cannot be empty");
    assert_eq!(StyleCommandError::EmptyPrompt.message(), "Prompt cannot be empty");
    assert_eq!(
        StyleCommandError::EditPreset("casual".to_string()).message(),
        "Cannot edit preset style 'casual'. Preset styles are immutable."
    );
    assert_eq!(
        StyleCommandError::RemovePreset("casual".to_string()).message(),
        "Cannot remove preset style 'casual'. Preset styles are immutable."
    );
    assert_eq!(
        StyleCommandError::NothingToEdit("x".to_string()).message(),
        "Style 'x' not found. Use 'tl styles add' to create it."
    );
    assert_eq!(StyleCommandError::NotFound("x".to_string()).message(), "Style 'x' not found");
    assert_eq!(
        StyleCommandError::Key(StyleError::PresetImmutable("casual".to_string())).message(),
        "Cannot modify preset style 'casual'"
    );
}

#[test]
fn list_and_show_styles() {
    let config = sample_config();
    assert_eq!(
        list_styles(&config, &plain()),
        vec![
            "Preset styles",
            "  casual      Casual, conversational tone",
            "  formal      Formal, business-appropriate",
            "  literal     Literal, close to source",
            "  natural     Natural, idiomatic",
            "",
            "Custom styles",
            "  ojisan      Ojisan texting",
        ]
    );
    assert_eq!(list_styles(&ConfigFile::default(), &plain()).len(), 5);
    let colored = Style::new(&OutputConfig { quiet: false, no_color: false });
    assert_eq!(
        list_styles(&ConfigFile::default(), &colored)[1],
        "  \x1b[36mcasual    \x1b[39m  \x1b[2mCasual, conversational tone\x1b[0m"
    );
    assert_eq!(
        show_style(&config, "formal", &plain()).unwrap(),
        vec![
            "Preset style",
            "",
            "  Name:  formal",
            "  Desc:  Formal, business-appropriate",
            "",
            "Prompt:",
            "Use a formal, polite, business-appropriate tone.",
        ]
    );
    assert_eq!(
        show_style(&config, "ojisan", &plain()).unwrap(),
        vec![
            "Custom style",
            "",
            "Name:  ojisan",
            "Desc:  Ojisan texting",
            "",
            "Prompt:",
            "Write like ojisan.",
        ]
    );
    match show_style(&config, "nope", &plain()) {
        Err(StyleCommandError::NotFound(name)) => assert_eq!(name, "nope"),
        _ => panic!("expected NotFound"),
    }
    let mut long = ConfigFile::default();
    long.styles.insert(
        "a_very_long_key".to_string(),
        CustomStyle { description: "d".to_string(), prompt: "p".to_string() },
    );
    assert_eq!(list_styles(&long, &plain())[7], "  a_very_long_key  d");
}

#[test]
fn provider_name_rules() {
    let config = sample_config();
    assert!(matches!(check_provider_name(&config, "  "), Err(ProviderCommandError::EmptyName)));
    for word in ["add", "edit", "remove", "list"] {
        assert!(reserved_name(word));
        assert!(matches!(
            check_provider_name(&config, word),
            Err(ProviderCommandError::ReservedName(_))
        ));
    }
    assert!(!reserved_name("Add"));
    match check_provider_name(&config, " ollama ") {
        Err(ProviderCommandError::AlreadyExists(name)) => assert_eq!(name, "ollama"),
        _ => panic!("expected AlreadyExists"),
    }
    assert_eq!(check_provider_name(&config, " openai ").unwrap(), "openai");
}

#[test]
fn endpoint_rules() {
    assert!(matches!(check_endpoint(" "), Err(ProviderCommandError::EmptyEndpoint)));
    assert!(matches!(check_endpoint("ftp://x"), Err(ProviderCommandError::EndpointScheme)));
    assert!(matches!(check_endpoint("HTTP://x"), Err(ProviderCommandError::EndpointScheme)));
    assert!(matches!(check_endpoint("http:/x"), Err(ProviderCommandError::EndpointScheme)));
    assert_eq!(check_endpoint(" http://localhost:11434 ").unwrap(), "http://localhost:11434");
    assert_eq!(check_endpoint("https://api.openai.com").unwrap(), "https://api.openai.com");
    assert_eq!(check_endpoint("http://").unwrap(), "http://");
}

#[test]
fn key_method_rules() {
    assert_eq!(default_key_method(None, None), KeyMethod::NoAuth);
    assert_eq!(default_key_method(Some("k"), None), KeyMethod::Stored);
    assert_eq!(default_key_method(Some("k"), Some("E")), KeyMethod::Environment);
    assert_eq!(default_key_method(None, Some("E")), KeyMethod::Environment);
    for method in [KeyMethod::Environment, KeyMethod::Stored, KeyMethod::NoAuth] {
        assert_eq!(KeyMethod::from_label(method.label()), Some(method));
    }
    assert_eq!(KeyMethod::Environment.index(), 0);
    assert_eq!(KeyMethod::Stored.index(), 1);
    assert_eq!(KeyMethod::NoAuth.index(), 2);
    assert_eq!(KeyMethod::Environment.label(), "Environment variable (recommended)");
    assert_eq!(KeyMethod::Stored.label(), "Store in config file");
    assert_eq!(KeyMethod::NoAuth.label(), "None (no auth required)");
    assert_eq!(KeyMethod::from_label("other"), None);

    assert_eq!(
        check_credential(KeyMethod::Environment, " MY_KEY ").unwrap(),
        (None, Some("MY_KEY".to_string()))
    );
    assert!(matches!(
        check_credential(KeyMethod::Environment, ""),
        Err(ProviderCommandError::EmptyVariable)
    ));
    assert_eq!(
        check_credential(KeyMethod::Stored, " sk-1 ").unwrap(),
        (Some("sk-1".to_string()), None)
    );
    assert!(matches!(
        check_credential(KeyMethod::Stored, " "),
        Err(ProviderCommandError::EmptyApiKey)
    ));
    assert_eq!(check_credential(KeyMethod::NoAuth, "ignored").unwrap(), (None, None));
}

#[test]
fn models_are_split_at_commas() {
    assert_eq!(parse_models("gpt-4o, llama3.2"), vec!["gpt-4o", "llama3.2"]);
    assert_eq!(parse_models(" a ,, b ,"), vec!["a", "b"]);
    assert!(parse_models("").is_empty());
    assert!(parse_models(" , ,").is_empty());
    assert_eq!(parse_models("one model"), vec!["one model"]);
    assert_eq!(models_answer(&vec!["a".to_string(), "b".to_string()]), "a, b");
    assert_eq!(models_answer(&vec![]), "");
    assert_eq!(parse_models(&models_answer(&vec!["a".to_string(), "b".to_string()])), vec!["a", "b"]);
}

fn answers(endpoint: &str, method: KeyMethod, credential: &str, models: &str) -> ProviderAnswers {
    ProviderAnswers {
        endpoint: endpoint.to_string(),
        key_method: method,
        credential: credential.to_string(),
        models: models.to_string(),
    }
}

#[test]
fn add_edit_remove_provider() {
    let mut config = sample_config();
    let good = answers(" https://api.openai.com ", KeyMethod::Environment, "OPENAI_API_KEY", "gpt-4o");
    assert!(matches!(
        add_provider(&mut config, "ollama", &good),
        Err(ProviderCommandError::AlreadyExists(_))
    ));
    assert!(matches!(
        add_provider(&mut config, "openai", &answers("x", KeyMethod::NoAuth, "", "")),
        Err(ProviderCommandError::EndpointScheme)
    ));
    assert!(matches!(
        add_provider(&mut config, "openai", &answers("http://x", KeyMethod::Stored, "", "")),
        Err(ProviderCommandError::EmptyApiKey)
    ));
    assert_eq!(config.providers.len(), 2);
    assert_eq!(add_provider(&mut config, " openai ", &good).unwrap(), "openai");
    let stored = config.providers.get("openai").unwrap();
    assert_eq!(stored.endpoint, "https://api.openai.com");
    assert_eq!(stored.api_key, None);
    assert_eq!(stored.api_key_env, Some("OPENAI_API_KEY".to_string()));
    assert_eq!(stored.models, vec!["gpt-4o"]);
    assert_eq!(build_provider(&good).unwrap().endpoint, "https://api.openai.com");

    assert!(matches!(
        edit_provider(&mut config, "missing", &good),
        Err(ProviderCommandError::NotFound(_))
    ));
    assert!(check_provider_exists(&config, "ollama").is_ok());
    assert!(edit_provider(
        &mut config,
        "ollama",
        &answers("http://other:1", KeyMethod::Stored, "sk", "")
    )
    .is_ok());
    let edited = config.providers.get("ollama").unwrap();
    assert_eq!(edited.endpoint, "http://other:1");
    assert_eq!(edited.api_key, Some("sk".to_string()));
    assert_eq!(edited.api_key_env, None);
    assert!(edited.models.is_empty());

    assert!(matches!(
        remove_provider(&mut config, "missing", true),
        Err(ProviderCommandError::NotFound(_))
    ));
    match remove_provider(&mut config, "ollama", true) {
        Err(ProviderCommandError::IsDefault(name)) => assert_eq!(name, "ollama"),
        _ => panic!("expected IsDefault"),
    }
    assert_eq!(check_provider_removable(&config, "openai").unwrap(), false);
    assert_eq!(remove_provider(&mut config, "openai", false).unwrap(), Removal::Cancelled);
    assert!(config.providers.contains_key("openai"));
    assert_eq!(
        remove_provider(&mut config, "openai", true).unwrap(),
        Removal::Removed { was_default: false }
    );
    assert!(!config.providers.contains_key("openai"));

    let mut single = ConfigFile::default();
    single.providers.insert(
        "only".to_string(),
        ProviderConfig { endpoint: "http://x".to_string(), api_key: None, api_key_env: None, models: vec![] },
    );
    assert_eq!(check_provider_removable(&single, "only").unwrap(), true);
}

#[test]
fn provider_command_error_messages_are_exact() {
    assert_eq!(ProviderCommandError::EmptyName.message(), "Provider name cannot be empty");
    assert_eq!(
        ProviderCommandError::ReservedName("add".to_string()).message(),
        "Provider name 'add' is reserved. Choose a different name."
    );
    assert_eq!(
        ProviderCommandError::AlreadyExists("x".to_string()).message(),
        "Provider 'x' already exists"
    );
    assert_eq!(ProviderCommandError::EmptyEndpoint.message(), "Endpoint URL cannot be empty");
    assert_eq!(
        ProviderCommandError::EndpointScheme.message(),
        "Endpoint must start with http:// or https://"
    );
    assert_eq!(
        ProviderCommandError::EmptyVariable.message(),
        "Environment variable name cannot be empty"
    );
    assert_eq!(ProviderCommandError::EmptyApiKey.message(), "API key cannot be empty");
    assert_eq!(ProviderCommandError::NotFound("x".to_string()).message(), "Provider 'x' not found");
    assert_eq!(
        ProviderCommandError::IsDefault("x".to_string()).message(),
        "Cannot remove 'x' because it is the default provider.\n\nRun 'tl configure' to change the default provider first."
    );
}

#[test]
fn list_providers_shows_each_provider() {
    assert_eq!(
        list_providers(&sample_config(), &plain()),
        vec![
            "Configured providers",
            "  ollama (default)",
            "    endpoint  http://localhost:11434",
            "    models    gemma3:12b, llama3.2",
            "  openrouter",
            "    endpoint  https://openrouter.ai/api",
        ]
    );
    assert_eq!(
        list_providers(&ConfigFile::default(), &plain()),
        vec!["No providers configured.", "Run 'tl providers add' to add a provider."]
    );
}

#[test]
fn configure_preselects_the_default() {
    let items = vec!["a".to_string(), "b".to_string(), "b".to_string()];
    assert_eq!(default_index(&items, Some("b")), 1);
    assert_eq!(default_index(&items, Some("a")), 0);
    assert_eq!(default_index(&items, Some("z")), 0);
    assert_eq!(default_index(&items, None), 0);
    assert_eq!(default_index(&vec![], Some("a")), 0);
    assert_eq!(language_default_index(Some("ja")), 33);
    assert_eq!(language_default_index(Some("af")), 0);
    assert_eq!(language_default_index(Some("zh-TW")), 76);
    assert_eq!(language_default_index(Some("xx")), 0);
    assert_eq!(language_default_index(None), 0);
    let config = sample_config();
    assert_eq!(style_default_index(&config, None), 0);
    assert_eq!(style_default_index(&config, Some("casual")), 1);
    assert_eq!(style_default_index(&config, Some("natural")), 4);
    assert_eq!(style_default_index(&config, Some("ojisan")), 5);
    assert_eq!(style_default_index(&config, Some("missing")), 0);
    assert_eq!(style_default_index(&config, Some("")), 0);
}

#[test]
fn configure_offers_options_and_reads_selections() {
    let options = language_options();
    assert_eq!(options.len(), 77);
    assert_eq!(options[33], "ja - Japanese");
    assert_eq!(options[76], "zh-TW - Chinese (Traditional)");
    assert_eq!(selection_key("ja - Japanese"), "ja");
    assert_eq!(selection_key("zh-TW - Chinese (Traditional)"), "zh-TW");
    assert_eq!(selection_key("a - b - c"), "a");
    assert_eq!(selection_key("plain"), "plain");
    assert_eq!(selection_key(" - x"), "");
    assert_eq!(selection_key(""), "");
    assert_eq!(
        style_options(&sample_config()),
        vec![
            "(none)",
            "casual - Casual, conversational tone",
            "formal - Formal, business-appropriate",
            "literal - Literal, close to source",
            "natural - Natural, idiomatic",
            "ojisan - Ojisan texting",
        ]
    );
    assert_eq!(style_of_selection("(none)"), None);
    assert_eq!(style_of_selection("formal - Formal, business-appropriate"), Some("formal".to_string()));
    assert_eq!(provider_models(&sample_config(), "ollama"), vec!["gemma3:12b", "llama3.2"]);
    assert!(provider_models(&sample_config(), "openrouter").is_empty());
    assert!(provider_models(&sample_config(), "missing").is_empty());
    assert_eq!(check_model_name(" m ").unwrap(), "m");
    assert_eq!(check_model_name(" "), Err(ConfigureError::EmptyModel));
}

#[test]
fn run_configure_sets_the_defaults() {
    let mut empty = ConfigFile::default();
    assert_eq!(check_configurable(&empty), Err(ConfigureError::NoProviders));
    assert_eq!(
        run_configure(&mut empty, "p".to_string(), "m".to_string(), "ja".to_string(), None),
        Err(ConfigureError::NoProviders)
    );
    assert_eq!(empty.tl.provider, None);
    assert_eq!(
        ConfigureError::NoProviders.message(),
        "No providers configured.\n\nRun 'tl providers add' to add a provider first."
    );
    assert_eq!(ConfigureError::EmptyModel.message(), "Model name cannot be empty");

    let mut config = sample_config();
    assert!(run_configure(
        &mut config,
        "openrouter".to_string(),
        "gpt-4o".to_string(),
        "en".to_string(),
        None
    )
    .is_ok());
    assert_eq!(config.tl.provider, Some("openrouter".to_string()));
    assert_eq!(config.tl.model, Some("gpt-4o".to_string()));
    assert_eq!(config.tl.to, Some("en".to_string()));
    assert_eq!(config.tl.style, None);
    assert_eq!(config.providers.len(), 2);
}

#[test]
fn current_defaults_are_shown() {
    let mut config = sample_config();
    config.tl.style = None;
    assert_eq!(
        print_current_defaults(&config, &plain()),
        vec![
            "Current defaults",
            "  provider  ollama",
            "  model     gemma3:12b",
            "  to        ja",
            "  style     (not set)",
            "",
        ]
    );
}

#[test]
fn session_config_is_resolved_with_custom_styles() {
    let options = ChatOptions { to: Some("en".to_string()), provider: None, model: None, style: None };
    let session = load_session_config(&options, &sample_config(), &Environment::new()).unwrap();
    assert_eq!(session.provider_name, "ollama");
    assert_eq!(session.endpoint, "http://localhost:11434");
    assert_eq!(session.model, "gemma3:12b");
    assert_eq!(session.to, "en");
    assert_eq!(session.style_name, Some("ojisan".to_string()));
    assert_eq!(session.style_prompt, Some("Write like ojisan.".to_string()));
    assert_eq!(session.custom_styles.get("ojisan").map(|s| s.prompt.as_str()), Some("Write like ojisan."));
    let resolve = options.resolve_options();
    assert_eq!(resolve.to, Some("en".to_string()));
    assert_eq!(resolve.provider, None);

    let bad = ChatOptions { to: None, provider: Some("nope".to_string()), model: None, style: None };
    assert!(matches!(
        load_session_config(&bad, &sample_config(), &Environment::new()),
        Err(ConfigError::ProviderNotFound { .. })
    ));
}
