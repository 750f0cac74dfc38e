use tl_cli::config::{
    resolve_config, unlisted_model_warning, ConfigError, ConfigFile, CustomStyle, Environment,
    ProviderConfig, ResolveOptions, TlConfig,
};
use tl_cli::name_map::NameMap;

#[test]
fn test_provider_get_api_key_from_env() {
    let mut env = Environment::new();
    env.set("TEST_API_KEY", "test-key-value");

    let provider = ProviderConfig {
        endpoint: "https://api.example.com".to_string(),
        api_key: Some("fallback-key".to_string()),
        api_key_env: Some("TEST_API_KEY".to_string()),
        models: vec![],
    };

    // Environment variable takes priority
    assert_eq!(provider.get_api_key(&env), Some("test-key-value".to_string()));
}

#[test]
fn test_provider_get_api_key_fallback() {
    let env = Environment::new();

    let provider = ProviderConfig {
        endpoint: "https://api.example.com".to_string(),
        api_key: Some("fallback-key".to_string()),
        api_key_env: Some("NONEXISTENT_KEY".to_string()),
        models: vec![],
    };

    // Falls back to api_key when env var not set
    assert_eq!(provider.get_api_key(&env), Some("fallback-key".to_string()));
}

#[test]
fn test_provider_requires_api_key() {
    let provider_with_key = ProviderConfig {
        endpoint: "https://api.example.com".to_string(),
        api_key: Some("key".to_string()),
        api_key_env: None,
        models: vec![],
    };
    assert!(provider_with_key.requires_api_key());

    let provider_with_env = ProviderConfig {
        endpoint: "https://api.example.com".to_string(),
        api_key: None,
        api_key_env: Some("API_KEY".to_string()),
        models: vec![],
    };
    assert!(provider_with_env.requires_api_key());

    let provider_without = ProviderConfig {
        endpoint: "http://localhost:11434".to_string(),
        api_key: None,
        api_key_env: None,
        models: vec![],
    };
    assert!(!provider_without.requires_api_key());
}

fn create_test_options() -> ResolveOptions {
    ResolveOptions {
        to: Some("ja".to_string()),
        provider: Some("ollama".to_string()),
        model: Some("gemma3:12b".to_string()),
        style: None,
    }
}

fn create_test_config() -> ConfigFile {
    let mut providers = NameMap::new();
    providers.insert(
        "ollama".to_string(),
        ProviderConfig {
            endpoint: "http://localhost:11434".to_string(),
            api_key: None,
            api_key_env: None,
            models: vec!["gemma3:12b".to_string()],
        },
    );
    providers.insert(
        "openrouter".to_string(),
        ProviderConfig {
            endpoint: "https://openrouter.ai/api".to_string(),
            api_key: None,
            api_key_env: Some("TL_TEST_NONEXISTENT_API_KEY".to_string()),
            models: vec!["gpt-4o".to_string()],
        },
    );

    ConfigFile {
        tl: TlConfig {
            provider: Some("ollama".to_string()),
            model: Some("gemma3:12b".to_string()),
            to: Some("ja".to_string()),
            style: None,
        },
        providers,
        styles: NameMap::new(),
    }
}

#[test]
fn manager_test_resolve_config_with_cli_options() {
    let options = create_test_options();
    let config = create_test_config();

    let resolved = resolve_config(&options, &config, &Environment::new()).unwrap();

    assert_eq!(resolved.provider_name, "ollama");
    assert_eq!(resolved.endpoint, "http://localhost:11434");
    assert_eq!(resolved.model, "gemma3:12b");
    assert_eq!(resolved.target_language, "ja");
    assert!(resolved.api_key.is_none());
}

#[test]
fn manager_test_resolve_config_cli_overrides_file() {
    let mut options = create_test_options();
    options.to = Some("en".to_string());
    options.model = Some("llama3".to_string());

    let config = create_test_config();

    let resolved = resolve_config(&options, &config, &Environment::new()).unwrap();

    assert_eq!(resolved.target_language, "en");
    assert_eq!(resolved.model, "llama3");
}

#[test]
fn manager_test_resolve_config_falls_back_to_file() {
    let options = ResolveOptions::default();
    let config = create_test_config();

    let resolved = resolve_config(&options, &config, &Environment::new()).unwrap();

    assert_eq!(resolved.provider_name, "ollama");
    assert_eq!(resolved.model, "gemma3:12b");
    assert_eq!(resolved.target_language, "ja");
}

#[test]
fn manager_test_resolve_config_missing_provider() {
    let options = ResolveOptions {
        to: Some("ja".to_string()),
        provider: None,
        model: Some("model".to_string()),
        style: None,
    };
    let config = ConfigFile::default();

    let result = resolve_config(&options, &config, &Environment::new());

    assert!(result.is_err());
    assert!(result.unwrap_err().message().contains("provider"));
}

#[test]
fn manager_test_resolve_config_provider_not_found() {
    let mut options = create_test_options();
    options.provider = Some("nonexistent".to_string());

    let config = create_test_config();

    let result = resolve_config(&options, &config, &Environment::new());

    assert!(result.is_err());
    assert!(result.unwrap_err().message().contains("not found"));
}

#[test]
fn manager_test_resolve_config_missing_model() {
    let mut options = create_test_options();
    options.model = None;

    let mut config = create_test_config();
    config.tl.model = None;

    let result = resolve_config(&options, &config, &Environment::new());

    assert!(result.is_err());
    assert!(result.unwrap_err().message().contains("model"));
}

#[test]
fn manager_test_resolve_config_missing_target_language() {
    let mut options = create_test_options();
    options.to = None;

    let mut config = create_test_config();
    config.tl.to = None;

    let result = resolve_config(&options, &config, &Environment::new());

    assert!(result.is_err());
    assert!(result.unwrap_err().message().contains("to"));
}

#[test]
fn manager_test_resolve_config_api_key_required_but_missing() {
    let mut options = create_test_options();
    options.provider = Some("openrouter".to_string());

    let config = create_test_config();

    let result = resolve_config(&options, &config, &Environment::new());

    assert!(result.is_err());
    assert!(result.unwrap_err().message().contains("API key"));
}

fn make_config_with_defaults() -> ConfigFile {
    let mut providers = NameMap::new();
    providers.insert(
        "test_provider".to_string(),
        ProviderConfig {
            endpoint: "http://test.local".to_string(),
            api_key: Some("test_key".to_string()),
            api_key_env: None,
            models: vec!["test_model".to_string()],
        },
    );

    let mut styles = NameMap::new();
    styles.insert(
        "custom_style".to_string(),
        CustomStyle {
            description: "Test custom style".to_string(),
            prompt: "Test prompt".to_string(),
        },
    );

    ConfigFile {
        tl: TlConfig {
            provider: Some("test_provider".to_string()),
            model: Some("config_model".to_string()),
            to: Some("ja".to_string()),
            style: Some("formal".to_string()),
        },
        providers,
        styles,
    }
}

#[test]
fn test_cli_style_overrides_config_style() {
    let config = make_config_with_defaults();
    let options = ResolveOptions {
        to: None,
        provider: None,
        model: None,
        style: Some("casual".to_string()), // CLI specifies casual
    };

    let resolved = resolve_config(&options, &config, &Environment::new()).unwrap();

    // CLI style should override config style
    assert_eq!(resolved.style_name, Some("casual".to_string()));
    assert!(resolved.style_prompt.is_some());
    assert!(resolved.style_prompt.as_ref().unwrap().contains("casual"));
}

#[test]
fn test_cli_style_can_use_custom_style() {
    let config = make_config_with_defaults();
    let options = ResolveOptions {
        to: None,
        provider: None,
        model: None,
        style: Some("custom_style".to_string()), // CLI specifies custom style
    };

    let resolved = resolve_config(&options, &config, &Environment::new()).unwrap();

    assert_eq!(resolved.style_name, Some("custom_style".to_string()));
    assert_eq!(resolved.style_prompt, Some("Test prompt".to_string()));
}

#[test]
fn test_config_style_used_when_cli_not_specified() {
    let config = make_config_with_defaults();
    let options = ResolveOptions {
        to: None,
        provider: None,
        model: None,
        style: None, // CLI doesn't specify style
    };

    let resolved = resolve_config(&options, &config, &Environment::new()).unwrap();

    // Should use config's default style (formal)
    assert_eq!(resolved.style_name, Some("formal".to_string()));
    assert!(resolved.style_prompt.is_some());
}

#[test]
fn test_cli_to_overrides_config_to() {
    let config = make_config_with_defaults();
    let options = ResolveOptions {
        to: Some("en".to_string()), // CLI specifies English
        provider: None,
        model: None,
        style: None,
    };

    let resolved = resolve_config(&options, &config, &Environment::new()).unwrap();

    // CLI target language should override config
    assert_eq!(resolved.target_language, "en");
}

#[test]
fn test_cli_model_overrides_config_model() {
    let config = make_config_with_defaults();
    let options = ResolveOptions {
        to: None,
        provider: None,
        model: Some("cli_model".to_string()), // CLI specifies model
        style: None,
    };

    let resolved = resolve_config(&options, &config, &Environment::new()).unwrap();

    // CLI model should override config
    assert_eq!(resolved.model, "cli_model");
}

#[test]
fn test_cli_provider_overrides_config_provider() {
    let mut config = make_config_with_defaults();
    config.providers.insert(
        "other_provider".to_string(),
        ProviderConfig {
            endpoint: "http://other.local".to_string(),
            api_key: Some("other_key".to_string()),
            api_key_env: None,
            models: vec!["other_model".to_string()],
        },
    );

    let options = ResolveOptions {
        to: None,
        provider: Some("other_provider".to_string()), // CLI specifies different provider
        model: None,
        style: None,
    };

    let resolved = resolve_config(&options, &config, &Environment::new()).unwrap();

    // CLI provider should override config
    assert_eq!(resolved.provider_name, "other_provider");
    assert_eq!(resolved.endpoint, "http://other.local");
}

#[test]
fn test_invalid_style_returns_error() {
    let config = make_config_with_defaults();
    let options = ResolveOptions {
        to: None,
        provider: None,
        model: None,
        style: Some("nonexistent_style".to_string()),
    };

    let result = resolve_config(&options, &config, &Environment::new());
    assert!(result.is_err());
}

#[test]
fn test_all_cli_options_override_config() {
    let mut config = make_config_with_defaults();
    config.providers.insert(
        "cli_provider".to_string(),
        ProviderConfig {
            endpoint: "http://cli.local".to_string(),
            api_key: Some("cli_key".to_string()),
            api_key_env: None,
            models: vec!["cli_model".to_string()],
        },
    );

    let options = ResolveOptions {
        to: Some("zh".to_string()),
        provider: Some("cli_provider".to_string()),
        model: Some("cli_specified_model".to_string()),
        style: Some("literal".to_string()),
    };

    let resolved = resolve_config(&options, &config, &Environment::new()).unwrap();

    // All CLI options should override config
    assert_eq!(resolved.target_language, "zh");
    assert_eq!(resolved.provider_name, "cli_provider");
    assert_eq!(resolved.model, "cli_specified_model");
    assert_eq!(resolved.style_name, Some("literal".to_string()));
}

#[test]
fn cli_model_wins_and_file_model_is_the_fallback() {
    let mut config = make_config_with_defaults();
    config.tl.model = Some("y".to_string());
    let mut options = ResolveOptions::default();
    options.model = Some("x".to_string());
    assert_eq!(resolve_config(&options, &config, &Environment::new()).unwrap().model, "x");
    options.model = None;
    assert_eq!(resolve_config(&options, &config, &Environment::new()).unwrap().model, "y");
}

#[test]
fn no_provider_anywhere_is_missing_field_provider() {
    let options = ResolveOptions::default();
    let config = ConfigFile::default();
    match resolve_config(&options, &config, &Environment::new()) {
        Err(ConfigError::MissingField(name)) => assert_eq!(name, "provider"),
        _ => panic!("expected MissingField"),
    }
}

#[test]
fn missing_model_and_target_language_are_named() {
    let mut config = create_test_config();
    config.tl.model = None;
    config.tl.to = None;
    let mut options = ResolveOptions::default();
    match resolve_config(&options, &config, &Environment::new()) {
        Err(ConfigError::MissingField(name)) => assert_eq!(name, "model"),
        _ => panic!("expected MissingField"),
    }
    options.model = Some("m".to_string());
    match resolve_config(&options, &config, &Environment::new()) {
        Err(ConfigError::MissingField(name)) => assert_eq!(name, "to"),
        _ => panic!("expected MissingField"),
    }
}

#[test]
fn provider_not_found_lists_all_provider_names() {
    let mut options = create_test_options();
    options.provider = Some("nonexistent".to_string());
    match resolve_config(&options, &create_test_config(), &Environment::new()) {
        Err(ConfigError::ProviderNotFound { name, available }) => {
            assert_eq!(name, "nonexistent");
            assert_eq!(available, vec!["ollama", "openrouter"]);
        }
        _ => panic!("expected ProviderNotFound"),
    }
}

#[test]
fn provider_is_checked_before_model() {
    let options = ResolveOptions {
        to: None,
        provider: Some("nonexistent".to_string()),
        model: None,
        style: None,
    };
    assert!(matches!(
        resolve_config(&options, &ConfigFile::default(), &Environment::new()),
        Err(ConfigError::ProviderNotFound { .. })
    ));
}

#[test]
fn style_not_found_lists_custom_keys() {
    let config = make_config_with_defaults();
    let mut options = ResolveOptions::default();
    options.style = Some("nonexistent_style".to_string());
    match resolve_config(&options, &config, &Environment::new()) {
        Err(ConfigError::StyleNotFound { key, custom_keys }) => {
            assert_eq!(key, "nonexistent_style");
            assert_eq!(custom_keys, vec!["custom_style"]);
        }
        _ => panic!("expected StyleNotFound"),
    }
}

#[test]
fn absent_style_is_valid() {
    let resolved =
        resolve_config(&create_test_options(), &create_test_config(), &Environment::new()).unwrap();
    assert_eq!(resolved.style_name, None);
    assert_eq!(resolved.style_prompt, None);
}

#[test]
fn missing_credential_names_the_variable_to_set() {
    let mut options = create_test_options();
    options.provider = Some("openrouter".to_string());
    match resolve_config(&options, &create_test_config(), &Environment::new()) {
        Err(ConfigError::MissingCredential { provider, env_var }) => {
            assert_eq!(provider, "openrouter");
            assert_eq!(env_var, "TL_TEST_NONEXISTENT_API_KEY");
        }
        _ => panic!("expected MissingCredential"),
    }
}

#[test]
fn empty_environment_value_does_not_count_as_credential() {
    let mut options = create_test_options();
    options.provider = Some("openrouter".to_string());
    let mut env = Environment::new();
    env.set("TL_TEST_NONEXISTENT_API_KEY", "");
    assert!(matches!(
        resolve_config(&options, &create_test_config(), &env),
        Err(ConfigError::MissingCredential { .. })
    ));
    env.set("TL_TEST_NONEXISTENT_API_KEY", "secret");
    let resolved = resolve_config(&options, &create_test_config(), &env).unwrap();
    assert_eq!(resolved.api_key, Some("secret".to_string()));
}

#[test]
fn empty_environment_value_falls_back_to_stored_key() {
    let provider = ProviderConfig {
        endpoint: "e".to_string(),
        api_key: Some("stored".to_string()),
        api_key_env: Some("K".to_string()),
        models: vec![],
    };
    let mut env = Environment::new();
    env.set("K", "");
    assert_eq!(provider.get_api_key(&env), Some("stored".to_string()));
    env.set("K", "from-env");
    assert_eq!(provider.get_api_key(&env), Some("from-env".to_string()));
    env.set("OTHER", "x");
    assert_eq!(env.var("OTHER").map(|v| v.as_str()), Some("x"));
    assert!(env.var("MISSING").is_none());
}

#[test]
fn provider_without_credential_fields_resolves_without_key() {
    let resolved =
        resolve_config(&create_test_options(), &create_test_config(), &Environment::new()).unwrap();
    assert_eq!(resolved.api_key, None);
}

#[test]
fn model_outside_the_list_resolves_with_a_warning() {
    let mut options = create_test_options();
    options.model = Some("llama3".to_string());
    let config = create_test_config();
    let resolved = resolve_config(&options, &config, &Environment::new()).unwrap();
    assert_eq!(resolved.model, "llama3");
    assert_eq!(
        unlisted_model_warning(&resolved, &config),
        Some(
            "Model 'llama3' is not in the configured models list for 'ollama'\nConfigured models: gemma3:12b\nProceeding anyway...\n"
                .to_string()
        )
    );
}

#[test]
fn listed_model_and_empty_list_give_no_warning() {
    let config = create_test_config();
    let resolved = resolve_config(&create_test_options(), &config, &Environment::new()).unwrap();
    assert_eq!(unlisted_model_warning(&resolved, &config), None);

    let mut open = ConfigFile::default();
    open.providers.insert(
        "ollama".to_string(),
        ProviderConfig {
            endpoint: "http://localhost:11434".to_string(),
            api_key: None,
            api_key_env: None,
            models: vec![],
        },
    );
    let resolved = resolve_config(&create_test_options(), &open, &Environment::new()).unwrap();
    assert_eq!(unlisted_model_warning(&resolved, &open), None);
}

#[test]
fn config_error_messages_are_exact() {
    assert_eq!(
        ConfigError::MissingField("provider".to_string()).message(),
        "Missing required configuration: 'provider'\n\nPlease provide it via:\n  - CLI option: tl --provider <name>\n  - Config file: ~/.config/tl/config.toml"
    );
    assert_eq!(
        ConfigError::MissingField("model".to_string()).message(),
        "Missing required configuration: 'model'\n\nPlease provide it via:\n  - CLI option: tl --model <name>\n  - Config file: ~/.config/tl/config.toml"
    );
    assert_eq!(
        ConfigError::MissingField("to".to_string()).message(),
        "Missing required configuration: 'to' (target language)\n\nPlease provide it via:\n  - CLI option: tl --to <lang>\n  - Config file: ~/.config/tl/config.toml"
    );
    assert_eq!(
        ConfigError::ProviderNotFound { name: "x".to_string(), available: vec![] }.message(),
        "Provider 'x' not found\n\nNo providers configured. Add providers to ~/.config/tl/config.toml"
    );
    assert_eq!(
        ConfigError::ProviderNotFound {
            name: "x".to_string(),
            available: vec!["a".to_string(), "b".to_string()]
        }
        .message(),
        "Provider 'x' not found\n\nAvailable providers:\n  - a\n  - b\n\nAdd providers to ~/.config/tl/config.toml"
    );
    assert_eq!(
        ConfigError::StyleNotFound { key: "s".to_string(), custom_keys: vec!["mine".to_string()] }
            .message(),
        "Style 's' not found\n\nAvailable styles: casual, formal, literal, natural, mine"
    );
    assert_eq!(
        ConfigError::MissingCredential { provider: "p".to_string(), env_var: "KEY".to_string() }
            .message(),
        "Provider 'p' requires an API key\n\nSet the KEY environment variable:\n  export KEY=\"your-api-key\"\n\nOr set api_key in ~/.config/tl/config.toml"
    );
}

#[test]
fn stored_key_without_variable_hints_at_api_key() {
    // A provider with a stored key always resolves; the generic hint shows
    // only in the message of a provider that names no variable.
    let mut config = ConfigFile::default();
    config.providers.insert(
        "p".to_string(),
        ProviderConfig {
            endpoint: "e".to_string(),
            api_key: Some("k".to_string()),
            api_key_env: None,
            models: vec![],
        },
    );
    let options = ResolveOptions {
        to: Some("ja".to_string()),
        provider: Some("p".to_string()),
        model: Some("m".to_string()),
        style: None,
    };
    let resolved = resolve_config(&options, &config, &Environment::new()).unwrap();
    assert_eq!(resolved.api_key, Some("k".to_string()));
}
