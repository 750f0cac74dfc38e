//! The persisted configuration and its resolution into one request configuration.
//!
//! Resolution merges three sources, in this order of precedence: the options
//! given on the command line, the defaults of the configuration file, and the
//! registries (provider table, style table). It reads a snapshot of the
//! environment for credentials and touches neither disk nor network.

use vstd::prelude::*;
use vstd::string::*;
use crate::name_map::NameMap;
use crate::style::{find_preset, resolve_style, StyleError, StyleErrorView};
use crate::text::{join, joined, same_text, text_of, texts_of};

verus! {

/// A user-defined translation style.
#[derive(Debug)]
pub struct CustomStyle {
    /// Short description shown in listings.
    pub description: String,
    /// Prompt text appended to the system prompt.
    pub prompt: String,
}

impl Clone for CustomStyle {
    /// A style with the same description and prompt.
    fn clone(&self) -> (copy: Self)
        ensures
            copy.description@ == self.description@,
            copy.prompt@ == self.prompt@,
    {
        CustomStyle { description: self.description.clone(), prompt: self.prompt.clone() }
    }
}

/// Default settings in the `[tl]` section of the configuration file.
#[derive(Debug, Clone)]
pub struct TlConfig {
    /// Default provider name.
    pub provider: Option<String>,
    /// Default model name.
    pub model: Option<String>,
    /// Default target language (ISO 639-1 code).
    pub to: Option<String>,
    /// Default translation style key.
    pub style: Option<String>,
}

impl Default for TlConfig {
    fn default() -> (config: Self)
        ensures
            config.provider is None,
            config.model is None,
            config.to is None,
            config.style is None,
    {
        TlConfig { provider: None, model: None, to: None, style: None }
    }
}

/// Configuration for a translation provider.
///
/// A provider that configures neither `api_key` nor `api_key_env` needs no
/// credential. If either is configured, a key must resolve before use.
#[derive(Debug, Clone)]
pub struct ProviderConfig {
    /// The OpenAI-compatible API endpoint URL.
    pub endpoint: String,
    /// API key stored directly in the configuration.
    pub api_key: Option<String>,
    /// Name of the environment variable that holds the API key.
    pub api_key_env: Option<String>,
    /// Models offered by this provider. The list is advisory.
    pub models: Vec<String>,
}

/// A snapshot of the process environment: variable names and their values.
#[derive(Debug, Clone)]
pub struct Environment {
    vars: NameMap<String>,
}

impl View for Environment {
    type V = Map<Seq<char>, Seq<char>>;

    closed spec fn view(&self) -> Map<Seq<char>, Seq<char>> {
        Map::new(|name: Seq<char>| self.vars@.contains_key(name), |name: Seq<char>| self.vars@[name]@)
    }
}

impl Environment {
    /// An environment without variables.
    pub fn new() -> (env: Self)
        ensures
            env@ == Map::<Seq<char>, Seq<char>>::empty(),
    {
        let env = Environment { vars: NameMap::new() };
        assert(env@ =~= Map::<Seq<char>, Seq<char>>::empty());
        env
    }

    /// Sets the variable `name` to `value`.
    pub fn set(&mut self, name: &str, value: &str)
        ensures
            final(self)@ == old(self)@.insert(name@, value@),
    {
        let ghost before = self@;
        self.vars.insert(name.to_string(), value.to_string());
        assert(self@ =~= before.insert(name@, value@));
    }

    /// The value of the variable `name`, if it is set.
    pub fn var(&self, name: &str) -> (value: Option<&String>)
        ensures
            value is Some <==> self@.contains_key(name@),
            value matches Some(v) ==> v@ == self@[name@],
    {
        self.vars.get(name)
    }
}

/// The API key that a provider resolves to in a given environment.
///
/// The variable named by `api_key_env` wins when it is set and not empty;
/// otherwise the stored `api_key` is used.
pub open spec fn resolved_api_key(provider: ProviderConfig, env: Map<Seq<char>, Seq<char>>) -> Option<
    Seq<char>,
> {
    match provider.api_key_env {
        Some(name) if env.contains_key(name@) && env[name@].len() > 0 => Some(env[name@]),
        _ => text_of(provider.api_key),
    }
}

impl ProviderConfig {
    /// Whether the provider declares that it needs a credential.
    pub open spec fn needs_api_key(self) -> bool {
        self.api_key is Some || self.api_key_env is Some
    }

    /// Gets the API key, preferring the environment variable over the stored key.
    pub fn get_api_key(&self, env: &Environment) -> (key: Option<String>)
        ensures
            text_of(key) == resolved_api_key(*self, env@),
    {
        if let Some(name) = &self.api_key_env {
            if let Some(value) = env.var(name.as_str()) {
                if value.as_str().unicode_len() > 0 {
                    return Some(value.clone());
                }
            }
        }
        self.api_key.clone()
    }

    /// Returns `true` if this provider requires an API key.
    pub fn requires_api_key(&self) -> (required: bool)
        ensures
            required == self.needs_api_key(),
    {
        self.api_key.is_some() || self.api_key_env.is_some()
    }
}

/// The complete configuration file.
#[derive(Debug, Clone)]
pub struct ConfigFile {
    /// Default settings.
    pub tl: TlConfig,
    /// Provider configurations keyed by name.
    pub providers: NameMap<ProviderConfig>,
    /// Custom styles keyed by style key.
    pub styles: NameMap<CustomStyle>,
}

impl Default for ConfigFile {
    fn default() -> (file: Self)
        ensures
            file.tl.provider is None,
            file.tl.model is None,
            file.tl.to is None,
            file.tl.style is None,
            file.providers@ == Map::<Seq<char>, ProviderConfig>::empty(),
            file.styles@ == Map::<Seq<char>, CustomStyle>::empty(),
    {
        ConfigFile { tl: TlConfig::default(), providers: NameMap::new(), styles: NameMap::new() }
    }
}

/// Options given on the command line. Each one that is present wins over the
/// configuration file.
#[derive(Debug, Clone)]
pub struct ResolveOptions {
    /// Target language code override.
    pub to: Option<String>,
    /// Provider name override.
    pub provider: Option<String>,
    /// Model name override.
    pub model: Option<String>,
    /// Style key override.
    pub style: Option<String>,
}

impl Default for ResolveOptions {
    fn default() -> (options: Self)
        ensures
            options.to is None,
            options.provider is None,
            options.model is None,
            options.style is None,
    {
        ResolveOptions { to: None, provider: None, model: None, style: None }
    }
}

/// Resolved configuration after merging command-line options and configuration file.
#[derive(Debug, Clone)]
pub struct ResolvedConfig {
    /// The selected provider name.
    pub provider_name: String,
    /// The API endpoint URL.
    pub endpoint: String,
    /// The model to use for translation.
    pub model: String,
    /// The API key (if required).
    pub api_key: Option<String>,
    /// The target language code.
    pub target_language: String,
    /// The key of the selected style, if any.
    pub style_name: Option<String>,
    /// The prompt text of the selected style, if any.
    pub style_prompt: Option<String>,
}

/// A resolved configuration as a mathematical value.
pub struct ResolvedConfigView {
    pub provider_name: Seq<char>,
    pub endpoint: Seq<char>,
    pub model: Seq<char>,
    pub api_key: Option<Seq<char>>,
    pub target_language: Seq<char>,
    pub style_name: Option<Seq<char>>,
    pub style_prompt: Option<Seq<char>>,
}

impl View for ResolvedConfig {
    type V = ResolvedConfigView;

    open spec fn view(&self) -> ResolvedConfigView {
        ResolvedConfigView {
            provider_name: self.provider_name@,
            endpoint: self.endpoint@,
            model: self.model@,
            api_key: text_of(self.api_key),
            target_language: self.target_language@,
            style_name: text_of(self.style_name),
            style_prompt: text_of(self.style_prompt),
        }
    }
}

/// Why a configuration could not be resolved, as a mathematical value.
pub enum ConfigErrorView {
    MissingField(Seq<char>),
    ProviderNotFound { name: Seq<char>, available: Seq<Seq<char>> },
    StyleNotFound { key: Seq<char>, custom_keys: Seq<Seq<char>> },
    MissingCredential { provider: Seq<char>, env_var: Seq<char> },
}

/// Why a configuration could not be resolved.
#[derive(Debug, Clone)]
pub enum ConfigError {
    /// A required setting is absent from both the command line and the file.
    /// Holds the setting's name: `provider`, `model` or `to`.
    MissingField(String),
    /// The selected provider is not in the provider table. Holds the name and
    /// all names that are.
    ProviderNotFound { name: String, available: Vec<String> },
    /// The selected style is neither a preset nor a custom style. Holds the key
    /// and all custom keys.
    StyleNotFound { key: String, custom_keys: Vec<String> },
    /// The provider needs a credential and none resolved. Holds the provider's
    /// name and the environment variable to set.
    MissingCredential { provider: String, env_var: String },
}

impl View for ConfigError {
    type V = ConfigErrorView;

    open spec fn view(&self) -> ConfigErrorView {
        match *self {
            ConfigError::MissingField(name) => ConfigErrorView::MissingField(name@),
            ConfigError::ProviderNotFound { name, available } => ConfigErrorView::ProviderNotFound {
                name: name@,
                available: texts_of(available@),
            },
            ConfigError::StyleNotFound { key, custom_keys } => ConfigErrorView::StyleNotFound {
                key: key@,
                custom_keys: texts_of(custom_keys@),
            },
            ConfigError::MissingCredential { provider, env_var } => ConfigErrorView::MissingCredential {
                provider: provider@,
                env_var: env_var@,
            },
        }
    }
}

/// Where the configuration file lives, as shown in messages.
pub const CONFIG_FILE_HINT: &'static str = "~/.config/tl/config.toml";

impl ConfigErrorView {
    /// The message shown to the user.
    pub open spec fn message(self) -> Seq<char> {
        match self {
            ConfigErrorView::MissingField(name) => "Missing required configuration: '"@ + name + (
            if name == "to"@ {
                "' (target language)\n\nPlease provide it via:\n  - CLI option: tl --to <lang>"@
            } else {
                "'\n\nPlease provide it via:\n  - CLI option: tl --"@ + name + " <name>"@
            }) + "\n  - Config file: "@ + CONFIG_FILE_HINT@,
            ConfigErrorView::ProviderNotFound { name, available } => "Provider '"@ + name + (
            if available.len() == 0 {
                "' not found\n\nNo providers configured. Add providers to "@
            } else {
                "' not found\n\nAvailable providers:\n  - "@ + joined(available, "\n  - "@)
                    + "\n\nAdd providers to "@
            }) + CONFIG_FILE_HINT@,
            ConfigErrorView::StyleNotFound { key, custom_keys } => (StyleErrorView::NotFound {
                key,
                custom_keys,
            }).message(),
            ConfigErrorView::MissingCredential { provider, env_var } => "Provider '"@ + provider
                + "' requires an API key\n\nSet the "@ + env_var
                + " environment variable:\n  export "@ + env_var
                + "=\"your-api-key\"\n\nOr set api_key in "@ + CONFIG_FILE_HINT@,
        }
    }
}

impl ConfigError {
    /// The message shown to the user.
    pub fn message(&self) -> (out: String)
        ensures
            out@ == self@.message(),
    {
        match self {
            ConfigError::MissingField(name) => {
                let mut out = "Missing required configuration: '".to_string();
                out.append(name.as_str());
                if same_text(name.as_str(), "to") {
                    out.append(
                        "' (target language)\n\nPlease provide it via:\n  - CLI option: tl --to <lang>",
                    );
                } else {
                    out.append("'\n\nPlease provide it via:\n  - CLI option: tl --");
                    out.append(name.as_str());
                    out.append(" <name>");
                }
                out.append("\n  - Config file: ");
                out.append(CONFIG_FILE_HINT);
                assert(out@ =~= self@.message());
                out
            },
            ConfigError::ProviderNotFound { name, available } => {
                let mut out = "Provider '".to_string();
                out.append(name.as_str());
                if available.len() == 0 {
                    out.append("' not found\n\nNo providers configured. Add providers to ");
                } else {
                    out.append("' not found\n\nAvailable providers:\n  - ");
                    out.append(join(available, "\n  - ").as_str());
                    out.append("\n\nAdd providers to ");
                }
                out.append(CONFIG_FILE_HINT);
                assert(out@ =~= self@.message());
                out
            },
            ConfigError::StyleNotFound { key, custom_keys } => {
                let inner = StyleError::NotFound { key: key.clone(), custom_keys: custom_keys.clone() };
                assert(texts_of(inner->custom_keys@) =~= texts_of(custom_keys@));
                inner.message()
            },
            ConfigError::MissingCredential { provider, env_var } => {
                let mut out = "Provider '".to_string();
                out.append(provider.as_str());
                out.append("' requires an API key\n\nSet the ");
                out.append(env_var.as_str());
                out.append(" environment variable:\n  export ");
                out.append(env_var.as_str());
                out.append("=\"your-api-key\"\n\nOr set api_key in ");
                out.append(CONFIG_FILE_HINT);
                assert(out@ =~= self@.message());
                out
            },
        }
    }
}

/// The value of one setting: the command line's if it gives one, else the file's.
pub open spec fn chosen(cli: Option<String>, file: Option<String>) -> Option<Seq<char>> {
    match cli {
        Some(value) => Some(value@),
        None => text_of(file),
    }
}

/// The style selected by `key`: its key and its prompt text, or the error that
/// lists the custom keys.
pub open spec fn style_choice(key: Seq<char>, file: ConfigFile) -> Result<Seq<char>, ConfigErrorView> {
    match find_preset(key) {
        Some(preset) => Ok(preset.prompt@),
        None => if file.styles@.contains_key(key) {
            Ok(file.styles@[key].prompt@)
        } else {
            Err(ConfigErrorView::StyleNotFound { key, custom_keys: file.styles.names() })
        },
    }
}

/// The name of the environment variable that a user is told to set.
pub open spec fn credential_hint(provider: ProviderConfig) -> Seq<char> {
    match provider.api_key_env {
        Some(name) => name@,
        None => "API_KEY"@,
    }
}

/// What resolution answers, for every input.
///
/// The settings are resolved in this order, and the first failure is the
/// answer: provider, the provider's entry, model, target language, style,
/// credential. The provider's model list plays no part.
pub open spec fn resolution(
    options: ResolveOptions,
    file: ConfigFile,
    env: Map<Seq<char>, Seq<char>>,
) -> Result<ResolvedConfigView, ConfigErrorView> {
    match chosen(options.provider, file.tl.provider) {
        None => Err(ConfigErrorView::MissingField("provider"@)),
        Some(provider_name) => if !file.providers@.contains_key(provider_name) {
            Err(
                ConfigErrorView::ProviderNotFound {
                    name: provider_name,
                    available: file.providers.names(),
                },
            )
        } else {
            let provider = file.providers@[provider_name];
            match chosen(options.model, file.tl.model) {
                None => Err(ConfigErrorView::MissingField("model"@)),
                Some(model) => match chosen(options.to, file.tl.to) {
                    None => Err(ConfigErrorView::MissingField("to"@)),
                    Some(target_language) => {
                        let style_name = chosen(options.style, file.tl.style);
                        let style = match style_name {
                            Some(key) => match style_choice(key, file) {
                                Ok(prompt) => Ok(Some(prompt)),
                                Err(e) => Err(e),
                            },
                            None => Ok(None),
                        };
                        match style {
                            Err(e) => Err(e),
                            Ok(style_prompt) => {
                                let api_key = resolved_api_key(provider, env);
                                if provider.needs_api_key() && api_key is None {
                                    Err(
                                        ConfigErrorView::MissingCredential {
                                            provider: provider_name,
                                            env_var: credential_hint(provider),
                                        },
                                    )
                                } else {
                                    Ok(
                                        ResolvedConfigView {
                                            provider_name,
                                            endpoint: provider.endpoint@,
                                            model,
                                            api_key,
                                            target_language,
                                            style_name,
                                            style_prompt,
                                        },
                                    )
                                }
                            },
                        }
                    },
                },
            }
        },
    }
}

/// Picks the command line's value if there is one, else the file's.
fn choose_setting(cli: &Option<String>, file: &Option<String>) -> (value: Option<String>)
    ensures
        text_of(value) == chosen(*cli, *file),
{
    match cli {
        Some(v) => Some(v.clone()),
        None => file.clone(),
    }
}

/// Resolves configuration by merging command-line options with the
/// configuration file, the style registry and the environment snapshot.
///
/// It succeeds exactly when a provider, a model and a target language are
/// given by either source, the provider is in the provider table, a selected
/// style exists, and a provider that needs a credential resolves one. A model
/// outside the provider's model list does not make it fail.
pub fn resolve_config(options: &ResolveOptions, config_file: &ConfigFile, env: &Environment) -> (resolved:
    Result<ResolvedConfig, ConfigError>)
    ensures
        match resolved {
            Ok(config) => resolution(*options, *config_file, env@) == Ok::<
                ResolvedConfigView,
                ConfigErrorView,
            >(config@),
            Err(e) => resolution(*options, *config_file, env@) == Err::<
                ResolvedConfigView,
                ConfigErrorView,
            >(e@),
        },
{
    let provider_name = match choose_setting(&options.provider, &config_file.tl.provider) {
        Some(name) => name,
        None => {
            return Err(ConfigError::MissingField("provider".to_string()));
        },
    };
    let provider = match config_file.providers.get(provider_name.as_str()) {
        Some(provider) => provider,
        None => {
            return Err(
                ConfigError::ProviderNotFound {
                    name: provider_name,
                    available: config_file.providers.keys(),
                },
            );
        },
    };
    let model = match choose_setting(&options.model, &config_file.tl.model) {
        Some(model) => model,
        None => {
            return Err(ConfigError::MissingField("model".to_string()));
        },
    };
    let target_language = match choose_setting(&options.to, &config_file.tl.to) {
        Some(to) => to,
        None => {
            return Err(ConfigError::MissingField("to".to_string()));
        },
    };
    let style_name = choose_setting(&options.style, &config_file.tl.style);
    let style_prompt = match &style_name {
        Some(key) => match resolve_style(key.as_str(), &config_file.styles) {
            Ok(style) => Some(style.prompt().to_string()),
            Err(StyleError::NotFound { key, custom_keys }) => {
                return Err(ConfigError::StyleNotFound { key, custom_keys });
            },
            Err(_) => vstd::pervasive::unreached(),
        },
        None => None,
    };
    let api_key = provider.get_api_key(env);
    if provider.requires_api_key() && api_key.is_none() {
        let env_var = match &provider.api_key_env {
            Some(name) => name.clone(),
            None => "API_KEY".to_string(),
        };
        return Err(ConfigError::MissingCredential { provider: provider_name, env_var });
    }
    Ok(
        ResolvedConfig {
            provider_name,
            endpoint: provider.endpoint.clone(),
            model,
            api_key,
            target_language,
            style_name,
            style_prompt,
        },
    )
}

/// The text that warns of a model outside a non-empty model list.
pub open spec fn unlisted_model_text(
    model: Seq<char>,
    provider_name: Seq<char>,
    models: Seq<Seq<char>>,
) -> Seq<char> {
    "Model '"@ + model + "' is not in the configured models list for '"@ + provider_name
        + "'\nConfigured models: "@ + joined(models, ", "@) + "\nProceeding anyway...\n"@
}

/// The warning that a resolved configuration calls for, if any.
///
/// A provider's model list is advisory: a model outside a non-empty list is
/// used all the same, and the caller is handed this text to show.
pub open spec fn model_warning(resolved: ResolvedConfigView, file: ConfigFile) -> Option<Seq<char>> {
    if file.providers@.contains_key(resolved.provider_name) {
        let models = texts_of(file.providers@[resolved.provider_name].models@);
        if models.len() > 0 && !models.contains(resolved.model) {
            Some(unlisted_model_text(resolved.model, resolved.provider_name, models))
        } else {
            None
        }
    } else {
        None
    }
}

/// Tells whether `list` holds `text`.
pub fn list_contains(list: &Vec<String>, text: &str) -> (found: bool)
    ensures
        found == texts_of(list@).contains(text@),
{
    let mut i: usize = 0;
    while i < list.len()
        invariant
            i <= list@.len(),
            forall|j: int| 0 <= j < i ==> texts_of(list@)[j] != text@,
        decreases list@.len() - i,
    {
        if same_text(list[i].as_str(), text) {
            assert(texts_of(list@)[i as int] == text@);
            return true;
        }
        i += 1;
    }
    false
}

/// Returns the warning to show when the resolved model is not in the
/// provider's non-empty model list.
pub fn unlisted_model_warning(resolved: &ResolvedConfig, config_file: &ConfigFile) -> (warning: Option<
    String,
>)
    ensures
        text_of(warning) == model_warning(resolved@, *config_file),
{
    match config_file.providers.get(resolved.provider_name.as_str()) {
        Some(provider) => {
            if provider.models.len() > 0 && !list_contains(
                &provider.models,
                resolved.model.as_str(),
            ) {
                let mut out = "Model '".to_string();
                out.append(resolved.model.as_str());
                out.append("' is not in the configured models list for '");
                out.append(resolved.provider_name.as_str());
                out.append("'\nConfigured models: ");
                out.append(join(&provider.models, ", ").as_str());
                out.append("\nProceeding anyway...\n");
                Some(out)
            } else {
                None
            }
        },
        None => None,
    }
}

/// The command line wins: a setting given there is the resolved setting, and
/// the file's default is used only where the command line is silent.
pub proof fn lemma_command_line_wins(
    options: ResolveOptions,
    file: ConfigFile,
    env: Map<Seq<char>, Seq<char>>,
)
    requires
        resolution(options, file, env) is Ok,
    ensures
        ({
            let resolved = resolution(options, file, env)->Ok_0;
            &&& resolved.provider_name == chosen(options.provider, file.tl.provider)->0
            &&& resolved.model == chosen(options.model, file.tl.model)->0
            &&& resolved.target_language == chosen(options.to, file.tl.to)->0
            &&& resolved.style_name == chosen(options.style, file.tl.style)
            &&& options.provider matches Some(name) ==> resolved.provider_name == name@
            &&& options.model matches Some(model) ==> resolved.model == model@
            &&& options.to matches Some(to) ==> resolved.target_language == to@
            &&& options.style matches Some(style) ==> resolved.style_name == Some(style@)
            &&& options.model is None ==> file.tl.model is Some && resolved.model
                == file.tl.model->0@
        }),
{
}

/// Without a provider on the command line and in the file, resolution fails
/// with `MissingField("provider")`, whatever else is given.
pub proof fn lemma_no_provider_is_missing_field(
    options: ResolveOptions,
    file: ConfigFile,
    env: Map<Seq<char>, Seq<char>>,
)
    requires
        options.provider is None,
        file.tl.provider is None,
    ensures
        resolution(options, file, env) == Err::<ResolvedConfigView, ConfigErrorView>(
            ConfigErrorView::MissingField("provider"@),
        ),
{
}

/// A provider that needs a credential and resolves none makes resolution fail
/// with `MissingCredential`, once provider, model, target language and style
/// are settled.
pub proof fn lemma_unresolved_credential_is_missing(
    options: ResolveOptions,
    file: ConfigFile,
    env: Map<Seq<char>, Seq<char>>,
)
    requires
        chosen(options.provider, file.tl.provider) is Some,
        file.providers@.contains_key(chosen(options.provider, file.tl.provider)->0),
        chosen(options.model, file.tl.model) is Some,
        chosen(options.to, file.tl.to) is Some,
        chosen(options.style, file.tl.style) matches Some(key) ==> style_choice(key, file) is Ok,
        ({
            let provider = file.providers@[chosen(options.provider, file.tl.provider)->0];
            &&& provider.needs_api_key()
            &&& provider.api_key is None
            &&& provider.api_key_env matches Some(name) ==> !env.contains_key(name@)
                || env[name@].len() == 0
        }),
    ensures
        ({
            let name = chosen(options.provider, file.tl.provider)->0;
            resolution(options, file, env) == Err::<ResolvedConfigView, ConfigErrorView>(
                ConfigErrorView::MissingCredential {
                    provider: name,
                    env_var: credential_hint(file.providers@[name]),
                },
            )
        }),
{
}

/// The provider's model list never decides: resolution gives the same answer
/// whatever models the selected provider lists.
pub proof fn lemma_model_list_is_advisory(
    options: ResolveOptions,
    file: ConfigFile,
    other: ConfigFile,
    env: Map<Seq<char>, Seq<char>>,
)
    requires
        other.tl == file.tl,
        other.styles == file.styles,
        other.providers.names() == file.providers.names(),
        other.providers@.dom() == file.providers@.dom(),
        forall|name: Seq<char>| #[trigger]
            file.providers@.contains_key(name) ==> {
                &&& other.providers@[name].endpoint == file.providers@[name].endpoint
                &&& other.providers@[name].api_key == file.providers@[name].api_key
                &&& other.providers@[name].api_key_env == file.providers@[name].api_key_env
            },
    ensures
        resolution(options, other, env) == resolution(options, file, env),
{
    match chosen(options.provider, file.tl.provider) {
        Some(name) => {
            assert(other.providers@.contains_key(name) == other.providers@.dom().contains(name));
            assert(file.providers@.contains_key(name) == file.providers@.dom().contains(name));
        },
        None => {},
    }
}

} // verus!
