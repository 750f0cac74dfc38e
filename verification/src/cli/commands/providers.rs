//! Adding, editing and removing providers.

use vstd::prelude::*;
use vstd::string::*;
use crate::cli::commands::styles::Removal;
use crate::config::{ConfigFile, ProviderConfig};
use crate::chat::ui::{row, write_row};
use crate::split::{char_texts, pieces, split_on};
use crate::ui::theme::Style;
use crate::text::{
    from_char_range, has_prefix, join, joined, same_text, str_starts_with, text_of, texts_of,
    to_chars, trim, trim_bounds, trimmed,
};

verus! {

/// `name` is one of the words of the command line and cannot name a provider.
pub open spec fn is_reserved_name(name: Seq<char>) -> bool {
    name == "add"@ || name == "edit"@ || name == "remove"@ || name == "list"@
}

/// Tells whether `name` is reserved.
pub fn reserved_name(name: &str) -> (yes: bool)
    ensures
        yes == is_reserved_name(name@),
{
    same_text(name, "add") || same_text(name, "edit") || same_text(name, "remove") || same_text(
        name,
        "list",
    )
}

/// Why a provider command did nothing.
#[derive(Debug, Clone)]
pub enum ProviderCommandError {
    /// The name is empty.
    EmptyName,
    /// The name is a word of the command line.
    ReservedName(String),
    /// A provider with this name exists already.
    AlreadyExists(String),
    /// The endpoint is empty.
    EmptyEndpoint,
    /// The endpoint starts with neither `http://` nor `https://`.
    EndpointScheme,
    /// The name of the environment variable is empty.
    EmptyVariable,
    /// The API key is empty.
    EmptyApiKey,
    /// There is no provider with this name.
    NotFound(String),
    /// The provider is the default provider and cannot be removed.
    IsDefault(String),
}

/// Why a provider command did nothing, as a mathematical value.
pub enum ProviderCommandErrorView {
    EmptyName,
    ReservedName(Seq<char>),
    AlreadyExists(Seq<char>),
    EmptyEndpoint,
    EndpointScheme,
    EmptyVariable,
    EmptyApiKey,
    NotFound(Seq<char>),
    IsDefault(Seq<char>),
}

impl View for ProviderCommandError {
    type V = ProviderCommandErrorView;

    open spec fn view(&self) -> ProviderCommandErrorView {
        match *self {
            ProviderCommandError::EmptyName => ProviderCommandErrorView::EmptyName,
            ProviderCommandError::ReservedName(name) => ProviderCommandErrorView::ReservedName(
                name@,
            ),
            ProviderCommandError::AlreadyExists(name) => ProviderCommandErrorView::AlreadyExists(
                name@,
            ),
            ProviderCommandError::EmptyEndpoint => ProviderCommandErrorView::EmptyEndpoint,
            ProviderCommandError::EndpointScheme => ProviderCommandErrorView::EndpointScheme,
            ProviderCommandError::EmptyVariable => ProviderCommandErrorView::EmptyVariable,
            ProviderCommandError::EmptyApiKey => ProviderCommandErrorView::EmptyApiKey,
            ProviderCommandError::NotFound(name) => ProviderCommandErrorView::NotFound(name@),
            ProviderCommandError::IsDefault(name) => ProviderCommandErrorView::IsDefault(name@),
        }
    }
}

impl ProviderCommandErrorView {
    /// The message shown to the user.
    pub open spec fn message(self) -> Seq<char> {
        match self {
            ProviderCommandErrorView::EmptyName => "Provider name cannot be empty"@,
            ProviderCommandErrorView::ReservedName(name) => "Provider name '"@ + name
                + "' is reserved. Choose a different name."@,
            ProviderCommandErrorView::AlreadyExists(name) => "Provider '"@ + name
                + "' already exists"@,
            ProviderCommandErrorView::EmptyEndpoint => "Endpoint URL cannot be empty"@,
            ProviderCommandErrorView::EndpointScheme =>
                "Endpoint must start with http:// or https://"@,
            ProviderCommandErrorView::EmptyVariable =>
                "Environment variable name cannot be empty"@,
            ProviderCommandErrorView::EmptyApiKey => "API key cannot be empty"@,
            ProviderCommandErrorView::NotFound(name) => "Provider '"@ + name + "' not found"@,
            ProviderCommandErrorView::IsDefault(name) => "Cannot remove '"@ + name
                + "' because it is the default provider.\n\nRun 'tl configure' to change the default provider first."@,
        }
    }
}

impl ProviderCommandError {
    /// The message shown to the user.
    pub fn message(&self) -> (out: String)
        ensures
            out@ == self@.message(),
    {
        match self {
            ProviderCommandError::EmptyName => "Provider name cannot be empty".to_string(),
            ProviderCommandError::ReservedName(name) => {
                let mut out = "Provider name '".to_string();
                out.append(name.as_str());
                out.append("' is reserved. Choose a different name.");
                out
            },
            ProviderCommandError::AlreadyExists(name) => {
                let mut out = "Provider '".to_string();
                out.append(name.as_str());
                out.append("' already exists");
                out
            },
            ProviderCommandError::EmptyEndpoint => "Endpoint URL cannot be empty".to_string(),
            ProviderCommandError::EndpointScheme => {
                "Endpoint must start with http:// or https://".to_string()
            },
            ProviderCommandError::EmptyVariable => {
                "Environment variable name cannot be empty".to_string()
            },
            ProviderCommandError::EmptyApiKey => "API key cannot be empty".to_string(),
            ProviderCommandError::NotFound(name) => {
                let mut out = "Provider '".to_string();
                out.append(name.as_str());
                out.append("' not found");
                out
            },
            ProviderCommandError::IsDefault(name) => {
                let mut out = "Cannot remove '".to_string();
                out.append(name.as_str());
                out.append(
                    "' because it is the default provider.\n\nRun 'tl configure' to change the default provider first.",
                );
                out
            },
        }
    }
}

/// The name of a provider to add: the trimmed answer, if it is not empty, not
/// reserved, and not taken.
pub open spec fn new_provider_name(file: ConfigFile, answer: Seq<char>) -> Result<
    Seq<char>,
    ProviderCommandErrorView,
> {
    let name = trimmed(answer);
    if name.len() == 0 {
        Err(ProviderCommandErrorView::EmptyName)
    } else if is_reserved_name(name) {
        Err(ProviderCommandErrorView::ReservedName(name))
    } else if file.providers@.contains_key(name) {
        Err(ProviderCommandErrorView::AlreadyExists(name))
    } else {
        Ok(name)
    }
}

/// Checks the answer to "Provider name:".
pub fn check_provider_name(config: &ConfigFile, answer: &str) -> (checked: Result<
    String,
    ProviderCommandError,
>)
    ensures
        match checked {
            Ok(name) => new_provider_name(*config, answer@) == Ok::<
                Seq<char>,
                ProviderCommandErrorView,
            >(name@),
            Err(e) => new_provider_name(*config, answer@) == Err::<
                Seq<char>,
                ProviderCommandErrorView,
            >(e@),
        },
{
    let name = trim(answer);
    if name.as_str().unicode_len() == 0 {
        return Err(ProviderCommandError::EmptyName);
    }
    if reserved_name(name.as_str()) {
        return Err(ProviderCommandError::ReservedName(name));
    }
    if config.providers.contains_key(name.as_str()) {
        return Err(ProviderCommandError::AlreadyExists(name));
    }
    Ok(name)
}

/// The endpoint that an answer stands for: trimmed, not empty, and starting
/// with `http://` or `https://`.
pub open spec fn endpoint_of(answer: Seq<char>) -> Result<Seq<char>, ProviderCommandErrorView> {
    let endpoint = trimmed(answer);
    if endpoint.len() == 0 {
        Err(ProviderCommandErrorView::EmptyEndpoint)
    } else if !has_prefix(endpoint, "http://"@) && !has_prefix(endpoint, "https://"@) {
        Err(ProviderCommandErrorView::EndpointScheme)
    } else {
        Ok(endpoint)
    }
}

/// Checks the answer to "Endpoint URL:".
pub fn check_endpoint(answer: &str) -> (checked: Result<String, ProviderCommandError>)
    ensures
        match checked {
            Ok(endpoint) => endpoint_of(answer@) == Ok::<Seq<char>, ProviderCommandErrorView>(
                endpoint@,
            ),
            Err(e) => endpoint_of(answer@) == Err::<Seq<char>, ProviderCommandErrorView>(e@),
        },
{
    let endpoint = trim(answer);
    if endpoint.as_str().unicode_len() == 0 {
        return Err(ProviderCommandError::EmptyEndpoint);
    }
    if !str_starts_with(endpoint.as_str(), "http://") && !str_starts_with(
        endpoint.as_str(),
        "https://",
    ) {
        return Err(ProviderCommandError::EndpointScheme);
    }
    Ok(endpoint)
}

/// How a provider gets its API key.
#[derive(Debug, Clone, Copy, PartialEq, Eq, Structural)]
pub enum KeyMethod {
    /// From an environment variable.
    Environment,
    /// From the configuration file.
    Stored,
    /// The provider needs none.
    NoAuth,
}

/// The label of the method "environment variable".
pub const ENVIRONMENT_LABEL: &'static str = "Environment variable (recommended)";

/// The label of the method "stored key".
pub const STORED_LABEL: &'static str = "Store in config file";

/// The label of the method "no key".
pub const NO_AUTH_LABEL: &'static str = "None (no auth required)";

impl KeyMethod {
    /// The position of the method in the list that is offered.
    pub fn index(&self) -> (i: usize)
        ensures
            i == match *self {
                KeyMethod::Environment => 0usize,
                KeyMethod::Stored => 1usize,
                KeyMethod::NoAuth => 2usize,
            },
    {
        match self {
            KeyMethod::Environment => 0,
            KeyMethod::Stored => 1,
            KeyMethod::NoAuth => 2,
        }
    }

    /// The label under which the method is offered.
    pub fn label(&self) -> (text: &'static str)
        ensures
            text@ == match *self {
                KeyMethod::Environment => ENVIRONMENT_LABEL@,
                KeyMethod::Stored => STORED_LABEL@,
                KeyMethod::NoAuth => NO_AUTH_LABEL@,
            },
    {
        match self {
            KeyMethod::Environment => ENVIRONMENT_LABEL,
            KeyMethod::Stored => STORED_LABEL,
            KeyMethod::NoAuth => NO_AUTH_LABEL,
        }
    }

    /// The method that a label stands for, if it is one of the three.
    pub fn from_label(label: &str) -> (method: Option<KeyMethod>)
        ensures
            method == if label@ == ENVIRONMENT_LABEL@ {
                Some(KeyMethod::Environment)
            } else if label@ == STORED_LABEL@ {
                Some(KeyMethod::Stored)
            } else if label@ == NO_AUTH_LABEL@ {
                Some(KeyMethod::NoAuth)
            } else {
                None
            },
    {
        if same_text(label, ENVIRONMENT_LABEL) {
            Some(KeyMethod::Environment)
        } else if same_text(label, STORED_LABEL) {
            Some(KeyMethod::Stored)
        } else if same_text(label, NO_AUTH_LABEL) {
            Some(KeyMethod::NoAuth)
        } else {
            None
        }
    }
}

/// The method that is offered first for a provider as it stands: the
/// environment variable if one is configured, else the stored key if there is
/// one, else none.
pub fn default_key_method(current_api_key: Option<&str>, current_api_key_env: Option<&str>) -> (method:
    KeyMethod)
    ensures
        method == if current_api_key_env is Some {
            KeyMethod::Environment
        } else if current_api_key is Some {
            KeyMethod::Stored
        } else {
            KeyMethod::NoAuth
        },
{
    if current_api_key_env.is_some() {
        KeyMethod::Environment
    } else if current_api_key.is_some() {
        KeyMethod::Stored
    } else {
        KeyMethod::NoAuth
    }
}

/// The stored key and the variable name that a method and its answer stand
/// for, in this order. The answer is trimmed and must not be empty, unless the
/// method is "none".
pub open spec fn credential_of(method: KeyMethod, answer: Seq<char>) -> Result<
    (Option<Seq<char>>, Option<Seq<char>>),
    ProviderCommandErrorView,
> {
    match method {
        KeyMethod::Environment => if trimmed(answer).len() == 0 {
            Err(ProviderCommandErrorView::EmptyVariable)
        } else {
            Ok((None, Some(trimmed(answer))))
        },
        KeyMethod::Stored => if trimmed(answer).len() == 0 {
            Err(ProviderCommandErrorView::EmptyApiKey)
        } else {
            Ok((Some(trimmed(answer)), None))
        },
        KeyMethod::NoAuth => Ok((None, None)),
    }
}

/// Checks the answer that belongs to a method: the variable's name, or the key.
pub fn check_credential(method: KeyMethod, answer: &str) -> (checked: Result<
    (Option<String>, Option<String>),
    ProviderCommandError,
>)
    ensures
        match checked {
            Ok(pair) => credential_of(method, answer@) == Ok::<
                (Option<Seq<char>>, Option<Seq<char>>),
                ProviderCommandErrorView,
            >((text_of(pair.0), text_of(pair.1))),
            Err(e) => credential_of(method, answer@) == Err::<
                (Option<Seq<char>>, Option<Seq<char>>),
                ProviderCommandErrorView,
            >(e@),
        },
{
    match method {
        KeyMethod::Environment => {
            let variable = trim(answer);
            if variable.as_str().unicode_len() == 0 {
                Err(ProviderCommandError::EmptyVariable)
            } else {
                Ok((None, Some(variable)))
            }
        },
        KeyMethod::Stored => {
            let key = trim(answer);
            if key.as_str().unicode_len() == 0 {
                Err(ProviderCommandError::EmptyApiKey)
            } else {
                Ok((Some(key), None))
            }
        },
        KeyMethod::NoAuth => Ok((None, None)),
    }
}

/// The pieces that are not empty once trimmed, each trimmed, in order.
pub open spec fn trimmed_pieces(all: Seq<Seq<char>>) -> Seq<Seq<char>>
    decreases all.len(),
{
    if all.len() == 0 {
        Seq::empty()
    } else if trimmed(all.last()).len() == 0 {
        trimmed_pieces(all.drop_last())
    } else {
        trimmed_pieces(all.drop_last()).push(trimmed(all.last()))
    }
}

/// The models that a comma-separated answer names.
pub open spec fn models_of(answer: Seq<char>) -> Seq<Seq<char>> {
    trimmed_pieces(pieces(answer, ','))
}

/// Reads the answer to "Models (comma-separated, optional):".
pub fn parse_models(answer: &str) -> (models: Vec<String>)
    ensures
        texts_of(models@) == models_of(answer@),
{
    let chars = to_chars(answer);
    let all = split_on(chars.as_slice(), ',');
    let mut models: Vec<String> = Vec::new();
    let mut i: usize = 0;
    assert(texts_of(models@) =~= trimmed_pieces(char_texts(all@).take(0)));
    while i < all.len()
        invariant
            i <= all@.len(),
            texts_of(models@) == trimmed_pieces(char_texts(all@).take(i as int)),
        decreases all@.len() - i,
    {
        let ghost seen = char_texts(all@).take(i as int);
        let ghost listed = texts_of(models@);
        proof {
            assert(char_texts(all@).take(i + 1).drop_last() =~= seen);
            assert(char_texts(all@).take(i + 1).last() == all@[i as int]@);
        }
        let (start, end) = trim_bounds(all[i].as_slice());
        if start < end {
            models.push(from_char_range(all[i].as_slice(), start, end));
            assert(texts_of(models@) =~= listed.push(trimmed(all@[i as int]@)));
        }
        i += 1;
    }
    assert(char_texts(all@).take(i as int) =~= char_texts(all@));
    models
}

/// The models of a provider as they are offered for editing.
pub fn models_answer(models: &Vec<String>) -> (answer: String)
    ensures
        answer@ == joined(texts_of(models@), ", "@),
{
    join(models, ", ")
}

/// The answers of the user to the questions about a provider.
#[derive(Debug, Clone)]
pub struct ProviderAnswers {
    /// The answer to "Endpoint URL:".
    pub endpoint: String,
    /// The method chosen under "API key method:".
    pub key_method: KeyMethod,
    /// The variable's name or the key, as the method asks; unused for "none".
    pub credential: String,
    /// The answer to "Models (comma-separated, optional):".
    pub models: String,
}

/// A provider as a mathematical value.
pub struct ProviderView {
    pub endpoint: Seq<char>,
    pub api_key: Option<Seq<char>>,
    pub api_key_env: Option<Seq<char>>,
    pub models: Seq<Seq<char>>,
}

/// The provider as a mathematical value.
pub open spec fn provider_view(provider: ProviderConfig) -> ProviderView {
    ProviderView {
        endpoint: provider.endpoint@,
        api_key: text_of(provider.api_key),
        api_key_env: text_of(provider.api_key_env),
        models: texts_of(provider.models@),
    }
}

/// The provider that the answers describe, or the first answer that is refused.
pub open spec fn provider_of(answers: ProviderAnswers) -> Result<
    ProviderView,
    ProviderCommandErrorView,
> {
    match endpoint_of(answers.endpoint@) {
        Err(e) => Err(e),
        Ok(endpoint) => match credential_of(answers.key_method, answers.credential@) {
            Err(e) => Err(e),
            Ok(pair) => Ok(
                ProviderView {
                    endpoint,
                    api_key: pair.0,
                    api_key_env: pair.1,
                    models: models_of(answers.models@),
                },
            ),
        },
    }
}

/// Makes a provider from the answers.
pub fn build_provider(answers: &ProviderAnswers) -> (built: Result<
    ProviderConfig,
    ProviderCommandError,
>)
    ensures
        match built {
            Ok(provider) => provider_of(*answers) == Ok::<ProviderView, ProviderCommandErrorView>(
                provider_view(provider),
            ),
            Err(e) => provider_of(*answers) == Err::<ProviderView, ProviderCommandErrorView>(e@),
        },
{
    let endpoint = match check_endpoint(answers.endpoint.as_str()) {
        Ok(endpoint) => endpoint,
        Err(e) => {
            return Err(e);
        },
    };
    let (api_key, api_key_env) = match check_credential(
        answers.key_method,
        answers.credential.as_str(),
    ) {
        Ok(pair) => pair,
        Err(e) => {
            return Err(e);
        },
    };
    Ok(
        ProviderConfig {
            endpoint,
            api_key,
            api_key_env,
            models: parse_models(answers.models.as_str()),
        },
    )
}

/// `after` is `before` with the provider `name` set to `provider`, and
/// nothing else changed.
pub open spec fn provider_stored(
    before: ConfigFile,
    after: ConfigFile,
    name: Seq<char>,
    provider: ProviderView,
) -> bool {
    &&& after.tl == before.tl
    &&& after.styles == before.styles
    &&& after.providers@.dom() == before.providers@.dom().insert(name)
    &&& provider_view(after.providers@[name]) == provider
    &&& forall|other: Seq<char>|
        other != name && before.providers@.contains_key(other)
            ==> #[trigger] after.providers@[other] == before.providers@[other]
}

/// Adds a provider from the user's answers and returns its name.
///
/// The name is checked first, then the other answers in the order in which
/// they are asked for.
pub fn add_provider(config: &mut ConfigFile, name: &str, answers: &ProviderAnswers) -> (added:
    Result<String, ProviderCommandError>)
    ensures
        match added {
            Ok(stored) => {
                &&& new_provider_name(*old(config), name@) == Ok::<
                    Seq<char>,
                    ProviderCommandErrorView,
                >(stored@)
                &&& provider_of(*answers) matches Ok(provider)
                &&& provider_stored(*old(config), *final(config), stored@, provider)
            },
            Err(e) => {
                &&& *final(config) == *old(config)
                &&& match new_provider_name(*old(config), name@) {
                    Err(refused) => e@ == refused,
                    Ok(_) => provider_of(*answers) == Err::<ProviderView, ProviderCommandErrorView>(
                        e@,
                    ),
                }
            },
        },
{
    let name = match check_provider_name(config, name) {
        Ok(name) => name,
        Err(e) => {
            return Err(e);
        },
    };
    let provider = match build_provider(answers) {
        Ok(provider) => provider,
        Err(e) => {
            return Err(e);
        },
    };
    config.providers.insert(name.clone(), provider);
    assert(config.providers@.dom() =~= old(config).providers@.dom().insert(name@));
    Ok(name)
}

/// Checks that the provider `name` exists, and returns it as it stands.
pub fn check_provider_exists<'a>(config: &'a ConfigFile, name: &str) -> (checked: Result<
    &'a ProviderConfig,
    ProviderCommandError,
>)
    ensures
        match checked {
            Ok(current) => config.providers@.contains_key(name@) && *current
                == config.providers@[name@],
            Err(e) => !config.providers@.contains_key(name@) && e@
                == ProviderCommandErrorView::NotFound(name@),
        },
{
    match config.providers.get(name) {
        Some(current) => Ok(current),
        None => Err(ProviderCommandError::NotFound(name.to_string())),
    }
}

/// Replaces an existing provider by what the user's answers describe.
pub fn edit_provider(config: &mut ConfigFile, name: &str, answers: &ProviderAnswers) -> (edited:
    Result<(), ProviderCommandError>)
    ensures
        match edited {
            Ok(_) => {
                &&& old(config).providers@.contains_key(name@)
                &&& provider_of(*answers) matches Ok(provider)
                &&& provider_stored(*old(config), *final(config), name@, provider)
            },
            Err(e) => {
                &&& *final(config) == *old(config)
                &&& if !old(config).providers@.contains_key(name@) {
                    e@ == ProviderCommandErrorView::NotFound(name@)
                } else {
                    provider_of(*answers) == Err::<ProviderView, ProviderCommandErrorView>(e@)
                }
            },
        },
{
    match check_provider_exists(config, name) {
        Ok(_) => {},
        Err(e) => {
            return Err(e);
        },
    }
    let provider = match build_provider(answers) {
        Ok(provider) => provider,
        Err(e) => {
            return Err(e);
        },
    };
    config.providers.insert(name.to_string(), provider);
    assert(config.providers@.dom() =~= old(config).providers@.dom().insert(name@));
    Ok(())
}

/// That the provider `name` can be removed: it exists and is not the default
/// provider.
pub open spec fn removable_provider(file: ConfigFile, name: Seq<char>) -> Result<
    (),
    ProviderCommandErrorView,
> {
    if !file.providers@.contains_key(name) {
        Err(ProviderCommandErrorView::NotFound(name))
    } else if text_of(file.tl.provider) == Some(name) {
        Err(ProviderCommandErrorView::IsDefault(name))
    } else {
        Ok(())
    }
}

/// Checks that the provider `name` can be removed, and tells whether it is
/// the last provider that is configured.
pub fn check_provider_removable(config: &ConfigFile, name: &str) -> (checked: Result<
    bool,
    ProviderCommandError,
>)
    ensures
        match checked {
            Ok(last) => removable_provider(*config, name@) is Ok && last
                == (config.providers.names().len() == 1),
            Err(e) => removable_provider(*config, name@) == Err::<(), ProviderCommandErrorView>(
                e@,
            ),
        },
{
    if !config.providers.contains_key(name) {
        return Err(ProviderCommandError::NotFound(name.to_string()));
    }
    let is_default = match &config.tl.provider {
        Some(default) => same_text(default.as_str(), name),
        None => false,
    };
    if is_default {
        return Err(ProviderCommandError::IsDefault(name.to_string()));
    }
    Ok(config.providers.len() == 1)
}

/// Removes a provider if the user confirmed.
pub fn remove_provider(config: &mut ConfigFile, name: &str, confirmed: bool) -> (removed: Result<
    Removal,
    ProviderCommandError,
>)
    ensures
        final(config).tl == old(config).tl,
        final(config).styles == old(config).styles,
        match removed {
            Err(e) => removable_provider(*old(config), name@) == Err::<
                (),
                ProviderCommandErrorView,
            >(e@) && *final(config) == *old(config),
            Ok(Removal::Cancelled) => removable_provider(*old(config), name@) is Ok && !confirmed
                && *final(config) == *old(config),
            Ok(Removal::Removed { was_default }) => {
                &&& removable_provider(*old(config), name@) is Ok
                &&& confirmed
                &&& !was_default
                &&& final(config).providers@ == old(config).providers@.remove(name@)
            },
        },
{
    match check_provider_removable(config, name) {
        Ok(_) => {},
        Err(e) => {
            return Err(e);
        },
    }
    if !confirmed {
        return Ok(Removal::Cancelled);
    }
    config.providers.remove(name);
    Ok(Removal::Removed { was_default: false })
}

/// The lines that show one provider: its name, marked if it is the default,
/// its endpoint, and its models if it lists any.
pub open spec fn provider_block(
    style: Style,
    name: Seq<char>,
    provider: ProviderConfig,
    is_default: bool,
) -> Seq<Seq<char>> {
    seq![
        "  "@ + style.value_text(name) + (if is_default {
            " "@ + style.default_marker_text()
        } else {
            Seq::empty()
        }),
        row("    "@, style.label_text("endpoint"@), "  "@, style.secondary_text(provider.endpoint@)),
    ] + (if provider.models@.len() > 0 {
        seq![
            row(
                "    "@,
                style.label_text("models"@),
                "    "@,
                style.secondary_text(joined(texts_of(provider.models@), ", "@)),
            ),
        ]
    } else {
        Seq::empty()
    })
}

/// The lines that show the providers `names`, in order.
pub open spec fn provider_blocks(style: Style, file: ConfigFile, names: Seq<Seq<char>>) -> Seq<
    Seq<char>,
>
    decreases names.len(),
{
    if names.len() == 0 {
        Seq::empty()
    } else {
        provider_blocks(style, file, names.drop_last()) + provider_block(
            style,
            names.last(),
            file.providers@[names.last()],
            text_of(file.tl.provider) == Some(names.last()),
        )
    }
}

/// The listing of all providers, in ascending order of their names; or the
/// hint to add one, if none is configured.
pub open spec fn provider_listing(style: Style, file: ConfigFile) -> Seq<Seq<char>> {
    if file.providers.names().len() == 0 {
        seq![
            style.warning_text("No providers configured."@),
            style.hint_text("Run 'tl providers add' to add a provider."@),
        ]
    } else {
        seq![style.header_text("Configured providers"@)] + provider_blocks(
            style,
            file,
            file.providers.names(),
        )
    }
}

/// The lines that list all configured providers.
pub fn list_providers(config: &ConfigFile, style: &Style) -> (lines: Vec<String>)
    ensures
        texts_of(lines@) == provider_listing(*style, *config),
{
    let mut lines: Vec<String> = Vec::new();
    let count = config.providers.len();
    if count == 0 {
        lines.push(style.warning("No providers configured."));
        lines.push(style.hint("Run 'tl providers add' to add a provider."));
        assert(texts_of(lines@) =~= provider_listing(*style, *config));
        return lines;
    }
    lines.push(style.header("Configured providers"));
    let ghost all = config.providers.names();
    let ghost head = seq![style.header_text("Configured providers"@)];
    let mut i: usize = 0;
    assert(texts_of(lines@) =~= head + provider_blocks(*style, *config, all.take(0)));
    while i < count
        invariant
            i <= count,
            count == all.len(),
            all == config.providers.names(),
            head == seq![style.header_text("Configured providers"@)],
            texts_of(lines@) == head + provider_blocks(*style, *config, all.take(i as int)),
        decreases count - i,
    {
        let ghost listed = texts_of(lines@);
        let name = config.providers.name_at(i);
        let provider = config.providers.value_at(i);
        proof {
            assert(all.take(i + 1).drop_last() =~= all.take(i as int));
            assert(all.take(i + 1).last() == name@);
        }
        let is_default = match &config.tl.provider {
            Some(default) => same_text(default.as_str(), name.as_str()),
            None => false,
        };
        let mut title = "  ".to_string();
        title.append(style.value(name.as_str()).as_str());
        if is_default {
            title.append(" ");
            title.append(style.default_marker().as_str());
            assert(title@ =~= "  "@ + style.value_text(name@) + (" "@
                + style.default_marker_text()));
        } else {
            assert(title@ =~= "  "@ + style.value_text(name@) + Seq::<char>::empty());
        }
        lines.push(title);
        lines.push(
            write_row(
                "    ",
                style.label("endpoint").as_str(),
                "  ",
                style.secondary(provider.endpoint.as_str()).as_str(),
            ),
        );
        if provider.models.len() > 0 {
            lines.push(
                write_row(
                    "    ",
                    style.label("models").as_str(),
                    "    ",
                    style.secondary(join(&provider.models, ", ").as_str()).as_str(),
                ),
            );
        }
        assert(texts_of(lines@) =~= listed + provider_block(
            *style,
            name@,
            *provider,
            text_of(config.tl.provider) == Some(name@),
        ));
        assert((head + provider_blocks(*style, *config, all.take(i as int))) + provider_block(
            *style,
            name@,
            *provider,
            text_of(config.tl.provider) == Some(name@),
        ) =~= head + provider_blocks(*style, *config, all.take(i + 1)));
        i += 1;
    }
    assert(all.take(i as int) =~= all);
    lines
}

} // verus!
