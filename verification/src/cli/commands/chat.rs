//! Starting a chat session.

use vstd::prelude::*;
use crate::chat::session::SessionConfig;
use crate::config::{
    resolution, resolve_config, ConfigError, ConfigErrorView, ConfigFile, Environment,
    ResolveOptions, ResolvedConfigView,
};
use crate::text::text_of;

verus! {

/// What the user asked for when starting chat mode.
#[derive(Debug, Clone)]
pub struct ChatOptions {
    /// Target language override.
    pub to: Option<String>,
    /// Provider override.
    pub provider: Option<String>,
    /// Model override.
    pub model: Option<String>,
    /// Style override.
    pub style: Option<String>,
}

impl ChatOptions {
    /// The overrides that take part in resolving the configuration.
    pub fn resolve_options(&self) -> (options: ResolveOptions)
        ensures
            options.to == self.to,
            options.provider == self.provider,
            options.model == self.model,
            options.style == self.style,
    {
        ResolveOptions {
            to: clone_setting(&self.to),
            provider: clone_setting(&self.provider),
            model: clone_setting(&self.model),
            style: clone_setting(&self.style),
        }
    }
}

/// A copy of an optional setting.
fn clone_setting(setting: &Option<String>) -> (copy: Option<String>)
    ensures
        copy == *setting,
{
    match setting {
        Some(value) => Some(value.clone()),
        None => None,
    }
}

/// Resolves the configuration of a chat session: the resolved request
/// configuration, together with the custom styles of the configuration file,
/// so that the session can switch styles later.
pub fn load_session_config(options: &ChatOptions, config_file: &ConfigFile, env: &Environment) -> (loaded:
    Result<SessionConfig, ConfigError>)
    ensures
        match loaded {
            Ok(session) => {
                &&& resolution(
                    ResolveOptions {
                        to: options.to,
                        provider: options.provider,
                        model: options.model,
                        style: options.style,
                    },
                    *config_file,
                    env@,
                ) == Ok::<ResolvedConfigView, ConfigErrorView>(
                    ResolvedConfigView {
                        provider_name: session.provider_name@,
                        endpoint: session.endpoint@,
                        model: session.model@,
                        api_key: text_of(session.api_key),
                        target_language: session.to@,
                        style_name: text_of(session.style_name),
                        style_prompt: text_of(session.style_prompt),
                    },
                )
                &&& session.custom_styles.names() == config_file.styles.names()
                &&& session.custom_styles@.dom() == config_file.styles@.dom()
                &&& forall|key: Seq<char>| #[trigger]
                    config_file.styles@.contains_key(key) ==> {
                        &&& session.custom_styles@[key].description@
                            == config_file.styles@[key].description@
                        &&& session.custom_styles@[key].prompt@ == config_file.styles@[key].prompt@
                    }
            },
            Err(e) => resolution(
                ResolveOptions {
                    to: options.to,
                    provider: options.provider,
                    model: options.model,
                    style: options.style,
                },
                *config_file,
                env@,
            ) == Err::<ResolvedConfigView, ConfigErrorView>(e@),
        },
{
    let resolved = match resolve_config(&options.resolve_options(), config_file, env) {
        Ok(resolved) => resolved,
        Err(e) => {
            return Err(e);
        },
    };
    Ok(
        SessionConfig::new(
            resolved.provider_name,
            resolved.endpoint,
            resolved.model,
            resolved.api_key,
            resolved.target_language,
            resolved.style_name,
            resolved.style_prompt,
            config_file.styles.clone(),
        ),
    )
}

} // verus!
