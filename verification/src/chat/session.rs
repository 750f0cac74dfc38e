//! The settings of a chat session and the commands that change them.

use vstd::prelude::*;
use vstd::string::*;
use crate::chat::command::{SlashCommand, SlashCommandView};
use crate::config::CustomStyle;
use crate::name_map::NameMap;
use crate::style::{find_preset, resolve_style, StyleError, StyleErrorView};
use crate::text::{same_text, text_of};
use crate::translation::client::{TranslationClient, TranslationRequest, TranslationRequestView};

verus! {

/// Configuration for a chat session.
#[derive(Debug, Clone)]
pub struct SessionConfig {
    /// The provider name.
    pub provider_name: String,
    /// The API endpoint URL.
    pub endpoint: String,
    /// The model to use.
    pub model: String,
    /// The API key (if required).
    pub api_key: Option<String>,
    /// The target language code.
    pub to: String,
    /// The translation style name (for display).
    pub style_name: Option<String>,
    /// The translation style prompt (for the model).
    pub style_prompt: Option<String>,
    /// Available custom styles, as the configuration file had them.
    pub custom_styles: NameMap<CustomStyle>,
}

impl SessionConfig {
    /// Creates a new session configuration.
    pub fn new(
        provider_name: String,
        endpoint: String,
        model: String,
        api_key: Option<String>,
        to: String,
        style_name: Option<String>,
        style_prompt: Option<String>,
        custom_styles: NameMap<CustomStyle>,
    ) -> (config: Self)
        ensures
            config.provider_name == provider_name,
            config.endpoint == endpoint,
            config.model == model,
            config.api_key == api_key,
            config.to == to,
            config.style_name == style_name,
            config.style_prompt == style_prompt,
            config.custom_styles == custom_styles,
    {
        SessionConfig {
            provider_name,
            endpoint,
            model,
            api_key,
            to,
            style_name,
            style_prompt,
            custom_styles,
        }
    }
}

/// What the user is told after a `/set` command.
#[derive(Debug, Clone)]
pub enum SetOutcome {
    /// The style was cleared.
    StyleCleared,
    /// The style was set to this key.
    StyleSet(String),
    /// The style key is neither a preset nor a custom style. The session is unchanged.
    StyleRejected(StyleError),
    /// The target language was set to this code.
    TargetSet(String),
    /// The model was set to this name.
    ModelSet(String),
    /// The setting with this key needs a value. The session is unchanged.
    MissingValue(String),
    /// No key was given. The session is unchanged.
    Usage,
    /// The key names no setting. The session is unchanged.
    UnknownSetting(String),
}

/// The settings that `/set` can change, as a mathematical value.
pub struct SessionSettings {
    pub model: Seq<char>,
    pub to: Seq<char>,
    pub style_name: Option<Seq<char>>,
    pub style_prompt: Option<Seq<char>>,
}

impl SessionConfig {
    /// The settings that `/set` can change.
    pub open spec fn settings(self) -> SessionSettings {
        SessionSettings {
            model: self.model@,
            to: self.to@,
            style_name: text_of(self.style_name),
            style_prompt: text_of(self.style_prompt),
        }
    }

    /// The prompt of the style `key` in this session, if the style exists.
    pub open spec fn style_prompt_of(self, key: Seq<char>) -> Option<Seq<char>> {
        match find_preset(key) {
            Some(preset) => Some(preset.prompt@),
            None => if self.custom_styles@.contains_key(key) {
                Some(self.custom_styles@[key].prompt@)
            } else {
                None
            },
        }
    }

    /// The settings after `/set key value`.
    ///
    /// `style` with a value selects that style if it exists, and without a
    /// value clears the style. `to` and `model` take their value. Everything
    /// else leaves the settings as they are.
    pub open spec fn settings_after(self, key: Seq<char>, value: Option<Seq<char>>) -> SessionSettings {
        let now = self.settings();
        if key == "style"@ {
            match value {
                None => SessionSettings { style_name: None, style_prompt: None, ..now },
                Some(style) => match self.style_prompt_of(style) {
                    Some(prompt) => SessionSettings {
                        style_name: Some(style),
                        style_prompt: Some(prompt),
                        ..now
                    },
                    None => now,
                },
            }
        } else if key == "to"@ {
            match value {
                Some(language) => SessionSettings { to: language, ..now },
                None => now,
            }
        } else if key == "model"@ {
            match value {
                Some(model) => SessionSettings { model, ..now },
                None => now,
            }
        } else {
            now
        }
    }

    /// `outcome` is what the user is told after `/set key value` in this session.
    pub open spec fn answers(self, key: Seq<char>, value: Option<Seq<char>>, outcome: SetOutcome) -> bool {
        if key == "style"@ {
            match value {
                None => outcome is StyleCleared,
                Some(v) => match self.style_prompt_of(v) {
                    Some(_) => (outcome matches SetOutcome::StyleSet(name) && name@ == v),
                    None => (outcome matches SetOutcome::StyleRejected(e) && e@ == (
                    StyleErrorView::NotFound { key: v, custom_keys: self.custom_styles.names() })),
                },
            }
        } else if key == "to"@ {
            match value {
                Some(v) => (outcome matches SetOutcome::TargetSet(code) && code@ == v),
                None => (outcome matches SetOutcome::MissingValue(k) && k@ == key),
            }
        } else if key == "model"@ {
            match value {
                Some(v) => (outcome matches SetOutcome::ModelSet(name) && name@ == v),
                None => (outcome matches SetOutcome::MissingValue(k) && k@ == key),
            }
        } else if key.len() == 0 {
            outcome is Usage
        } else {
            (outcome matches SetOutcome::UnknownSetting(k) && k@ == key)
        }
    }

    /// Applies `/set key value` to the session and says what to tell the user.
    pub fn apply_set(&mut self, key: &str, value: Option<&str>) -> (outcome: SetOutcome)
        ensures
            final(self).settings() == old(self).settings_after(
                key@,
                match value {
                    Some(v) => Some(v@),
                    None => None,
                },
            ),
            final(self).provider_name == old(self).provider_name,
            final(self).endpoint == old(self).endpoint,
            final(self).api_key == old(self).api_key,
            final(self).custom_styles == old(self).custom_styles,
            old(self).answers(
                key@,
                match value {
                    Some(v) => Some(v@),
                    None => None,
                },
                outcome,
            ),
    {
        proof {
            lemma_setting_keys();
        }
        if same_text(key, "style") {
            match value {
                None => {
                    self.style_name = None;
                    self.style_prompt = None;
                    SetOutcome::StyleCleared
                },
                Some(style) => match resolve_style(style, &self.custom_styles) {
                    Ok(resolved) => {
                        self.style_name = Some(style.to_string());
                        self.style_prompt = Some(resolved.prompt().to_string());
                        SetOutcome::StyleSet(style.to_string())
                    },
                    Err(e) => SetOutcome::StyleRejected(e),
                },
            }
        } else if same_text(key, "to") {
            match value {
                Some(language) => {
                    self.to = language.to_string();
                    SetOutcome::TargetSet(language.to_string())
                },
                None => SetOutcome::MissingValue(key.to_string()),
            }
        } else if same_text(key, "model") {
            match value {
                Some(model) => {
                    self.model = model.to_string();
                    SetOutcome::ModelSet(model.to_string())
                },
                None => SetOutcome::MissingValue(key.to_string()),
            }
        } else if key.unicode_len() == 0 {
            SetOutcome::Usage
        } else {
            SetOutcome::UnknownSetting(key.to_string())
        }
    }
}

/// The keys of the settings are three different, non-empty texts.
pub proof fn lemma_setting_keys()
    ensures
        "style"@ != "to"@,
        "style"@ != "model"@,
        "to"@ != "model"@,
        "style"@.len() > 0,
        "to"@.len() > 0,
        "model"@.len() > 0,
{
    reveal_strlit("style");
    reveal_strlit("to");
    reveal_strlit("model");
    assert("style"@[0] != "model"@[0]);
}

/// What the caller does after a command.
#[derive(Debug, Clone)]
pub enum CommandOutcome {
    /// Show the session's configuration and go on.
    ShowConfig,
    /// Show the help and go on.
    ShowHelp,
    /// Leave chat mode.
    Quit,
    /// A setting was handled; tell the user and go on.
    Changed(SetOutcome),
    /// Report the unknown command and go on. Holds the report.
    Unknown(String),
}

/// An interactive chat session for translation.
#[derive(Debug, Clone)]
pub struct ChatSession {
    /// The session's settings.
    pub config: SessionConfig,
    /// What decides where requests are sent.
    pub client: TranslationClient,
}

impl ChatSession {
    /// Creates a new chat session with the given configuration.
    pub fn new(config: SessionConfig) -> (session: Self)
        ensures
            session.config == config,
            session.client.endpoint@ == config.endpoint@,
            text_of(session.client.api_key) == text_of(config.api_key),
    {
        let client = TranslationClient::new(config.endpoint.clone(), config.api_key.clone());
        ChatSession { config, client }
    }

    /// Handles one slash command. The session goes on unless the outcome is `Quit`.
    pub fn handle_command(&mut self, command: SlashCommand) -> (outcome: CommandOutcome)
        ensures
            final(self).client == old(self).client,
            match command@ {
                SlashCommandView::Config => outcome is ShowConfig && final(self).config == old(self).config,
                SlashCommandView::Help => outcome is ShowHelp && final(self).config == old(self).config,
                SlashCommandView::Quit => outcome is Quit && final(self).config == old(self).config,
                SlashCommandView::Change { key, value } => {
                    &&& outcome matches CommandOutcome::Changed(told)
                    &&& old(self).config.answers(key, value, told)
                    &&& final(self).config.settings() == old(self).config.settings_after(
                        key,
                        value,
                    )
                    &&& final(self).config.provider_name == old(self).config.provider_name
                    &&& final(self).config.endpoint == old(self).config.endpoint
                    &&& final(self).config.api_key == old(self).config.api_key
                    &&& final(self).config.custom_styles == old(self).config.custom_styles
                },
                SlashCommandView::Unknown(text) => (outcome matches CommandOutcome::Unknown(report)
                    && report@ == "Unknown command: /"@ + text) && final(self).config == old(self).config,
            },
    {
        match command {
            SlashCommand::Config => CommandOutcome::ShowConfig,
            SlashCommand::Help => CommandOutcome::ShowHelp,
            SlashCommand::Quit => CommandOutcome::Quit,
            SlashCommand::Change { key, value } => {
                let given = match &value {
                    Some(v) => Some(v.as_str()),
                    None => None,
                };
                CommandOutcome::Changed(self.config.apply_set(key.as_str(), given))
            },
            SlashCommand::Unknown(text) => {
                let mut report = "Unknown command: /".to_string();
                report.append(text.as_str());
                CommandOutcome::Unknown(report)
            },
        }
    }

    /// The request that translates `text` with the session's current settings.
    pub fn translation_request(&self, text: &str) -> (request: TranslationRequest)
        ensures
            request@ == (TranslationRequestView {
                source_text: text@,
                target_language: self.config.to@,
                model: self.config.model@,
                endpoint: self.config.endpoint@,
                style: text_of(self.config.style_prompt),
            }),
    {
        TranslationRequest {
            source_text: text.to_string(),
            target_language: self.config.to.clone(),
            model: self.config.model.clone(),
            endpoint: self.config.endpoint.clone(),
            style: self.config.style_prompt.clone(),
        }
    }
}

} // verus!
