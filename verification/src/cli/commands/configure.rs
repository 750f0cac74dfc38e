//! Choosing the defaults: what is offered, what is preselected, and what an
//! answer means.

use vstd::prelude::*;
use vstd::string::*;
use crate::chat::ui::{row, write_row};
use crate::config::{ConfigFile, TlConfig};
use crate::ui::theme::Style;
use crate::split::{find_text, first_occurrence};
use crate::style::{preset_keys, preset_table, presets, PresetStyle};
use crate::text::{from_char_range, same_text, text_of, texts_of, to_chars, trim, trimmed};
use crate::translation::language::{language_table, supported_languages};

verus! {

/// Why the defaults could not be chosen.
#[derive(Debug, Clone, Copy, PartialEq, Eq, Structural)]
pub enum ConfigureError {
    /// No provider is configured, so none can be the default.
    NoProviders,
    /// The model's name is empty.
    EmptyModel,
}

impl ConfigureError {
    /// The message shown to the user.
    pub open spec fn message_text(self) -> Seq<char> {
        match self {
            ConfigureError::NoProviders =>
                "No providers configured.\n\nRun 'tl providers add' to add a provider first."@,
            ConfigureError::EmptyModel => "Model name cannot be empty"@,
        }
    }

    /// The message shown to the user.
    pub fn message(&self) -> (out: String)
        ensures
            out@ == self.message_text(),
    {
        match self {
            ConfigureError::NoProviders => {
                "No providers configured.\n\nRun 'tl providers add' to add a provider first.".to_string()
            },
            ConfigureError::EmptyModel => "Model name cannot be empty".to_string(),
        }
    }
}

/// The first position at or after `from` at which `list` holds `item`, or the
/// length of `list` if it does not.
pub open spec fn first_index_of(list: Seq<Seq<char>>, item: Seq<char>, from: int) -> int
    decreases list.len() - from,
{
    if 0 <= from < list.len() && list[from] != item {
        first_index_of(list, item, from + 1)
    } else {
        from
    }
}

/// The entry that is preselected in a list: the first one equal to the
/// default, or the first entry if there is no default or the list lacks it.
pub open spec fn preselected(list: Seq<Seq<char>>, default: Option<Seq<char>>) -> int {
    match default {
        Some(item) => if first_index_of(list, item, 0) < list.len() {
            first_index_of(list, item, 0)
        } else {
            0
        },
        None => 0,
    }
}

/// The position of the entry that is preselected in `items`.
pub fn default_index(items: &Vec<String>, default: Option<&str>) -> (index: usize)
    ensures
        index == preselected(
            texts_of(items@),
            match default {
                Some(d) => Some(d@),
                None => None,
            },
        ),
        index < items@.len() || index == 0,
{
    match default {
        Some(item) => {
            let mut i: usize = 0;
            while i < items.len()
                invariant
                    i <= items@.len(),
                    default == Some(item),
                    first_index_of(texts_of(items@), item@, 0) == first_index_of(
                        texts_of(items@),
                        item@,
                        i as int,
                    ),
                decreases items@.len() - i,
            {
                if same_text(items[i].as_str(), item) {
                    assert(texts_of(items@)[i as int] == item@);
                    assert(first_index_of(texts_of(items@), item@, i as int) == i);
                    return i;
                }
                assert(texts_of(items@)[i as int] != item@);
                i += 1;
            }
            0
        },
        None => 0,
    }
}

/// Checks that a provider is configured, so that defaults can be chosen.
pub fn check_configurable(config: &ConfigFile) -> (checked: Result<(), ConfigureError>)
    ensures
        checked == if config.providers.names().len() == 0 {
            Err::<(), ConfigureError>(ConfigureError::NoProviders)
        } else {
            Ok::<(), ConfigureError>(())
        },
{
    if config.providers.is_empty() {
        Err(ConfigureError::NoProviders)
    } else {
        Ok(())
    }
}

/// The models that are offered for a provider: its model list, or nothing if
/// the provider is unknown.
pub fn provider_models(config: &ConfigFile, provider: &str) -> (models: Vec<String>)
    ensures
        texts_of(models@) == if config.providers@.contains_key(provider@) {
            texts_of(config.providers@[provider@].models@)
        } else {
            Seq::empty()
        },
{
    let mut models: Vec<String> = Vec::new();
    match config.providers.get(provider) {
        Some(found) => {
            let mut i: usize = 0;
            assert(texts_of(models@) =~= texts_of(found.models@).take(0));
            while i < found.models.len()
                invariant
                    i <= found.models@.len(),
                    texts_of(models@) == texts_of(found.models@).take(i as int),
                decreases found.models@.len() - i,
            {
                let ghost listed = texts_of(models@);
                models.push(found.models[i].clone());
                assert(texts_of(models@) =~= listed.push(found.models@[i as int]@));
                assert(texts_of(found.models@).take(i + 1) =~= texts_of(found.models@).take(
                    i as int,
                ).push(texts_of(found.models@)[i as int]));
                i += 1;
            }
            assert(texts_of(found.models@).take(i as int) =~= texts_of(found.models@));
        },
        None => {
            assert(texts_of(models@) =~= Seq::<Seq<char>>::empty());
        },
    }
    models
}

/// Checks a model name that was typed in: trimmed, it must not be empty.
pub fn check_model_name(answer: &str) -> (checked: Result<String, ConfigureError>)
    ensures
        match checked {
            Ok(model) => model@ == trimmed(answer@) && model@.len() > 0,
            Err(e) => e == ConfigureError::EmptyModel && trimmed(answer@).len() == 0,
        },
{
    let model = trim(answer);
    if model.as_str().unicode_len() == 0 {
        Err(ConfigureError::EmptyModel)
    } else {
        Ok(model)
    }
}

/// What separates the key from the rest in an option.
pub const OPTION_SEPARATOR: &'static str = " - ";

/// The option that stands for no style.
pub const NO_STYLE_OPTION: &'static str = "(none)";

/// An option: a key, the separator, and what the key means.
pub open spec fn option_text(key: Seq<char>, note: Seq<char>) -> Seq<char> {
    key + OPTION_SEPARATOR@ + note
}

/// The language codes, in listing order.
pub open spec fn language_codes() -> Seq<Seq<char>> {
    language_table().map_values(|entry: (&'static str, &'static str)| entry.0@)
}

/// The options offered for the target language, in listing order.
pub open spec fn language_option_texts() -> Seq<Seq<char>> {
    language_table().map_values(
        |entry: (&'static str, &'static str)| option_text(entry.0@, entry.1@),
    )
}

/// The options offered for the target language: `code - Name` for each language.
pub fn language_options() -> (options: Vec<String>)
    ensures
        texts_of(options@) == language_option_texts(),
{
    let table = supported_languages();
    let mut options: Vec<String> = Vec::new();
    let mut i: usize = 0;
    assert(texts_of(options@) =~= language_option_texts().take(0));
    while i < table.len()
        invariant
            i <= table@.len(),
            table@ == language_table(),
            texts_of(options@) == language_option_texts().take(i as int),
        decreases table@.len() - i,
    {
        let ghost listed = texts_of(options@);
        let mut option = table[i].0.to_string();
        option.append(OPTION_SEPARATOR);
        option.append(table[i].1);
        options.push(option);
        assert(texts_of(options@) =~= listed.push(option_text(table@[i as int].0@, table@[i as int].1@)));
        assert(language_option_texts().take(i + 1) =~= language_option_texts().take(i as int).push(
            language_option_texts()[i as int],
        ));
        i += 1;
    }
    assert(language_option_texts().take(i as int) =~= language_option_texts());
    options
}

/// The position of the language that is preselected: that of the default
/// code, or the first language.
pub fn language_default_index(default: Option<&str>) -> (index: usize)
    ensures
        index == preselected(
            language_codes(),
            match default {
                Some(d) => Some(d@),
                None => None,
            },
        ),
{
    let table = supported_languages();
    let mut codes: Vec<String> = Vec::new();
    let mut i: usize = 0;
    assert(texts_of(codes@) =~= language_codes().take(0));
    while i < table.len()
        invariant
            i <= table@.len(),
            table@ == language_table(),
            texts_of(codes@) == language_codes().take(i as int),
        decreases table@.len() - i,
    {
        let ghost listed = texts_of(codes@);
        codes.push(table[i].0.to_string());
        assert(texts_of(codes@) =~= listed.push(table@[i as int].0@));
        assert(language_codes().take(i + 1) =~= language_codes().take(i as int).push(
            language_codes()[i as int],
        ));
        i += 1;
    }
    assert(language_codes().take(i as int) =~= language_codes());
    default_index(&codes, default)
}

/// The key of an option: what stands before its first separator, or all of it
/// if it has none.
pub open spec fn key_of_option(selection: Seq<char>) -> Seq<char> {
    selection.take(first_occurrence(selection, OPTION_SEPARATOR@, 0))
}

/// The key that a selected option stands for.
pub fn selection_key(selection: &str) -> (key: String)
    ensures
        key@ == key_of_option(selection@),
{
    let chars = to_chars(selection);
    let separator = to_chars(OPTION_SEPARATOR);
    let at = find_text(chars.as_slice(), separator.as_slice(), 0);
    let key = from_char_range(chars.as_slice(), 0, at);
    assert(key@ =~= selection@.take(at as int));
    key
}

/// The options offered for the style: "(none)", then `key - description` for
/// each preset, then for each custom style in ascending order of its key.
pub open spec fn style_option_texts(file: ConfigFile) -> Seq<Seq<char>> {
    seq![NO_STYLE_OPTION@] + preset_table().map_values(
        |preset: PresetStyle| option_text(preset.key@, preset.description@),
    ) + Seq::new(
        file.styles.names().len(),
        |i: int|
            option_text(file.styles.names()[i], file.styles@[file.styles.names()[i]].description@),
    )
}

/// The options offered for the style.
pub fn style_options(config: &ConfigFile) -> (options: Vec<String>)
    ensures
        texts_of(options@) == style_option_texts(*config),
{
    let mut options: Vec<String> = Vec::new();
    options.push(NO_STYLE_OPTION.to_string());
    let list = presets();
    let ghost preset_options = preset_table().map_values(
        |preset: PresetStyle| option_text(preset.key@, preset.description@),
    );
    let mut i: usize = 0;
    assert(texts_of(options@) =~= seq![NO_STYLE_OPTION@] + preset_options.take(0));
    while i < list.len()
        invariant
            i <= list@.len(),
            list@ == preset_table(),
            preset_options == preset_table().map_values(
                |preset: PresetStyle| option_text(preset.key@, preset.description@),
            ),
            texts_of(options@) == seq![NO_STYLE_OPTION@] + preset_options.take(i as int),
        decreases list@.len() - i,
    {
        let ghost listed = texts_of(options@);
        let mut option = list[i].key.to_string();
        option.append(OPTION_SEPARATOR);
        option.append(list[i].description);
        options.push(option);
        assert(texts_of(options@) =~= listed.push(
            option_text(list@[i as int].key@, list@[i as int].description@),
        ));
        assert(preset_options.take(i + 1) =~= preset_options.take(i as int).push(
            preset_options[i as int],
        ));
        i += 1;
    }
    assert(preset_options.take(i as int) =~= preset_options);
    let count = config.styles.len();
    let ghost names = config.styles.names();
    let ghost custom_options = Seq::new(
        names.len(),
        |i: int| option_text(names[i], config.styles@[names[i]].description@),
    );
    let mut j: usize = 0;
    assert(texts_of(options@) =~= seq![NO_STYLE_OPTION@] + preset_options + custom_options.take(0));
    while j < count
        invariant
            j <= count,
            count == names.len(),
            names == config.styles.names(),
            custom_options == Seq::new(
                names.len(),
                |i: int| option_text(names[i], config.styles@[names[i]].description@),
            ),
            texts_of(options@) == seq![NO_STYLE_OPTION@] + preset_options + custom_options.take(
                j as int,
            ),
        decreases count - j,
    {
        let ghost listed = texts_of(options@);
        let mut option = config.styles.name_at(j).clone();
        option.append(OPTION_SEPARATOR);
        option.append(config.styles.value_at(j).description.as_str());
        options.push(option);
        assert(texts_of(options@) =~= listed.push(custom_options[j as int]));
        assert(custom_options.take(j + 1) =~= custom_options.take(j as int).push(
            custom_options[j as int],
        ));
        j += 1;
    }
    assert(custom_options.take(j as int) =~= custom_options);
    options
}

/// The position of the style option that is preselected: that of the default
/// style among the presets or, failing that, among the custom styles; the
/// option "(none)" if there is no default or no style has its key.
pub open spec fn preselected_style(file: ConfigFile, default: Option<Seq<char>>) -> int {
    match default {
        Some(key) => {
            let styles = preset_keys() + file.styles.names();
            if first_index_of(styles, key, 0) < styles.len() {
                first_index_of(styles, key, 0) + 1
            } else {
                0
            }
        },
        None => 0,
    }
}

/// The position of the style option that is preselected.
pub fn style_default_index(config: &ConfigFile, default: Option<&str>) -> (index: usize)
    ensures
        index == preselected_style(
            *config,
            match default {
                Some(d) => Some(d@),
                None => None,
            },
        ),
{
    let wanted = match default {
        Some(key) => key,
        None => {
            return 0;
        },
    };
    let list = presets();
    let mut keys: Vec<String> = Vec::new();
    keys.push(String::new());
    let mut i: usize = 0;
    assert(texts_of(keys@) =~= seq![Seq::<char>::empty()] + preset_keys().take(0));
    while i < list.len()
        invariant
            i <= list@.len(),
            list@ == preset_table(),
            texts_of(keys@) == seq![Seq::<char>::empty()] + preset_keys().take(i as int),
        decreases list@.len() - i,
    {
        let ghost listed = texts_of(keys@);
        keys.push(list[i].key.to_string());
        assert(texts_of(keys@) =~= listed.push(list@[i as int].key@));
        assert(preset_keys().take(i + 1) =~= preset_keys().take(i as int).push(
            preset_keys()[i as int],
        ));
        i += 1;
    }
    assert(preset_keys().take(i as int) =~= preset_keys());
    let mut custom = config.styles.keys();
    let ghost names = texts_of(custom@);
    let ghost fixed = texts_of(keys@);
    keys.append(&mut custom);
    assert(texts_of(keys@) =~= fixed + names);
    let ghost styles = preset_keys() + config.styles.names();
    assert(texts_of(keys@) =~= seq![Seq::<char>::empty()] + styles);
    assert(texts_of(keys@).len() == keys@.len());
    let mut at: usize = 1;
    while at < keys.len()
        invariant
            1 <= at <= keys@.len(),
            default == Some(wanted),
            styles == preset_keys() + config.styles.names(),
            keys@.len() == styles.len() + 1,
            texts_of(keys@) == seq![Seq::<char>::empty()] + styles,
            first_index_of(styles, wanted@, 0) == first_index_of(styles, wanted@, at - 1),
        decreases keys@.len() - at,
    {
        assert(texts_of(keys@)[at as int] == styles[at - 1]);
        if same_text(keys[at].as_str(), wanted) {
            assert(first_index_of(styles, wanted@, at - 1) == at - 1);
            return at;
        }
        assert(styles[at - 1] != wanted@);
        at += 1;
    }
    0
}

/// The style that a selected option stands for: none for "(none)", else the
/// option's key.
pub fn style_of_selection(selection: &str) -> (style: Option<String>)
    ensures
        text_of(style) == if selection@ == NO_STYLE_OPTION@ {
            None
        } else {
            Some(key_of_option(selection@))
        },
{
    if same_text(selection, NO_STYLE_OPTION) {
        None
    } else {
        Some(selection_key(selection))
    }
}

/// Sets the defaults of the configuration to what the user chose.
///
/// It refuses, and changes nothing, if no provider is configured.
pub fn run_configure(
    config: &mut ConfigFile,
    provider: String,
    model: String,
    to: String,
    style: Option<String>,
) -> (done: Result<(), ConfigureError>)
    ensures
        final(config).providers == old(config).providers,
        final(config).styles == old(config).styles,
        if old(config).providers.names().len() == 0 {
            done == Err::<(), ConfigureError>(ConfigureError::NoProviders) && *final(config)
                == *old(config)
        } else {
            &&& done is Ok
            &&& final(config).tl.provider == Some(provider)
            &&& final(config).tl.model == Some(model)
            &&& final(config).tl.to == Some(to)
            &&& final(config).tl.style == style
        },
{
    match check_configurable(config) {
        Ok(_) => {},
        Err(e) => {
            return Err(e);
        },
    }
    config.tl = TlConfig { provider: Some(provider), model: Some(model), to: Some(to), style };
    Ok(())
}

/// How a default is shown: its value, or that it is not set.
pub open spec fn default_text(style: Style, value: Option<String>) -> Seq<char> {
    match value {
        Some(v) => style.value_text(v@),
        None => style.secondary_text("(not set)"@),
    }
}

/// The defaults of a configuration as they are shown, followed by an empty line.
pub open spec fn defaults_text(style: Style, file: ConfigFile) -> Seq<Seq<char>> {
    seq![
        style.header_text("Current defaults"@),
        row("  "@, style.label_text("provider"@), "  "@, default_text(style, file.tl.provider)),
        row("  "@, style.label_text("model"@), "     "@, default_text(style, file.tl.model)),
        row("  "@, style.label_text("to"@), "        "@, default_text(style, file.tl.to)),
        row("  "@, style.label_text("style"@), "     "@, default_text(style, file.tl.style)),
        Seq::empty(),
    ]
}

/// Makes the line that shows one default.
fn write_default(style: &Style, label: &str, gap: &str, value: &Option<String>) -> (line: String)
    ensures
        line@ == row("  "@, style.label_text(label@), gap@, default_text(*style, *value)),
{
    let shown = match value {
        Some(v) => style.value(v.as_str()),
        None => style.secondary("(not set)"),
    };
    write_row("  ", style.label(label).as_str(), gap, shown.as_str())
}

/// The lines that show the current defaults.
pub fn print_current_defaults(config: &ConfigFile, style: &Style) -> (lines: Vec<String>)
    ensures
        texts_of(lines@) == defaults_text(*style, *config),
{
    let mut lines: Vec<String> = Vec::new();
    lines.push(style.header("Current defaults"));
    lines.push(write_default(style, "provider", "  ", &config.tl.provider));
    lines.push(write_default(style, "model", "     ", &config.tl.model));
    lines.push(write_default(style, "to", "        ", &config.tl.to));
    lines.push(write_default(style, "style", "     ", &config.tl.style));
    lines.push(String::new());
    assert(texts_of(lines@) =~= defaults_text(*style, *config));
    lines
}

} // verus!
