//! Translation styles: the built-in presets and the user's custom styles.
//!
//! Presets and custom styles share one namespace of keys. A preset always wins a
//! lookup, and its key is reserved: no custom style can be registered under it.

use vstd::prelude::*;
use vstd::string::*;
use crate::config::CustomStyle;
use crate::name_map::NameMap;
use crate::text::{
    ascii_digit, ascii_letter, is_ascii_digit, is_ascii_letter, join, joined, names_ascending,
    same_text, texts_of, to_chars,
};

verus! {

/// A built-in translation style. Users cannot change it.
#[derive(Debug, Clone, Copy)]
pub struct PresetStyle {
    /// The style key (e.g., "casual", "formal").
    pub key: &'static str,
    /// Human-readable description.
    pub description: &'static str,
    /// Prompt text appended to the system prompt.
    pub prompt: &'static str,
}

/// The built-in styles, in the order in which they are listed.
pub open spec fn preset_table() -> Seq<PresetStyle> {
    seq![
        PresetStyle {
            key: "casual",
            description: "Casual, conversational tone",
            prompt: "Use a casual, friendly, conversational tone.",
        },
        PresetStyle {
            key: "formal",
            description: "Formal, business-appropriate",
            prompt: "Use a formal, polite, business-appropriate tone.",
        },
        PresetStyle {
            key: "literal",
            description: "Literal, close to source",
            prompt: "Translate as literally as possible while remaining grammatical.",
        },
        PresetStyle {
            key: "natural",
            description: "Natural, idiomatic",
            prompt: "Translate naturally, prioritizing idiomatic expressions over literal accuracy.",
        },
    ]
}

/// The keys of the built-in styles, in listing order.
pub open spec fn preset_keys() -> Seq<Seq<char>> {
    preset_table().map_values(|p: PresetStyle| p.key@)
}

/// The first style of `table[from..]` whose key is `key`.
pub open spec fn first_with_key(table: Seq<PresetStyle>, key: Seq<char>, from: int) -> Option<
    PresetStyle,
>
    decreases table.len() - from,
{
    if 0 <= from < table.len() {
        if table[from].key@ == key {
            Some(table[from])
        } else {
            first_with_key(table, key, from + 1)
        }
    } else {
        None
    }
}

/// The built-in style registered under `key`, if any.
pub open spec fn find_preset(key: Seq<char>) -> Option<PresetStyle> {
    first_with_key(preset_table(), key, 0)
}

/// `key` is the key of a built-in style.
pub open spec fn is_preset_key(key: Seq<char>) -> bool {
    find_preset(key) is Some
}

/// All built-in styles, in listing order.
pub fn presets() -> (list: Vec<PresetStyle>)
    ensures
        list@ == preset_table(),
{
    let list = vec![
        PresetStyle {
            key: "casual",
            description: "Casual, conversational tone",
            prompt: "Use a casual, friendly, conversational tone.",
        },
        PresetStyle {
            key: "formal",
            description: "Formal, business-appropriate",
            prompt: "Use a formal, polite, business-appropriate tone.",
        },
        PresetStyle {
            key: "literal",
            description: "Literal, close to source",
            prompt: "Translate as literally as possible while remaining grammatical.",
        },
        PresetStyle {
            key: "natural",
            description: "Natural, idiomatic",
            prompt: "Translate naturally, prioritizing idiomatic expressions over literal accuracy.",
        },
    ];
    assert(list@ =~= preset_table());
    list
}

/// A style after lookup: either a preset or a custom style with its prompt.
#[derive(Debug, Clone)]
pub enum ResolvedStyle {
    /// A preset style.
    Preset(PresetStyle),
    /// A custom user-defined style.
    Custom { key: String, prompt: String },
}

impl ResolvedStyle {
    /// The text of the style's prompt.
    pub open spec fn prompt_text(self) -> Seq<char> {
        match self {
            ResolvedStyle::Preset(preset) => preset.prompt@,
            ResolvedStyle::Custom { key, prompt } => prompt@,
        }
    }

    /// The text of the style's key.
    pub open spec fn key_text(self) -> Seq<char> {
        match self {
            ResolvedStyle::Preset(preset) => preset.key@,
            ResolvedStyle::Custom { key, prompt } => key@,
        }
    }

    /// Returns the prompt text for this style.
    pub fn prompt(&self) -> (text: &str)
        ensures
            text@ == self.prompt_text(),
    {
        match self {
            ResolvedStyle::Preset(preset) => preset.prompt,
            ResolvedStyle::Custom { key: _, prompt } => prompt.as_str(),
        }
    }

    /// Returns the key for this style.
    pub fn key(&self) -> (text: &str)
        ensures
            text@ == self.key_text(),
    {
        match self {
            ResolvedStyle::Preset(preset) => preset.key,
            ResolvedStyle::Custom { key, prompt: _ } => key.as_str(),
        }
    }
}

/// Looks up a preset style by key.
pub fn get_preset(key: &str) -> (found: Option<PresetStyle>)
    ensures
        found == find_preset(key@),
{
    let list = presets();
    let mut i: usize = 0;
    while i < list.len()
        invariant
            i <= list@.len(),
            list@ == preset_table(),
            find_preset(key@) == first_with_key(preset_table(), key@, i as int),
        decreases list@.len() - i,
    {
        if same_text(list[i].key, key) {
            return Some(list[i]);
        }
        i += 1;
    }
    None
}

/// Returns true if the key is a preset style.
pub fn is_preset(key: &str) -> (yes: bool)
    ensures
        yes == is_preset_key(key@),
{
    get_preset(key).is_some()
}

/// Returns custom style keys sorted alphabetically.
pub fn sorted_custom_keys(styles: &NameMap<CustomStyle>) -> (keys: Vec<String>)
    ensures
        texts_of(keys@) == styles.names(),
        names_ascending(texts_of(keys@)),
        forall|k: Seq<char>| texts_of(keys@).contains(k) <==> styles@.contains_key(k),
{
    styles.keys()
}

/// What went wrong with a style, as a mathematical value.
pub enum StyleErrorView {
    NotFound { key: Seq<char>, custom_keys: Seq<Seq<char>> },
    PresetImmutable(Seq<char>),
    AlreadyExists(Seq<char>),
    InvalidKey(Seq<char>),
}

/// Style-related errors.
#[derive(Debug, Clone)]
pub enum StyleError {
    /// Style not found. Contains the key and list of custom style keys.
    NotFound { key: String, custom_keys: Vec<String> },
    /// Attempted to modify a preset style.
    PresetImmutable(String),
    /// Style key already exists.
    AlreadyExists(String),
    /// Invalid style key format.
    InvalidKey(String),
}

impl View for StyleError {
    type V = StyleErrorView;

    open spec fn view(&self) -> StyleErrorView {
        match *self {
            StyleError::NotFound { key, custom_keys } => StyleErrorView::NotFound {
                key: key@,
                custom_keys: texts_of(custom_keys@),
            },
            StyleError::PresetImmutable(key) => StyleErrorView::PresetImmutable(key@),
            StyleError::AlreadyExists(key) => StyleErrorView::AlreadyExists(key@),
            StyleError::InvalidKey(key) => StyleErrorView::InvalidKey(key@),
        }
    }
}

impl StyleErrorView {
    /// The styles that could have been meant where a style was not found: the
    /// presets first, then the custom keys that the error carries. Empty for
    /// the other errors.
    pub open spec fn candidates(self) -> Seq<Seq<char>> {
        match self {
            StyleErrorView::NotFound { key, custom_keys } => preset_keys() + custom_keys,
            _ => Seq::empty(),
        }
    }

    /// The message shown to the user. A style that was not found lists every
    /// candidate.
    pub open spec fn message(self) -> Seq<char> {
        match self {
            StyleErrorView::NotFound { key, custom_keys } => "Style '"@ + key
                + "' not found\n\nAvailable styles: "@ + joined(self.candidates(), ", "@),
            StyleErrorView::PresetImmutable(key) => "Cannot modify preset style '"@ + key + "'"@,
            StyleErrorView::AlreadyExists(key) => "Style '"@ + key + "' already exists"@,
            StyleErrorView::InvalidKey(key) => "Invalid style key '"@ + key
                + "': must start with a letter and contain only alphanumeric characters and underscores"@,
        }
    }
}

impl StyleError {
    /// The styles that could have been meant: all preset keys, then the custom
    /// keys that the error carries. Empty unless a style was not found.
    pub fn candidates(&self) -> (all: Vec<String>)
        ensures
            texts_of(all@) == self@.candidates(),
    {
        let mut all: Vec<String> = Vec::new();
        match self {
            StyleError::NotFound { key: _, custom_keys } => {
                let list = presets();
                let mut i: usize = 0;
                assert(texts_of(all@) =~= preset_keys().take(0));
                while i < list.len()
                    invariant
                        i <= list@.len(),
                        list@ == preset_table(),
                        texts_of(all@) == preset_keys().take(i as int),
                    decreases list@.len() - i,
                {
                    let ghost listed = texts_of(all@);
                    all.push(list[i].key.to_string());
                    assert(texts_of(all@) =~= listed.push(list@[i as int].key@));
                    assert(preset_keys().take(i + 1) =~= preset_keys().take(i as int).push(
                        preset_keys()[i as int],
                    ));
                    i += 1;
                }
                assert(preset_keys().take(i as int) =~= preset_keys());
                let mut j: usize = 0;
                assert(texts_of(all@) =~= preset_keys() + texts_of(custom_keys@).take(0));
                while j < custom_keys.len()
                    invariant
                        j <= custom_keys@.len(),
                        texts_of(all@) == preset_keys() + texts_of(custom_keys@).take(j as int),
                    decreases custom_keys@.len() - j,
                {
                    let ghost listed = texts_of(all@);
                    all.push(custom_keys[j].clone());
                    assert(texts_of(all@) =~= listed.push(custom_keys@[j as int]@));
                    assert(texts_of(custom_keys@).take(j + 1) =~= texts_of(custom_keys@).take(
                        j as int,
                    ).push(texts_of(custom_keys@)[j as int]));
                    j += 1;
                }
                assert(texts_of(custom_keys@).take(j as int) =~= texts_of(custom_keys@));
            },
            _ => {
                assert(texts_of(all@) =~= Seq::<Seq<char>>::empty());
            },
        }
        all
    }

    /// The message shown to the user.
    pub fn message(&self) -> (out: String)
        ensures
            out@ == self@.message(),
    {
        match self {
            StyleError::NotFound { key, custom_keys: _ } => {
                let all = self.candidates();
                let mut out = "Style '".to_string();
                out.append(key.as_str());
                out.append("' not found\n\nAvailable styles: ");
                out.append(join(&all, ", ").as_str());
                out
            },
            StyleError::PresetImmutable(key) => {
                let mut out = "Cannot modify preset style '".to_string();
                out.append(key.as_str());
                out.append("'");
                out
            },
            StyleError::AlreadyExists(key) => {
                let mut out = "Style '".to_string();
                out.append(key.as_str());
                out.append("' already exists");
                out
            },
            StyleError::InvalidKey(key) => {
                let mut out = "Invalid style key '".to_string();
                out.append(key.as_str());
                out.append(
                    "': must start with a letter and contain only alphanumeric characters and underscores",
                );
                out
            },
        }
    }
}

/// Resolves a style key to a `ResolvedStyle`.
///
/// Presets are looked up first, then the custom styles. A key that neither
/// holds is reported with the sorted list of all custom keys.
pub fn resolve_style(key: &str, custom_styles: &NameMap<CustomStyle>) -> (resolved: Result<
    ResolvedStyle,
    StyleError,
>)
    ensures
        match find_preset(key@) {
            Some(preset) => resolved == Ok::<ResolvedStyle, StyleError>(
                ResolvedStyle::Preset(preset),
            ),
            None => if custom_styles@.contains_key(key@) {
                &&& resolved matches Ok(ResolvedStyle::Custom { key: k, prompt })
                &&& k@ == key@
                &&& prompt@ == custom_styles@[key@].prompt@
            } else {
                &&& resolved matches Err(e)
                &&& e@ == (StyleErrorView::NotFound {
                    key: key@,
                    custom_keys: custom_styles.names(),
                })
            },
        },
{
    if let Some(preset) = get_preset(key) {
        return Ok(ResolvedStyle::Preset(preset));
    }
    if let Some(custom) = custom_styles.get(key) {
        return Ok(ResolvedStyle::Custom { key: key.to_string(), prompt: custom.prompt.clone() });
    }
    Err(StyleError::NotFound { key: key.to_string(), custom_keys: sorted_custom_keys(custom_styles) })
}

/// A character that may stand in a custom style key.
pub open spec fn is_key_char(c: char) -> bool {
    is_ascii_letter(c) || is_ascii_digit(c) || c == '_'
}

/// The shape of a custom style key: it starts with an ASCII letter and holds
/// only ASCII letters, digits and underscores.
pub open spec fn is_well_formed_key(key: Seq<char>) -> bool {
    &&& key.len() > 0
    &&& is_ascii_letter(key[0])
    &&& forall|i: int| 0 <= i < key.len() ==> is_key_char(#[trigger] key[i])
}

/// What `validate_custom_key` answers for `key`.
pub open spec fn custom_key_verdict(key: Seq<char>) -> Result<(), StyleErrorView> {
    if !is_well_formed_key(key) {
        Err(StyleErrorView::InvalidKey(key))
    } else if is_preset_key(key) {
        Err(StyleErrorView::PresetImmutable(key))
    } else {
        Ok(())
    }
}

/// Validates a custom style key.
///
/// Keys must start with a letter, contain only alphanumeric characters and
/// underscores, and cannot be the key of a preset.
pub fn validate_custom_key(key: &str) -> (verdict: Result<(), StyleError>)
    ensures
        match verdict {
            Ok(_) => custom_key_verdict(key@) == Ok::<(), StyleErrorView>(()),
            Err(e) => custom_key_verdict(key@) == Err::<(), StyleErrorView>(e@),
        },
{
    let chars = to_chars(key);
    if chars.len() == 0 {
        return Err(StyleError::InvalidKey(key.to_string()));
    }
    if !ascii_letter(chars[0]) {
        return Err(StyleError::InvalidKey(key.to_string()));
    }
    let mut i: usize = 0;
    while i < chars.len()
        invariant
            i <= chars@.len(),
            chars@ == key@,
            forall|j: int| 0 <= j < i ==> is_key_char(#[trigger] chars@[j]),
        decreases chars@.len() - i,
    {
        let c = chars[i];
        if !(ascii_letter(c) || ascii_digit(c) || c == '_') {
            return Err(StyleError::InvalidKey(key.to_string()));
        }
        i += 1;
    }
    if is_preset(key) {
        return Err(StyleError::PresetImmutable(key.to_string()));
    }
    Ok(())
}

/// Every preset key has the shape of a custom key, so a custom style named
/// like a preset is always refused as `PresetImmutable`, never as `InvalidKey`.
pub proof fn lemma_preset_keys_are_reserved(key: Seq<char>)
    requires
        is_preset_key(key),
    ensures
        custom_key_verdict(key) == Err::<(), StyleErrorView>(StyleErrorView::PresetImmutable(key)),
{
    reveal_strlit("casual");
    reveal_strlit("formal");
    reveal_strlit("literal");
    reveal_strlit("natural");
    reveal_with_fuel(first_with_key, 5);
    assert(key == "casual"@ || key == "formal"@ || key == "literal"@ || key == "natural"@);
}

} // verus!
