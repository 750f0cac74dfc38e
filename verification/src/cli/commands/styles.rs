//! Adding, editing and removing custom styles.

use vstd::prelude::*;
use vstd::string::*;
use crate::config::{ConfigFile, CustomStyle};
use crate::chat::ui::{row, write_row};
use crate::split::{char_texts, lines, pad_right, padded, split_lines};
use crate::style::{
    custom_key_verdict, find_preset, get_preset, is_preset, is_preset_key, preset_table,
    presets, validate_custom_key, PresetStyle, StyleError, StyleErrorView,
};
use crate::ui::theme::Style;
use crate::text::{
    from_chars, join, joined, same_text, skip_whitespace, text_of, texts_of, to_chars, trim,
    trimmed, whitespace,
};

verus! {

/// Why a style command did nothing.
#[derive(Debug, Clone)]
pub enum StyleCommandError {
    /// The key of a new style is malformed or reserved.
    Key(StyleError),
    /// A custom style with this key exists already.
    AlreadyExists(String),
    /// The description is empty.
    EmptyDescription,
    /// The prompt is empty.
    EmptyPrompt,
    /// A preset cannot be edited.
    EditPreset(String),
    /// A preset cannot be removed.
    RemovePreset(String),
    /// There is no custom style with this key to edit.
    NothingToEdit(String),
    /// There is no custom style with this key.
    NotFound(String),
}

/// Why a style command did nothing, as a mathematical value.
pub enum StyleCommandErrorView {
    Key(StyleErrorView),
    AlreadyExists(Seq<char>),
    EmptyDescription,
    EmptyPrompt,
    EditPreset(Seq<char>),
    RemovePreset(Seq<char>),
    NothingToEdit(Seq<char>),
    NotFound(Seq<char>),
}

impl View for StyleCommandError {
    type V = StyleCommandErrorView;

    open spec fn view(&self) -> StyleCommandErrorView {
        match *self {
            StyleCommandError::Key(e) => StyleCommandErrorView::Key(e@),
            StyleCommandError::AlreadyExists(name) => StyleCommandErrorView::AlreadyExists(name@),
            StyleCommandError::EmptyDescription => StyleCommandErrorView::EmptyDescription,
            StyleCommandError::EmptyPrompt => StyleCommandErrorView::EmptyPrompt,
            StyleCommandError::EditPreset(name) => StyleCommandErrorView::EditPreset(name@),
            StyleCommandError::RemovePreset(name) => StyleCommandErrorView::RemovePreset(name@),
            StyleCommandError::NothingToEdit(name) => StyleCommandErrorView::NothingToEdit(name@),
            StyleCommandError::NotFound(name) => StyleCommandErrorView::NotFound(name@),
        }
    }
}

impl StyleCommandErrorView {
    /// The message shown to the user.
    pub open spec fn message(self) -> Seq<char> {
        match self {
            StyleCommandErrorView::Key(e) => e.message(),
            StyleCommandErrorView::AlreadyExists(name) => "Style '"@ + name
                + "' already exists. Use 'tl styles edit "@ + name + "' to modify it."@,
            StyleCommandErrorView::EmptyDescription => "Description cannot be empty"@,
            StyleCommandErrorView::EmptyPrompt => "Prompt cannot be empty"@,
            StyleCommandErrorView::EditPreset(name) => "Cannot edit preset style '"@ + name
                + "'. Preset styles are immutable."@,
            StyleCommandErrorView::RemovePreset(name) => "Cannot remove preset style '"@ + name
                + "'. Preset styles are immutable."@,
            StyleCommandErrorView::NothingToEdit(name) => "Style '"@ + name
                + "' not found. Use 'tl styles add' to create it."@,
            StyleCommandErrorView::NotFound(name) => "Style '"@ + name + "' not found"@,
        }
    }
}

impl StyleCommandError {
    /// The message shown to the user.
    pub fn message(&self) -> (out: String)
        ensures
            out@ == self@.message(),
    {
        match self {
            StyleCommandError::Key(e) => e.message(),
            StyleCommandError::AlreadyExists(name) => {
                let mut out = "Style '".to_string();
                out.append(name.as_str());
                out.append("' already exists. Use 'tl styles edit ");
                out.append(name.as_str());
                out.append("' to modify it.");
                out
            },
            StyleCommandError::EmptyDescription => "Description cannot be empty".to_string(),
            StyleCommandError::EmptyPrompt => "Prompt cannot be empty".to_string(),
            StyleCommandError::EditPreset(name) => {
                let mut out = "Cannot edit preset style '".to_string();
                out.append(name.as_str());
                out.append("'. Preset styles are immutable.");
                out
            },
            StyleCommandError::RemovePreset(name) => {
                let mut out = "Cannot remove preset style '".to_string();
                out.append(name.as_str());
                out.append("'. Preset styles are immutable.");
                out
            },
            StyleCommandError::NothingToEdit(name) => {
                let mut out = "Style '".to_string();
                out.append(name.as_str());
                out.append("' not found. Use 'tl styles add' to create it.");
                out
            },
            StyleCommandError::NotFound(name) => {
                let mut out = "Style '".to_string();
                out.append(name.as_str());
                out.append("' not found");
                out
            },
        }
    }
}

/// A line whose first character after leading white space is `#`.
pub open spec fn is_comment_line(line: Seq<char>) -> bool {
    let start = skip_whitespace(line, 0);
    0 <= start < line.len() && line[start] == '#'
}

/// The lines that are no comment lines, in order.
pub open spec fn without_comments(all: Seq<Seq<char>>) -> Seq<Seq<char>>
    decreases all.len(),
{
    if all.len() == 0 {
        Seq::empty()
    } else if is_comment_line(all.last()) {
        without_comments(all.drop_last())
    } else {
        without_comments(all.drop_last()).push(all.last())
    }
}

/// A prompt as the editor returned it, without its comment lines and without
/// white space around what is left.
pub open spec fn filtered_prompt(text: Seq<char>) -> Seq<char> {
    trimmed(joined(without_comments(lines(text)), "\n"@))
}

/// Filters out comment lines (starting with #) and trims the result.
pub fn filter_comment_lines(text: &str) -> (out: String)
    ensures
        out@ == filtered_prompt(text@),
{
    let chars = to_chars(text);
    let all = split_lines(chars.as_slice());
    let mut kept: Vec<String> = Vec::new();
    let mut i: usize = 0;
    assert(texts_of(kept@) =~= without_comments(char_texts(all@).take(0)));
    while i < all.len()
        invariant
            i <= all@.len(),
            texts_of(kept@) == without_comments(char_texts(all@).take(i as int)),
        decreases all@.len() - i,
    {
        let line = &all[i];
        let ghost seen = char_texts(all@).take(i as int);
        let ghost listed = texts_of(kept@);
        proof {
            assert(char_texts(all@).take(i + 1).drop_last() =~= seen);
            assert(char_texts(all@).take(i + 1).last() == line@);
        }
        let mut start: usize = 0;
        while start < line.len() && whitespace(line[start])
            invariant
                start <= line@.len(),
                skip_whitespace(line@, 0) == skip_whitespace(line@, start as int),
            decreases line@.len() - start,
        {
            start += 1;
        }
        if !(start < line.len() && line[start] == '#') {
            kept.push(from_chars(line.as_slice()));
            assert(texts_of(kept@) =~= listed.push(line@));
        }
        i += 1;
    }
    assert(char_texts(all@).take(i as int) =~= char_texts(all@));
    let text = join(&kept, "\n");
    trim(text.as_str())
}

/// The key of a style to add: the trimmed answer, if it has the shape of a
/// custom key, is no preset's key, and is not taken.
pub open spec fn new_style_key(file: ConfigFile, answer: Seq<char>) -> Result<
    Seq<char>,
    StyleCommandErrorView,
> {
    let key = trimmed(answer);
    match custom_key_verdict(key) {
        Err(e) => Err(StyleCommandErrorView::Key(e)),
        Ok(_) => if file.styles@.contains_key(key) {
            Err(StyleCommandErrorView::AlreadyExists(key))
        } else {
            Ok(key)
        },
    }
}

/// Checks the answer to "Style name:" for a style to add.
pub fn check_new_style_name(config: &ConfigFile, answer: &str) -> (checked: Result<
    String,
    StyleCommandError,
>)
    ensures
        match checked {
            Ok(key) => new_style_key(*config, answer@) == Ok::<Seq<char>, StyleCommandErrorView>(
                key@,
            ),
            Err(e) => new_style_key(*config, answer@) == Err::<Seq<char>, StyleCommandErrorView>(
                e@,
            ),
        },
{
    let key = trim(answer);
    match validate_custom_key(key.as_str()) {
        Err(e) => Err(StyleCommandError::Key(e)),
        Ok(_) => {
            if config.styles.contains_key(key.as_str()) {
                Err(StyleCommandError::AlreadyExists(key))
            } else {
                Ok(key)
            }
        },
    }
}

/// Checks the answer to "Description:": trimmed, it must not be empty.
pub fn check_description(answer: &str) -> (checked: Result<String, StyleCommandError>)
    ensures
        match checked {
            Ok(description) => description@ == trimmed(answer@) && description@.len() > 0,
            Err(e) => e@ == StyleCommandErrorView::EmptyDescription && trimmed(answer@).len() == 0,
        },
{
    let description = trim(answer);
    if description.as_str().unicode_len() == 0 {
        Err(StyleCommandError::EmptyDescription)
    } else {
        Ok(description)
    }
}

/// Checks the prompt of a style to add: without comment lines and trimmed,
/// it must not be empty.
pub fn check_new_prompt(answer: &str) -> (checked: Result<String, StyleCommandError>)
    ensures
        match checked {
            Ok(prompt) => prompt@ == filtered_prompt(answer@) && prompt@.len() > 0,
            Err(e) => e@ == StyleCommandErrorView::EmptyPrompt && filtered_prompt(answer@).len()
                == 0,
        },
{
    let prompt = filter_comment_lines(answer);
    if prompt.as_str().unicode_len() == 0 {
        Err(StyleCommandError::EmptyPrompt)
    } else {
        Ok(prompt)
    }
}

/// Checks the prompt of an edited style: trimmed, it must not be empty.
pub fn check_edited_prompt(answer: &str) -> (checked: Result<String, StyleCommandError>)
    ensures
        match checked {
            Ok(prompt) => prompt@ == trimmed(answer@) && prompt@.len() > 0,
            Err(e) => e@ == StyleCommandErrorView::EmptyPrompt && trimmed(answer@).len() == 0,
        },
{
    let prompt = trim(answer);
    if prompt.as_str().unicode_len() == 0 {
        Err(StyleCommandError::EmptyPrompt)
    } else {
        Ok(prompt)
    }
}

/// `after` is `before` with the style `key` set to the given description and
/// prompt, and nothing else changed.
pub open spec fn style_stored(
    before: ConfigFile,
    after: ConfigFile,
    key: Seq<char>,
    description: Seq<char>,
    prompt: Seq<char>,
) -> bool {
    &&& after.tl == before.tl
    &&& after.providers == before.providers
    &&& after.styles@.dom() == before.styles@.dom().insert(key)
    &&& after.styles@[key].description@ == description
    &&& after.styles@[key].prompt@ == prompt
    &&& forall|other: Seq<char>|
        other != key && before.styles@.contains_key(other) ==> #[trigger] after.styles@[other]
            == before.styles@[other]
}

/// What adding a style answers: the key, the description and the prompt that
/// are stored, or why nothing is stored. The answers are checked in the order
/// in which they are asked for.
pub open spec fn style_to_add(
    file: ConfigFile,
    name: Seq<char>,
    description: Seq<char>,
    prompt: Seq<char>,
) -> Result<(Seq<char>, Seq<char>, Seq<char>), StyleCommandErrorView> {
    match new_style_key(file, name) {
        Err(e) => Err(e),
        Ok(key) => if trimmed(description).len() == 0 {
            Err(StyleCommandErrorView::EmptyDescription)
        } else if filtered_prompt(prompt).len() == 0 {
            Err(StyleCommandErrorView::EmptyPrompt)
        } else {
            Ok((key, trimmed(description), filtered_prompt(prompt)))
        },
    }
}

/// Adds a custom style from the user's answers and returns its key.
pub fn add_style(config: &mut ConfigFile, name: &str, description: &str, prompt: &str) -> (added:
    Result<String, StyleCommandError>)
    ensures
        match added {
            Ok(key) => {
                &&& style_to_add(*old(config), name@, description@, prompt@) matches Ok(stored)
                &&& key@ == stored.0
                &&& style_stored(*old(config), *final(config), stored.0, stored.1, stored.2)
            },
            Err(e) => {
                &&& style_to_add(*old(config), name@, description@, prompt@) == Err::<
                    (Seq<char>, Seq<char>, Seq<char>),
                    StyleCommandErrorView,
                >(e@)
                &&& *final(config) == *old(config)
            },
        },
{
    let key = match check_new_style_name(config, name) {
        Ok(key) => key,
        Err(e) => {
            return Err(e);
        },
    };
    let description = match check_description(description) {
        Ok(description) => description,
        Err(e) => {
            return Err(e);
        },
    };
    let prompt = match check_new_prompt(prompt) {
        Ok(prompt) => prompt,
        Err(e) => {
            return Err(e);
        },
    };
    config.styles.insert(key.clone(), CustomStyle { description, prompt });
    assert(config.styles@.dom() =~= old(config).styles@.dom().insert(key@));
    Ok(key)
}

/// That the style `name` can be edited: it is no preset, and a custom style
/// with this key exists.
pub open spec fn editable_style(file: ConfigFile, name: Seq<char>) -> Result<
    (),
    StyleCommandErrorView,
> {
    if is_preset_key(name) {
        Err(StyleCommandErrorView::EditPreset(name))
    } else if !file.styles@.contains_key(name) {
        Err(StyleCommandErrorView::NothingToEdit(name))
    } else {
        Ok(())
    }
}

/// Checks that the style `name` can be edited, and returns it as it stands.
pub fn check_editable<'a>(config: &'a ConfigFile, name: &str) -> (checked: Result<
    &'a CustomStyle,
    StyleCommandError,
>)
    ensures
        match checked {
            Ok(current) => editable_style(*config, name@) is Ok && *current
                == config.styles@[name@],
            Err(e) => editable_style(*config, name@) == Err::<(), StyleCommandErrorView>(e@),
        },
{
    if is_preset(name) {
        return Err(StyleCommandError::EditPreset(name.to_string()));
    }
    match config.styles.get(name) {
        Some(current) => Ok(current),
        None => Err(StyleCommandError::NothingToEdit(name.to_string())),
    }
}

/// What editing a style answers: the description and the prompt that are
/// stored, or why nothing is stored.
pub open spec fn style_to_edit(
    file: ConfigFile,
    name: Seq<char>,
    description: Seq<char>,
    prompt: Seq<char>,
) -> Result<(Seq<char>, Seq<char>), StyleCommandErrorView> {
    match editable_style(file, name) {
        Err(e) => Err(e),
        Ok(_) => if trimmed(description).len() == 0 {
            Err(StyleCommandErrorView::EmptyDescription)
        } else if trimmed(prompt).len() == 0 {
            Err(StyleCommandErrorView::EmptyPrompt)
        } else {
            Ok((trimmed(description), trimmed(prompt)))
        },
    }
}

/// Replaces the description and the prompt of an existing custom style.
pub fn edit_style(config: &mut ConfigFile, name: &str, description: &str, prompt: &str) -> (edited:
    Result<(), StyleCommandError>)
    ensures
        match edited {
            Ok(_) => {
                &&& style_to_edit(*old(config), name@, description@, prompt@) matches Ok(stored)
                &&& style_stored(*old(config), *final(config), name@, stored.0, stored.1)
            },
            Err(e) => {
                &&& style_to_edit(*old(config), name@, description@, prompt@) == Err::<
                    (Seq<char>, Seq<char>),
                    StyleCommandErrorView,
                >(e@)
                &&& *final(config) == *old(config)
            },
        },
{
    match check_editable(config, name) {
        Ok(_) => {},
        Err(e) => {
            return Err(e);
        },
    }
    let description = match check_description(description) {
        Ok(description) => description,
        Err(e) => {
            return Err(e);
        },
    };
    let prompt = match check_edited_prompt(prompt) {
        Ok(prompt) => prompt,
        Err(e) => {
            return Err(e);
        },
    };
    config.styles.insert(name.to_string(), CustomStyle { description, prompt });
    assert(config.styles@.dom() =~= old(config).styles@.dom().insert(name@));
    Ok(())
}

/// That the style `name` can be removed: it is no preset, and a custom style
/// with this key exists.
pub open spec fn removable_style(file: ConfigFile, name: Seq<char>) -> Result<
    (),
    StyleCommandErrorView,
> {
    if is_preset_key(name) {
        Err(StyleCommandErrorView::RemovePreset(name))
    } else if !file.styles@.contains_key(name) {
        Err(StyleCommandErrorView::NotFound(name))
    } else {
        Ok(())
    }
}

/// Checks that the style `name` can be removed.
pub fn check_removable(config: &ConfigFile, name: &str) -> (checked: Result<(), StyleCommandError>)
    ensures
        match checked {
            Ok(_) => removable_style(*config, name@) is Ok,
            Err(e) => removable_style(*config, name@) == Err::<(), StyleCommandErrorView>(e@),
        },
{
    if is_preset(name) {
        return Err(StyleCommandError::RemovePreset(name.to_string()));
    }
    if !config.styles.contains_key(name) {
        return Err(StyleCommandError::NotFound(name.to_string()));
    }
    Ok(())
}

/// What became of a removal.
#[derive(Debug, Clone, Copy, PartialEq, Eq, Structural)]
pub enum Removal {
    /// The user did not confirm. Nothing changed.
    Cancelled,
    /// The entry is gone. `was_default` says whether the defaults still name it.
    Removed { was_default: bool },
}

/// Removes a custom style if the user confirmed.
///
/// The default style of the configuration is left as it is, also where it
/// names the removed style; the outcome says so.
pub fn remove_style(config: &mut ConfigFile, name: &str, confirmed: bool) -> (removed: Result<
    Removal,
    StyleCommandError,
>)
    ensures
        final(config).tl == old(config).tl,
        final(config).providers == old(config).providers,
        match removed {
            Err(e) => removable_style(*old(config), name@) == Err::<(), StyleCommandErrorView>(e@)
                && *final(config) == *old(config),
            Ok(Removal::Cancelled) => removable_style(*old(config), name@) is Ok && !confirmed
                && *final(config) == *old(config),
            Ok(Removal::Removed { was_default }) => {
                &&& removable_style(*old(config), name@) is Ok
                &&& confirmed
                &&& final(config).styles@ == old(config).styles@.remove(name@)
                &&& was_default == (text_of(old(config).tl.style) == Some(name@))
            },
        },
{
    match check_removable(config, name) {
        Ok(_) => {},
        Err(e) => {
            return Err(e);
        },
    }
    if !confirmed {
        return Ok(Removal::Cancelled);
    }
    let was_default = match &config.tl.style {
        Some(default) => same_text(default.as_str(), name),
        None => false,
    };
    config.styles.remove(name);
    Ok(Removal::Removed { was_default })
}

/// One line of a listing of styles: the key, padded to ten characters, and
/// the description.
pub open spec fn style_row(style: Style, key: Seq<char>, description: Seq<char>) -> Seq<char> {
    row("  "@, style.value_text(padded(key, 10)), "  "@, style.secondary_text(description))
}

/// The lines that list the presets, in listing order.
pub open spec fn preset_rows(style: Style) -> Seq<Seq<char>> {
    preset_table().map_values(
        |preset: PresetStyle| style_row(style, preset.key@, preset.description@),
    )
}

/// The lines that list the custom styles of a file, in ascending order of
/// their keys.
pub open spec fn custom_rows(style: Style, file: ConfigFile) -> Seq<Seq<char>> {
    Seq::new(
        file.styles.names().len(),
        |i: int|
            style_row(
                style,
                file.styles.names()[i],
                file.styles@[file.styles.names()[i]].description@,
            ),
    )
}

/// The listing of all styles: the presets and, if there are any, the custom styles.
pub open spec fn style_listing(style: Style, file: ConfigFile) -> Seq<Seq<char>> {
    seq![style.header_text("Preset styles"@)] + preset_rows(style) + (
    if file.styles.names().len() > 0 {
        seq![Seq::empty(), style.header_text("Custom styles"@)] + custom_rows(style, file)
    } else {
        Seq::empty()
    })
}

/// Makes one line of a listing of styles.
fn write_style_row(style: &Style, key: &str, description: &str) -> (line: String)
    ensures
        line@ == style_row(*style, key@, description@),
{
    write_row(
        "  ",
        style.value(pad_right(key, 10).as_str()).as_str(),
        "  ",
        style.secondary(description).as_str(),
    )
}

/// The lines that list all available styles (presets and custom).
pub fn list_styles(config: &ConfigFile, style: &Style) -> (lines: Vec<String>)
    ensures
        texts_of(lines@) == style_listing(*style, *config),
{
    let mut lines: Vec<String> = Vec::new();
    lines.push(style.header("Preset styles"));
    let list = presets();
    let ghost head = seq![style.header_text("Preset styles"@)];
    let ghost fixed = preset_rows(*style);
    let mut i: usize = 0;
    assert(texts_of(lines@) =~= head + fixed.take(0));
    while i < list.len()
        invariant
            i <= list@.len(),
            list@ == preset_table(),
            fixed == preset_rows(*style),
            texts_of(lines@) == head + fixed.take(i as int),
        decreases list@.len() - i,
    {
        let ghost listed = texts_of(lines@);
        lines.push(write_style_row(style, list[i].key, list[i].description));
        assert(texts_of(lines@) =~= listed.push(fixed[i as int]));
        assert(fixed.take(i + 1) =~= fixed.take(i as int).push(fixed[i as int]));
        i += 1;
    }
    assert(fixed.take(i as int) =~= fixed);
    let count = config.styles.len();
    if count > 0 {
        lines.push(String::new());
        lines.push(style.header("Custom styles"));
        let ghost names = config.styles.names();
        let ghost custom = custom_rows(*style, *config);
        let ghost top = head + fixed + seq![Seq::empty(), style.header_text("Custom styles"@)];
        let mut j: usize = 0;
        assert(texts_of(lines@) =~= top + custom.take(0));
        while j < count
            invariant
                j <= count,
                count == names.len(),
                names == config.styles.names(),
                custom == custom_rows(*style, *config),
                texts_of(lines@) == top + custom.take(j as int),
            decreases count - j,
        {
            let ghost listed = texts_of(lines@);
            lines.push(
                write_style_row(
                    style,
                    config.styles.name_at(j).as_str(),
                    config.styles.value_at(j).description.as_str(),
                ),
            );
            assert(texts_of(lines@) =~= listed.push(custom[j as int]));
            assert(custom.take(j + 1) =~= custom.take(j as int).push(custom[j as int]));
            j += 1;
        }
        assert(custom.take(j as int) =~= custom);
        assert(texts_of(lines@) =~= style_listing(*style, *config));
    } else {
        assert(texts_of(lines@) =~= style_listing(*style, *config));
    }
    lines
}

/// The details of a style: a title, its name and description (indented by
/// `indent`), and its prompt.
pub open spec fn style_details(
    style: Style,
    title: Seq<char>,
    indent: Seq<char>,
    name: Seq<char>,
    description: Seq<char>,
    prompt: Seq<char>,
) -> Seq<Seq<char>> {
    seq![
        style.header_text(title),
        Seq::empty(),
        row(indent, style.label_text("Name:"@), "  "@, style.value_text(name)),
        row(indent, style.label_text("Desc:"@), "  "@, style.secondary_text(description)),
        Seq::empty(),
        style.label_text("Prompt:"@),
        prompt,
    ]
}

/// What showing the style `name` answers: the details of the preset with this
/// key, else those of the custom style with this key, else that there is none.
pub open spec fn shown_style(style: Style, file: ConfigFile, name: Seq<char>) -> Result<
    Seq<Seq<char>>,
    StyleCommandErrorView,
> {
    match find_preset(name) {
        Some(preset) => Ok(
            style_details(
                style,
                "Preset style"@,
                "  "@,
                preset.key@,
                preset.description@,
                preset.prompt@,
            ),
        ),
        None => if file.styles@.contains_key(name) {
            Ok(
                style_details(
                    style,
                    "Custom style"@,
                    Seq::empty(),
                    name,
                    file.styles@[name].description@,
                    file.styles@[name].prompt@,
                ),
            )
        } else {
            Err(StyleCommandErrorView::NotFound(name))
        },
    }
}

/// Makes the lines that show the details of a style.
fn write_style_details(
    style: &Style,
    title: &str,
    indent: &str,
    name: &str,
    description: &str,
    prompt: &str,
) -> (lines: Vec<String>)
    ensures
        texts_of(lines@) == style_details(
            *style,
            title@,
            indent@,
            name@,
            description@,
            prompt@,
        ),
{
    let mut lines: Vec<String> = Vec::new();
    lines.push(style.header(title));
    lines.push(String::new());
    lines.push(write_row(indent, style.label("Name:").as_str(), "  ", style.value(name).as_str()));
    lines.push(
        write_row(
            indent,
            style.label("Desc:").as_str(),
            "  ",
            style.secondary(description).as_str(),
        ),
    );
    lines.push(String::new());
    lines.push(style.label("Prompt:"));
    lines.push(prompt.to_string());
    assert(texts_of(lines@) =~= style_details(
        *style,
        title@,
        indent@,
        name@,
        description@,
        prompt@,
    ));
    lines
}

/// The lines that show the details of a style (description and prompt).
pub fn show_style(config: &ConfigFile, name: &str, style: &Style) -> (shown: Result<
    Vec<String>,
    StyleCommandError,
>)
    ensures
        match shown {
            Ok(lines) => shown_style(*style, *config, name@) == Ok::<
                Seq<Seq<char>>,
                StyleCommandErrorView,
            >(texts_of(lines@)),
            Err(e) => shown_style(*style, *config, name@) == Err::<
                Seq<Seq<char>>,
                StyleCommandErrorView,
            >(e@),
        },
{
    proof {
        reveal_strlit("");
        assert(""@ =~= Seq::<char>::empty());
    }
    if let Some(preset) = get_preset(name) {
        return Ok(
            write_style_details(
                style,
                "Preset style",
                "  ",
                preset.key,
                preset.description,
                preset.prompt,
            ),
        );
    }
    match config.styles.get(name) {
        Some(custom) => Ok(
            write_style_details(
                style,
                "Custom style",
                "",
                name,
                custom.description.as_str(),
                custom.prompt.as_str(),
            ),
        ),
        None => Err(StyleCommandError::NotFound(name.to_string())),
    }
}

} // verus!
