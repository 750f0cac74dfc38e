//! Slash commands: parsing a line of input and completing a command name.

use vstd::prelude::*;
use vstd::string::*;
use crate::text::{
    from_chars, has_prefix, join, joined, same_text, split_words, str_starts_with, text_of,
    texts_of, to_chars, trim_bounds, trimmed, words,
};

verus! {

/// The commands offered for completion, in listing order.
pub open spec fn slash_command_names() -> Seq<Seq<char>> {
    seq!["/config"@, "/help"@, "/quit"@]
}

/// What each offered command does, in listing order.
pub open spec fn slash_command_notes() -> Seq<Seq<char>> {
    seq!["Show current configuration"@, "Show available commands"@, "Exit chat mode"@]
}

/// The suggestion shown for the command at position `i`: its name, two
/// spaces, and what it does.
pub open spec fn suggestion_at(i: int) -> Seq<char> {
    slash_command_names()[i] + "  "@ + slash_command_notes()[i]
}

/// The suggestions for `input` among the first `count` commands: those whose
/// name starts with `input`, in listing order.
pub open spec fn suggestions_among(input: Seq<char>, count: int) -> Seq<Seq<char>>
    decreases count,
{
    if 0 < count <= slash_command_names().len() {
        let before = suggestions_among(input, count - 1);
        if has_prefix(slash_command_names()[count - 1], input) {
            before.push(suggestion_at(count - 1))
        } else {
            before
        }
    } else {
        Seq::empty()
    }
}

/// The suggestions for `input`: none unless it starts with a slash.
pub open spec fn suggestions(input: Seq<char>) -> Seq<Seq<char>> {
    if has_prefix(input, "/"@) {
        suggestions_among(input, slash_command_names().len() as int)
    } else {
        Seq::empty()
    }
}

/// The first word of `text`, or the empty text if it has none.
pub open spec fn first_word(text: Seq<char>) -> Seq<char> {
    if words(text).len() > 0 {
        words(text)[0]
    } else {
        Seq::empty()
    }
}

/// Completes slash commands while the user types.
#[derive(Clone, Copy, Debug)]
pub struct SlashCommandCompleter;

impl SlashCommandCompleter {
    /// The suggestions to show for what has been typed so far.
    pub fn get_suggestions(&mut self, input: &str) -> (list: Vec<String>)
        ensures
            texts_of(list@) == suggestions(input@),
    {
        let mut list: Vec<String> = Vec::new();
        if !str_starts_with(input, "/") {
            assert(texts_of(list@) =~= Seq::<Seq<char>>::empty());
            return list;
        }
        let names = vec!["/config", "/help", "/quit"];
        let notes = vec!["Show current configuration", "Show available commands", "Exit chat mode"];
        assert(names@.map_values(|s: &str| s@) =~= slash_command_names());
        assert(notes@.map_values(|s: &str| s@) =~= slash_command_notes());
        let mut i: usize = 0;
        assert(texts_of(list@) =~= Seq::<Seq<char>>::empty());
        while i < names.len()
            invariant
                i <= names@.len(),
                names@.len() == 3,
                notes@.len() == 3,
                names@.map_values(|s: &str| s@) == slash_command_names(),
                notes@.map_values(|s: &str| s@) == slash_command_notes(),
                texts_of(list@) == suggestions_among(input@, i as int),
            decreases names@.len() - i,
        {
            assert(names@[i as int]@ == slash_command_names()[i as int]);
            assert(notes@[i as int]@ == slash_command_notes()[i as int]);
            if str_starts_with(names[i], input) {
                let mut line = names[i].to_string();
                line.append("  ");
                line.append(notes[i]);
                let ghost shown = texts_of(list@);
                list.push(line);
                assert(texts_of(list@) =~= shown.push(suggestion_at(i as int)));
            }
            i += 1;
        }
        list
    }

    /// What replaces the input when a suggestion is accepted: the command
    /// name at the start of the suggestion.
    pub fn get_completion(&mut self, input: &str, highlighted_suggestion: Option<String>) -> (replacement:
        Option<String>)
        ensures
            text_of(replacement) == match highlighted_suggestion {
                Some(suggestion) => Some(first_word(suggestion@)),
                None => None,
            },
    {
        match highlighted_suggestion {
            Some(suggestion) => {
                let chars = to_chars(suggestion.as_str());
                let parts = split_words(chars.as_slice());
                if parts.len() > 0 {
                    assert(parts@.map_values(|w: Vec<char>| w@)[0] == parts@[0]@);
                    Some(from_chars(parts[0].as_slice()))
                } else {
                    Some(String::new())
                }
            },
            None => None,
        }
    }
}

/// Slash command types.
#[derive(Debug, Clone)]
pub enum SlashCommand {
    /// Show the session's configuration.
    Config,
    /// Show the available commands.
    Help,
    /// Leave chat mode.
    Quit,
    /// Change one setting of the session.
    Change { key: String, value: Option<String> },
    /// Anything else, with its words separated by single spaces.
    Unknown(String),
}

/// A slash command as a mathematical value.
pub enum SlashCommandView {
    Config,
    Help,
    Quit,
    Change { key: Seq<char>, value: Option<Seq<char>> },
    Unknown(Seq<char>),
}

impl View for SlashCommand {
    type V = SlashCommandView;

    open spec fn view(&self) -> SlashCommandView {
        match *self {
            SlashCommand::Config => SlashCommandView::Config,
            SlashCommand::Help => SlashCommandView::Help,
            SlashCommand::Quit => SlashCommandView::Quit,
            SlashCommand::Change { key, value } => SlashCommandView::Change {
                key: key@,
                value: text_of(value),
            },
            SlashCommand::Unknown(text) => SlashCommandView::Unknown(text@),
        }
    }
}

/// Input types.
#[derive(Debug, Clone)]
pub enum Input {
    /// Text to translate.
    Text(String),
    /// A slash command.
    Command(SlashCommand),
    /// Nothing but white space.
    Empty,
}

/// A line of input as a mathematical value.
pub enum InputView {
    Text(Seq<char>),
    Command(SlashCommandView),
    Empty,
}

impl View for Input {
    type V = InputView;

    open spec fn view(&self) -> InputView {
        match *self {
            Input::Text(text) => InputView::Text(text@),
            Input::Command(command) => InputView::Command(command@),
            Input::Empty => InputView::Empty,
        }
    }
}

/// The command that the words after the slash stand for.
///
/// The first word names the command. `set` takes the second word as the key
/// (empty if there is none) and the remaining words, separated by single
/// spaces, as the value (none if there are none).
pub open spec fn command_of(parts: Seq<Seq<char>>) -> SlashCommandView {
    if parts.len() > 0 && parts[0] == "config"@ {
        SlashCommandView::Config
    } else if parts.len() > 0 && parts[0] == "help"@ {
        SlashCommandView::Help
    } else if parts.len() > 0 && (parts[0] == "quit"@ || parts[0] == "exit"@ || parts[0] == "q"@) {
        SlashCommandView::Quit
    } else if parts.len() > 0 && parts[0] == "set"@ {
        SlashCommandView::Change {
            key: if parts.len() > 1 {
                parts[1]
            } else {
                Seq::empty()
            },
            value: if parts.len() > 2 {
                Some(joined(parts.skip(2), " "@))
            } else {
                None
            },
        }
    } else {
        SlashCommandView::Unknown(joined(parts, " "@))
    }
}

/// What a line of input means.
pub open spec fn parsed_input(input: Seq<char>) -> InputView {
    let line = trimmed(input);
    if line.len() == 0 {
        InputView::Empty
    } else if line[0] == '/' {
        InputView::Command(command_of(words(line.skip(1))))
    } else {
        InputView::Text(line)
    }
}

/// The strings of a list of words.
fn strings_of(parts: &Vec<Vec<char>>, from: usize) -> (list: Vec<String>)
    requires
        from <= parts@.len(),
    ensures
        texts_of(list@) == parts@.map_values(|w: Vec<char>| w@).skip(from as int),
{
    let mut list: Vec<String> = Vec::new();
    let mut i: usize = from;
    let ghost all = parts@.map_values(|w: Vec<char>| w@);
    assert(texts_of(list@) =~= all.skip(from as int).take(0));
    while i < parts.len()
        invariant
            from <= i <= parts@.len(),
            all == parts@.map_values(|w: Vec<char>| w@),
            texts_of(list@) == all.skip(from as int).take(i - from),
        decreases parts@.len() - i,
    {
        let ghost shown = texts_of(list@);
        list.push(from_chars(parts[i].as_slice()));
        assert(texts_of(list@) =~= shown.push(parts@[i as int]@));
        assert(all.skip(from as int).take(i + 1 - from) =~= all.skip(from as int).take(
            i - from,
        ).push(all[i as int]));
        i += 1;
    }
    assert(all.skip(from as int).take(i - from) =~= all.skip(from as int));
    list
}

/// Parses the text after the slash of a slash command.
pub fn parse_slash_command(command: &[char]) -> (input: Input)
    ensures
        input@ == InputView::Command(command_of(words(command@))),
{
    let parts = split_words(command);
    let ghost all = parts@.map_values(|w: Vec<char>| w@);
    if parts.len() > 0 {
        assert(all[0] == parts@[0]@);
        let name = from_chars(parts[0].as_slice());
        if same_text(name.as_str(), "config") {
            return Input::Command(SlashCommand::Config);
        }
        if same_text(name.as_str(), "help") {
            return Input::Command(SlashCommand::Help);
        }
        if same_text(name.as_str(), "quit") || same_text(name.as_str(), "exit") || same_text(
            name.as_str(),
            "q",
        ) {
            return Input::Command(SlashCommand::Quit);
        }
        if same_text(name.as_str(), "set") {
            let key = if parts.len() > 1 {
                assert(all[1] == parts@[1]@);
                from_chars(parts[1].as_slice())
            } else {
                String::new()
            };
            let value = if parts.len() > 2 {
                Some(join(&strings_of(&parts, 2), " "))
            } else {
                None
            };
            return Input::Command(SlashCommand::Change { key, value });
        }
    }
    let list = strings_of(&parts, 0);
    assert(all.skip(0) =~= all);
    Input::Command(SlashCommand::Unknown(join(&list, " ")))
}

/// Parses one line of input.
pub fn parse_input(input: &str) -> (parsed: Input)
    ensures
        parsed@ == parsed_input(input@),
{
    let chars = to_chars(input);
    let (start, end) = trim_bounds(chars.as_slice());
    if start == end {
        return Input::Empty;
    }
    let line = vstd::slice::slice_subrange(chars.as_slice(), start, end);
    if line[0] == '/' {
        let rest = vstd::slice::slice_subrange(line, 1, line.len());
        assert(rest@ =~= trimmed(input@).skip(1));
        parse_slash_command(rest)
    } else {
        Input::Text(from_chars(line))
    }
}

} // verus!
