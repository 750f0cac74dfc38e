//! The language codes that can be asked for as a target language.

use vstd::prelude::*;
use vstd::string::*;
use crate::split::{pad_right, padded};
use crate::text::{same_text, texts_of};
use crate::ui::theme::Style;

verus! {

/// The supported language codes (ISO 639-1) with their names, in listing order.
pub open spec fn language_table() -> Seq<(&'static str, &'static str)> {
    seq![
        ("af", "Afrikaans"),
        ("am", "Amharic"),
        ("ar", "Arabic"),
        ("az", "Azerbaijani"),
        ("be", "Belarusian"),
        ("bg", "Bulgarian"),
        ("bn", "Bengali"),
        ("bs", "Bosnian"),
        ("ca", "Catalan"),
        ("cs", "Czech"),
        ("cy", "Welsh"),
        ("da", "Danish"),
        ("de", "German"),
        ("el", "Greek"),
        ("en", "English"),
        ("es", "Spanish"),
        ("et", "Estonian"),
        ("eu", "Basque"),
        ("fa", "Persian"),
        ("fi", "Finnish"),
        ("fil", "Filipino"),
        ("fr", "French"),
        ("ga", "Irish"),
        ("gl", "Galician"),
        ("gu", "Gujarati"),
        ("he", "Hebrew"),
        ("hi", "Hindi"),
        ("hr", "Croatian"),
        ("hu", "Hungarian"),
        ("hy", "Armenian"),
        ("id", "Indonesian"),
        ("is", "Icelandic"),
        ("it", "Italian"),
        ("ja", "Japanese"),
        ("ka", "Georgian"),
        ("kk", "Kazakh"),
        ("km", "Khmer"),
        ("kn", "Kannada"),
        ("ko", "Korean"),
        ("la", "Latin"),
        ("lo", "Lao"),
        ("lt", "Lithuanian"),
        ("lv", "Latvian"),
        ("mk", "Macedonian"),
        ("ml", "Malayalam"),
        ("mn", "Mongolian"),
        ("mr", "Marathi"),
        ("ms", "Malay"),
        ("mt", "Maltese"),
        ("my", "Myanmar (Burmese)"),
        ("ne", "Nepali"),
        ("nl", "Dutch"),
        ("no", "Norwegian"),
        ("pa", "Punjabi"),
        ("pl", "Polish"),
        ("ps", "Pashto"),
        ("pt", "Portuguese"),
        ("ro", "Romanian"),
        ("ru", "Russian"),
        ("si", "Sinhala"),
        ("sk", "Slovak"),
        ("sl", "Slovenian"),
        ("sq", "Albanian"),
        ("sr", "Serbian"),
        ("sv", "Swedish"),
        ("sw", "Swahili"),
        ("ta", "Tamil"),
        ("te", "Telugu"),
        ("th", "Thai"),
        ("tl", "Tagalog"),
        ("tr", "Turkish"),
        ("uk", "Ukrainian"),
        ("ur", "Urdu"),
        ("uz", "Uzbek"),
        ("vi", "Vietnamese"),
        ("zh", "Chinese (Simplified)"),
        ("zh-TW", "Chinese (Traditional)"),
    ]
}

/// `code` is a supported language code. Codes are case sensitive.
pub open spec fn is_supported_language(code: Seq<char>) -> bool {
    exists|i: int| 0 <= i < language_table().len() && (#[trigger] language_table()[i]).0@ == code
}

/// The supported language codes with their names, in listing order.
pub fn supported_languages() -> (list: Vec<(&'static str, &'static str)>)
    ensures
        list@ == language_table(),
{
    let list = vec![
        ("af", "Afrikaans"),
        ("am", "Amharic"),
        ("ar", "Arabic"),
        ("az", "Azerbaijani"),
        ("be", "Belarusian"),
        ("bg", "Bulgarian"),
        ("bn", "Bengali"),
        ("bs", "Bosnian"),
        ("ca", "Catalan"),
        ("cs", "Czech"),
        ("cy", "Welsh"),
        ("da", "Danish"),
        ("de", "German"),
        ("el", "Greek"),
        ("en", "English"),
        ("es", "Spanish"),
        ("et", "Estonian"),
        ("eu", "Basque"),
        ("fa", "Persian"),
        ("fi", "Finnish"),
        ("fil", "Filipino"),
        ("fr", "French"),
        ("ga", "Irish"),
        ("gl", "Galician"),
        ("gu", "Gujarati"),
        ("he", "Hebrew"),
        ("hi", "Hindi"),
        ("hr", "Croatian"),
        ("hu", "Hungarian"),
        ("hy", "Armenian"),
        ("id", "Indonesian"),
        ("is", "Icelandic"),
        ("it", "Italian"),
        ("ja", "Japanese"),
        ("ka", "Georgian"),
        ("kk", "Kazakh"),
        ("km", "Khmer"),
        ("kn", "Kannada"),
        ("ko", "Korean"),
        ("la", "Latin"),
        ("lo", "Lao"),
        ("lt", "Lithuanian"),
        ("lv", "Latvian"),
        ("mk", "Macedonian"),
        ("ml", "Malayalam"),
        ("mn", "Mongolian"),
        ("mr", "Marathi"),
        ("ms", "Malay"),
        ("mt", "Maltese"),
        ("my", "Myanmar (Burmese)"),
        ("ne", "Nepali"),
        ("nl", "Dutch"),
        ("no", "Norwegian"),
        ("pa", "Punjabi"),
        ("pl", "Polish"),
        ("ps", "Pashto"),
        ("pt", "Portuguese"),
        ("ro", "Romanian"),
        ("ru", "Russian"),
        ("si", "Sinhala"),
        ("sk", "Slovak"),
        ("sl", "Slovenian"),
        ("sq", "Albanian"),
        ("sr", "Serbian"),
        ("sv", "Swedish"),
        ("sw", "Swahili"),
        ("ta", "Tamil"),
        ("te", "Telugu"),
        ("th", "Thai"),
        ("tl", "Tagalog"),
        ("tr", "Turkish"),
        ("uk", "Ukrainian"),
        ("ur", "Urdu"),
        ("uz", "Uzbek"),
        ("vi", "Vietnamese"),
        ("zh", "Chinese (Simplified)"),
        ("zh-TW", "Chinese (Traditional)"),
    ];
    assert(list@ =~= language_table());
    list
}

/// A language code that is not supported.
#[derive(Debug, Clone)]
pub struct LanguageError {
    /// The code that was asked for.
    pub code: String,
}

impl LanguageError {
    /// The message shown to the user.
    pub open spec fn message_text(self) -> Seq<char> {
        "Invalid language code: '"@ + self.code@
            + "'\n\nValid language codes (ISO 639-1): ja, en, zh, ko, fr, de, es, ...\nRun 'tl languages' to see all supported codes."@
    }

    /// The message shown to the user.
    pub fn message(&self) -> (out: String)
        ensures
            out@ == self.message_text(),
    {
        let mut out = "Invalid language code: '".to_string();
        out.append(self.code.as_str());
        out.append(
            "'\n\nValid language codes (ISO 639-1): ja, en, zh, ko, fr, de, es, ...\nRun 'tl languages' to see all supported codes.",
        );
        out
    }
}

/// Validates that the given language code is supported.
pub fn validate_language(lang: &str) -> (verdict: Result<(), LanguageError>)
    ensures
        verdict is Ok <==> is_supported_language(lang@),
        verdict matches Err(e) ==> e.code@ == lang@,
{
    let list = supported_languages();
    let mut i: usize = 0;
    while i < list.len()
        invariant
            i <= list@.len(),
            list@ == language_table(),
            forall|j: int| 0 <= j < i ==> (#[trigger] language_table()[j]).0@ != lang@,
        decreases list@.len() - i,
    {
        if same_text(list[i].0, lang) {
            assert(language_table()[i as int].0@ == lang@);
            return Ok(());
        }
        i += 1;
    }
    Err(LanguageError { code: lang.to_string() })
}

/// One line of the listing of languages: the code, styled and then padded to
/// five characters, and the name.
pub open spec fn language_row(style: Style, code: Seq<char>, name: Seq<char>) -> Seq<char> {
    "  "@ + padded(style.code_text(code), 5) + " "@ + style.secondary_text(name)
}

/// The listing of all supported languages.
pub open spec fn language_listing(style: Style) -> Seq<Seq<char>> {
    seq![style.header_text("Supported language codes (ISO 639-1)"@)] + language_table().map_values(
        |entry: (&'static str, &'static str)| language_row(style, entry.0@, entry.1@),
    )
}

/// The lines that list all supported language codes.
pub fn print_languages(style: &Style) -> (lines: Vec<String>)
    ensures
        texts_of(lines@) == language_listing(*style),
{
    let mut lines: Vec<String> = Vec::new();
    lines.push(style.header("Supported language codes (ISO 639-1)"));
    let table = supported_languages();
    let ghost head = seq![style.header_text("Supported language codes (ISO 639-1)"@)];
    let ghost rows = language_table().map_values(
        |entry: (&'static str, &'static str)| language_row(*style, entry.0@, entry.1@),
    );
    let mut i: usize = 0;
    assert(texts_of(lines@) =~= head + rows.take(0));
    while i < table.len()
        invariant
            i <= table@.len(),
            table@ == language_table(),
            rows == language_table().map_values(
                |entry: (&'static str, &'static str)| language_row(*style, entry.0@, entry.1@),
            ),
            texts_of(lines@) == head + rows.take(i as int),
        decreases table@.len() - i,
    {
        let ghost listed = texts_of(lines@);
        let mut line = "  ".to_string();
        line.append(pad_right(style.code(table[i].0).as_str(), 5).as_str());
        line.append(" ");
        line.append(style.secondary(table[i].1).as_str());
        lines.push(line);
        assert(texts_of(lines@) =~= listed.push(rows[i as int]));
        assert(rows.take(i + 1) =~= rows.take(i as int).push(rows[i as int]));
        i += 1;
    }
    assert(rows.take(i as int) =~= rows);
    lines
}

} // verus!
