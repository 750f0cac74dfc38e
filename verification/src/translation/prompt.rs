//! The system prompt that instructs the model to translate.

use vstd::prelude::*;
use vstd::string::*;

verus! {

/// The instruction template. `{target_language}` stands for the target language.
///
/// The template is hashed into every cache key, so that editing it makes all
/// earlier cache entries unreachable.
pub const SYSTEM_PROMPT_TEMPLATE: &'static str =
    "You are a translator. Translate the following text to {target_language}. Output only the translated text without any explanations. Preserve the original formatting including blank lines and whitespace.";

/// The placeholder of the template.
pub const TARGET_PLACEHOLDER: &'static str = "{target_language}";

/// The template up to its placeholder.
pub const PROMPT_HEAD: &'static str = "You are a translator. Translate the following text to ";

/// The template after its placeholder.
pub const PROMPT_TAIL: &'static str =
    ". Output only the translated text without any explanations. Preserve the original formatting including blank lines and whitespace.";

/// The system prompt: the template with the target language in place of the
/// placeholder, followed by a space and the style prompt if there is one.
/// Both texts stand in it unchanged.
pub open spec fn system_prompt(target_language: Seq<char>, style: Option<Seq<char>>) -> Seq<char> {
    PROMPT_HEAD@ + target_language + PROMPT_TAIL@ + match style {
        Some(style_prompt) => " "@ + style_prompt,
        None => Seq::empty(),
    }
}

/// The template is its head, the placeholder, and its tail.
pub proof fn lemma_template_parts()
    ensures
        SYSTEM_PROMPT_TEMPLATE@ == PROMPT_HEAD@ + TARGET_PLACEHOLDER@ + PROMPT_TAIL@,
{
    reveal_strlit(
        "You are a translator. Translate the following text to {target_language}. Output only the translated text without any explanations. Preserve the original formatting including blank lines and whitespace.",
    );
    reveal_strlit("{target_language}");
    reveal_strlit("You are a translator. Translate the following text to ");
    reveal_strlit(
        ". Output only the translated text without any explanations. Preserve the original formatting including blank lines and whitespace.",
    );
    assert(SYSTEM_PROMPT_TEMPLATE@ =~= PROMPT_HEAD@ + TARGET_PLACEHOLDER@ + PROMPT_TAIL@);
}

/// Builds the system prompt with optional style instructions.
pub fn build_system_prompt_with_style(target_language: &str, style: Option<&str>) -> (prompt: String)
    ensures
        prompt@ == system_prompt(
            target_language@,
            match style {
                Some(s) => Some(s@),
                None => None,
            },
        ),
{
    let mut prompt = PROMPT_HEAD.to_string();
    prompt.append(target_language);
    prompt.append(PROMPT_TAIL);
    match style {
        Some(style_prompt) => {
            prompt.append(" ");
            prompt.append(style_prompt);
            assert(prompt@ =~= PROMPT_HEAD@ + target_language@ + PROMPT_TAIL@ + (" "@
                + style_prompt@));
        },
        None => {
            assert(prompt@ =~= PROMPT_HEAD@ + target_language@ + PROMPT_TAIL@ + Seq::<char>::empty());
        },
    }
    prompt
}

} // verus!
