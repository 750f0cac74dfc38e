//! Translation requests: their cache key and the call they make.

use vstd::prelude::*;
use vstd::string::*;
use crate::text::{from_char_range, join, joined, text_of, texts_of, to_chars};
use crate::translation::digest::{digest_hex, hex_digest, is_hex_digit};
use crate::translation::json::{json_string, quote_json};
use crate::translation::prompt::{
    build_system_prompt_with_style, system_prompt, SYSTEM_PROMPT_TEMPLATE,
};

verus! {

/// A request to translate text.
///
/// Holds everything that decides the translation, and so everything that the
/// cache key is computed from.
#[derive(Debug, Clone)]
pub struct TranslationRequest {
    /// The text to translate.
    pub source_text: String,
    /// The target language (ISO 639-1 code, e.g., "ja", "en").
    pub target_language: String,
    /// The model to use for translation.
    pub model: String,
    /// The API endpoint URL.
    pub endpoint: String,
    /// The translation style prompt (if specified).
    pub style: Option<String>,
}

/// A translation request as a mathematical value.
pub struct TranslationRequestView {
    pub source_text: Seq<char>,
    pub target_language: Seq<char>,
    pub model: Seq<char>,
    pub endpoint: Seq<char>,
    pub style: Option<Seq<char>>,
}

impl View for TranslationRequest {
    type V = TranslationRequestView;

    open spec fn view(&self) -> TranslationRequestView {
        TranslationRequestView {
            source_text: self.source_text@,
            target_language: self.target_language@,
            model: self.model@,
            endpoint: self.endpoint@,
            style: text_of(self.style),
        }
    }
}

/// The digest of the system prompt template.
pub open spec fn prompt_hash_text() -> Seq<char> {
    digest_hex(SYSTEM_PROMPT_TEMPLATE@)
}

/// The JSON object with the members of a cache key's input, each given as
/// JSON text: the member names in ascending order, no white space.
pub open spec fn cache_object(
    endpoint: Seq<char>,
    model: Seq<char>,
    prompt_hash: Seq<char>,
    source_text: Seq<char>,
    style: Seq<char>,
    target_language: Seq<char>,
) -> Seq<char> {
    "{\"endpoint\":"@ + endpoint + ",\"model\":"@ + model + ",\"prompt_hash\":"@ + prompt_hash
        + ",\"source_text\":"@ + source_text + ",\"style\":"@ + style
        + ",\"target_language\":"@ + target_language + "}"@
}

/// Writes the JSON object of a cache key's input from the JSON text of each
/// member.
pub fn write_cache_object(
    endpoint: &str,
    model: &str,
    prompt_hash: &str,
    source_text: &str,
    style: &str,
    target_language: &str,
) -> (object: String)
    ensures
        object@ == cache_object(
            endpoint@,
            model@,
            prompt_hash@,
            source_text@,
            style@,
            target_language@,
        ),
{
    let mut object = "{\"endpoint\":".to_string();
    object.append(endpoint);
    object.append(",\"model\":");
    object.append(model);
    object.append(",\"prompt_hash\":");
    object.append(prompt_hash);
    object.append(",\"source_text\":");
    object.append(source_text);
    object.append(",\"style\":");
    object.append(style);
    object.append(",\"target_language\":");
    object.append(target_language);
    object.append("}");
    object
}

/// The canonical JSON object that a cache key is the digest of: the fields of
/// the request and the digest of the prompt template, each as a JSON string.
/// An absent style is written `null`.
pub open spec fn cache_input(request: TranslationRequestView) -> Seq<char> {
    cache_object(
        json_string(request.endpoint),
        json_string(request.model),
        json_string(prompt_hash_text()),
        json_string(request.source_text),
        match request.style {
            Some(style) => json_string(style),
            None => "null"@,
        },
        json_string(request.target_language),
    )
}

/// The cache key of a request.
pub open spec fn cache_key_of(request: TranslationRequestView) -> Seq<char> {
    digest_hex(cache_input(request))
}

impl TranslationRequest {
    /// Computes the cache key of this request: the SHA-256 digest, in
    /// hexadecimal, of the canonical JSON object of its fields and the prompt
    /// template's digest.
    pub fn cache_key(&self) -> (key: String)
        ensures
            key@ == cache_key_of(self@),
            key@.len() == 64,
            forall|i: int| 0 <= i < key@.len() ==> is_hex_digit(#[trigger] key@[i]),
    {
        let prompt_hash = Self::prompt_hash();
        let style = match &self.style {
            Some(style) => quote_json(style.as_str()),
            None => "null".to_string(),
        };
        let input = write_cache_object(
            quote_json(self.endpoint.as_str()).as_str(),
            quote_json(self.model.as_str()).as_str(),
            quote_json(prompt_hash.as_str()).as_str(),
            quote_json(self.source_text.as_str()).as_str(),
            style.as_str(),
            quote_json(self.target_language.as_str()).as_str(),
        );
        hex_digest(input.as_str())
    }

    /// Computes the digest of the system prompt template.
    pub fn prompt_hash() -> (hash: String)
        ensures
            hash@ == prompt_hash_text(),
            hash@.len() == 64,
            forall|i: int| 0 <= i < hash@.len() ==> is_hex_digit(#[trigger] hash@[i]),
    {
        hex_digest(SYSTEM_PROMPT_TEMPLATE)
    }
}

/// Requests with the same fields have the same cache key.
pub proof fn lemma_cache_key_deterministic(a: TranslationRequest, b: TranslationRequest)
    requires
        a@ == b@,
    ensures
        cache_key_of(a@) == cache_key_of(b@),
{
}

/// One message of a chat completion request.
#[derive(Debug, Clone)]
pub struct Message {
    /// Who speaks: `system` or `user`.
    pub role: &'static str,
    /// What is said.
    pub content: String,
}

/// Request body for the chat completions API.
#[derive(Debug, Clone)]
pub struct ChatCompletionRequest {
    pub model: String,
    pub messages: Vec<Message>,
    pub stream: bool,
}

/// The JSON object of a message, from the JSON text of its role and content.
pub open spec fn message_object(role: Seq<char>, content: Seq<char>) -> Seq<char> {
    "{\"role\":"@ + role + ",\"content\":"@ + content + "}"@
}

/// The JSON object of a request body, from the JSON text of its model and of
/// each message: the members in the order `model`, `messages`, `stream`.
pub open spec fn request_object(model: Seq<char>, messages: Seq<Seq<char>>, stream: bool) -> Seq<
    char,
> {
    "{\"model\":"@ + model + ",\"messages\":["@ + joined(messages, ","@) + "],\"stream\":"@ + (
    if stream {
        "true"@
    } else {
        "false"@
    }) + "}"@
}

/// Writes the JSON object of a message from the JSON text of its role and content.
pub fn write_message_object(role: &str, content: &str) -> (object: String)
    ensures
        object@ == message_object(role@, content@),
{
    let mut object = "{\"role\":".to_string();
    object.append(role);
    object.append(",\"content\":");
    object.append(content);
    object.append("}");
    object
}

/// Writes the JSON object of a request body from the JSON text of its model
/// and of each message.
pub fn write_request_object(model: &str, messages: &Vec<String>, stream: bool) -> (object: String)
    ensures
        object@ == request_object(model@, texts_of(messages@), stream),
{
    let mut object = "{\"model\":".to_string();
    object.append(model);
    object.append(",\"messages\":[");
    object.append(join(messages, ",").as_str());
    object.append("],\"stream\":");
    if stream {
        object.append("true");
    } else {
        object.append("false");
    }
    object.append("}");
    object
}

/// One message as a JSON object.
pub open spec fn message_json(message: Message) -> Seq<char> {
    message_object(json_string(message.role@), json_string(message.content@))
}

/// The body that asks for the streamed translation of `source_text`: the
/// system prompt as the system's message, then the source text as the user's.
pub open spec fn translation_body(
    model: Seq<char>,
    system_prompt: Seq<char>,
    source_text: Seq<char>,
) -> Seq<char> {
    request_object(
        json_string(model),
        seq![
            message_object(json_string("system"@), json_string(system_prompt)),
            message_object(json_string("user"@), json_string(source_text)),
        ],
        true,
    )
}

impl ChatCompletionRequest {
    /// The request body as JSON text, members in the order `model`,
    /// `messages`, `stream`.
    pub open spec fn json(self) -> Seq<char> {
        request_object(
            json_string(self.model@),
            self.messages@.map_values(|message: Message| message_json(message)),
            self.stream,
        )
    }

    /// Builds a chat completion request for translation: the system prompt,
    /// then the source text as the user's message, streamed.
    pub fn for_translation(model: &str, system_prompt: &str, source_text: &str) -> (request: Self)
        ensures
            request.model@ == model@,
            request.stream,
            request.messages@.len() == 2,
            request.messages@[0].role@ == "system"@,
            request.messages@[0].content@ == system_prompt@,
            request.messages@[1].role@ == "user"@,
            request.messages@[1].content@ == source_text@,
            request.json() == translation_body(model@, system_prompt@, source_text@),
    {
        let mut messages: Vec<Message> = Vec::new();
        messages.push(Message { role: "system", content: system_prompt.to_string() });
        messages.push(Message { role: "user", content: source_text.to_string() });
        let request = ChatCompletionRequest { model: model.to_string(), messages, stream: true };
        assert(request.messages@.map_values(|message: Message| message_json(message)) =~= seq![
            message_object(json_string("system"@), json_string(system_prompt@)),
            message_object(json_string("user"@), json_string(source_text@)),
        ]);
        request
    }

    /// Writes the request body as JSON text.
    pub fn to_json(&self) -> (body: String)
        ensures
            body@ == self.json(),
    {
        let ghost all = self.messages@.map_values(|message: Message| message_json(message));
        let mut objects: Vec<String> = Vec::new();
        let mut i: usize = 0;
        assert(texts_of(objects@) =~= all.take(0));
        while i < self.messages.len()
            invariant
                i <= self.messages@.len(),
                all == self.messages@.map_values(|message: Message| message_json(message)),
                texts_of(objects@) == all.take(i as int),
            decreases self.messages@.len() - i,
        {
            let ghost listed = texts_of(objects@);
            let message = &self.messages[i];
            objects.push(
                write_message_object(
                    quote_json(message.role).as_str(),
                    quote_json(message.content.as_str()).as_str(),
                ),
            );
            assert(texts_of(objects@) =~= listed.push(message_json(self.messages@[i as int])));
            assert(all.take(i + 1) =~= all.take(i as int).push(all[i as int]));
            i += 1;
        }
        assert(all.take(i as int) =~= all);
        write_request_object(quote_json(self.model.as_str()).as_str(), &objects, self.stream)
    }
}

/// The path of the chat completions API below an endpoint.
pub const CHAT_COMPLETIONS_PATH: &'static str = "/v1/chat/completions";

/// `s` without the slashes at its end.
pub open spec fn without_trailing_slashes(s: Seq<char>) -> Seq<char>
    decreases s.len(),
{
    if s.len() > 0 && s.last() == '/' {
        without_trailing_slashes(s.drop_last())
    } else {
        s
    }
}

/// The URL of the chat completions API of an endpoint.
pub open spec fn chat_completions_url(endpoint: Seq<char>) -> Seq<char> {
    without_trailing_slashes(endpoint) + CHAT_COMPLETIONS_PATH@
}

/// The value of the `Authorization` header for an API key.
pub open spec fn bearer(api_key: Seq<char>) -> Seq<char> {
    "Bearer "@ + api_key
}

/// An HTTP POST that asks for a streamed chat completion.
#[derive(Debug, Clone)]
pub struct OutboundRequest {
    /// Where to post.
    pub url: String,
    /// The value of the `Authorization` header, if one is sent.
    pub authorization: Option<String>,
    /// The JSON body.
    pub body: String,
}

impl OutboundRequest {
    /// A request with the same URL, credential and body.
    pub fn duplicate(&self) -> (copy: Self)
        ensures
            copy.url@ == self.url@,
            text_of(copy.authorization) == text_of(self.authorization),
            copy.body@ == self.body@,
    {
        OutboundRequest {
            url: self.url.clone(),
            authorization: self.authorization.clone(),
            body: self.body.clone(),
        }
    }
}

/// The part of a translation client that decides what is sent: the endpoint
/// and the credential. The connection itself belongs to the caller.
#[derive(Debug, Clone)]
pub struct TranslationClient {
    pub endpoint: String,
    pub api_key: Option<String>,
}

impl TranslationClient {
    /// Creates a new translation client.
    pub fn new(endpoint: String, api_key: Option<String>) -> (client: Self)
        ensures
            client.endpoint == endpoint,
            client.api_key == api_key,
    {
        TranslationClient { endpoint, api_key }
    }

    /// Builds the chat completions API URL.
    pub fn build_url(&self) -> (url: String)
        ensures
            url@ == chat_completions_url(self.endpoint@),
    {
        let chars = to_chars(self.endpoint.as_str());
        let mut end: usize = chars.len();
        assert(chars@.take(end as int) =~= chars@);
        while end > 0 && chars[end - 1] == '/'
            invariant
                end <= chars@.len(),
                without_trailing_slashes(chars@) == without_trailing_slashes(
                    chars@.take(end as int),
                ),
            decreases end,
        {
            assert(chars@.take(end as int).drop_last() =~= chars@.take(end - 1));
            end -= 1;
        }
        let mut url = from_char_range(chars.as_slice(), 0, end);
        assert(url@ =~= chars@.take(end as int));
        url.append(CHAT_COMPLETIONS_PATH);
        url
    }

    /// The request that asks this client's endpoint to translate: a POST to the
    /// chat completions URL, with a bearer credential if the client has a key,
    /// and with the model, the system prompt and the source text in the body.
    pub fn chat_request(&self, request: &TranslationRequest) -> (outbound: OutboundRequest)
        ensures
            outbound.url@ == chat_completions_url(self.endpoint@),
            text_of(outbound.authorization) == match self.api_key {
                Some(key) => Some(bearer(key@)),
                None => None,
            },
            outbound.body@ == translation_body(
                request.model@,
                system_prompt(request.target_language@, text_of(request.style)),
                request.source_text@,
            ),
    {
        let style = match &request.style {
            Some(s) => Some(s.as_str()),
            None => None,
        };
        let prompt = build_system_prompt_with_style(request.target_language.as_str(), style);
        let body = ChatCompletionRequest::for_translation(
            request.model.as_str(),
            prompt.as_str(),
            request.source_text.as_str(),
        );
        let authorization = match &self.api_key {
            Some(key) => {
                let mut value = "Bearer ".to_string();
                value.append(key.as_str());
                Some(value)
            },
            None => None,
        };
        OutboundRequest { url: self.build_url(), authorization, body: body.to_json() }
    }
}

} // verus!
