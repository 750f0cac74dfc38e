//! The translation pipeline: what to do next, given what has happened.
//!
//! The pipeline makes no call itself. It is told what happened (the cache
//! answered, the endpoint refused, bytes arrived) and answers with what to
//! do: look a key up, send a request, show a fragment, store the result. The
//! caller performs each action and reports back.

use vstd::prelude::*;
use vstd::string::*;
use crate::cache::{record_of, CacheRecord, CacheRecordView};
use crate::config::{ConfigError, ConfigErrorView, ResolveOptions, ResolvedConfig};
use crate::text::text_of;
use crate::translation::client::{
    bearer, cache_key_of, chat_completions_url, translation_body, OutboundRequest,
    TranslationClient, TranslationRequest, TranslationRequestView,
};
use crate::translation::prompt::system_prompt;
use crate::translation::sse_parser::{
    items_of, next_state, DecoderState, SseDecoder, StreamEvent, StreamItem, StreamItemView,
};

verus! {

/// What the user asked for on the command line.
#[derive(Debug, Clone)]
pub struct TranslateOptions {
    /// The file to translate; standard input if absent.
    pub file: Option<String>,
    /// Target language override.
    pub to: Option<String>,
    /// Provider override.
    pub provider: Option<String>,
    /// Model override.
    pub model: Option<String>,
    /// Style override.
    pub style: Option<String>,
    /// Do not read the cache.
    pub no_cache: bool,
    /// Write the translation over the input file instead of showing it.
    pub write: bool,
}

impl TranslateOptions {
    /// The overrides that take part in resolving the configuration.
    pub fn resolve_options(&self) -> (options: ResolveOptions)
        ensures
            text_of(options.to) == text_of(self.to),
            text_of(options.provider) == text_of(self.provider),
            text_of(options.model) == text_of(self.model),
            text_of(options.style) == text_of(self.style),
    {
        ResolveOptions {
            to: self.to.clone(),
            provider: self.provider.clone(),
            model: self.model.clone(),
            style: self.style.clone(),
        }
    }
}

/// Why a translation failed.
#[derive(Debug, Clone)]
pub enum TranslationError {
    /// The configuration did not resolve.
    Config(ConfigError),
    /// Writing back was asked for without a file.
    WriteNeedsFile,
    /// There is nothing to translate.
    EmptyInput,
    /// The endpoint could not be reached. Holds the URL and the cause.
    Transport { url: String, cause: String },
    /// The endpoint answered with a status other than success. Holds the
    /// status code and the body of the answer.
    Protocol { status: u16, body: String },
    /// Reading the response failed part-way. Holds the report.
    StreamDecode(String),
}

/// Why a translation failed, as a mathematical value.
pub enum TranslationErrorView {
    Config(ConfigErrorView),
    WriteNeedsFile,
    EmptyInput,
    Transport { url: Seq<char>, cause: Seq<char> },
    Protocol { status: u16, body: Seq<char> },
    StreamDecode(Seq<char>),
}

impl View for TranslationError {
    type V = TranslationErrorView;

    open spec fn view(&self) -> TranslationErrorView {
        match *self {
            TranslationError::Config(e) => TranslationErrorView::Config(e@),
            TranslationError::WriteNeedsFile => TranslationErrorView::WriteNeedsFile,
            TranslationError::EmptyInput => TranslationErrorView::EmptyInput,
            TranslationError::Transport { url, cause } => TranslationErrorView::Transport {
                url: url@,
                cause: cause@,
            },
            TranslationError::Protocol { status, body } => TranslationErrorView::Protocol {
                status,
                body: body@,
            },
            TranslationError::StreamDecode(report) => TranslationErrorView::StreamDecode(report@),
        }
    }
}

/// The ten decimal digits.
pub open spec fn decimal_digits() -> Seq<char> {
    seq!['0', '1', '2', '3', '4', '5', '6', '7', '8', '9']
}

/// `n` in decimal, without leading zeros.
pub open spec fn decimal(n: nat) -> Seq<char>
    decreases n,
{
    if n < 10 {
        seq![decimal_digits()[n as int]]
    } else {
        decimal(n / 10).push(decimal_digits()[(n % 10) as int])
    }
}

/// Writes a status code in decimal.
pub fn decimal_text(n: u16) -> (out: String)
    ensures
        out@ == decimal(n as nat),
{
    let digits = vec!['0', '1', '2', '3', '4', '5', '6', '7', '8', '9'];
    assert(digits@ =~= decimal_digits());
    let mut reversed: Vec<char> = Vec::new();
    let mut rest = n;
    while rest >= 10
        invariant
            digits@ == decimal_digits(),
            decimal(n as nat) == decimal(rest as nat) + reversed@.reverse(),
        decreases rest,
    {
        let ghost before = reversed@;
        reversed.push(digits[(rest % 10) as usize]);
        assert(reversed@.reverse() =~= seq![decimal_digits()[(rest % 10) as int]]
            + before.reverse());
        assert(decimal(rest as nat) + before.reverse() =~= decimal((rest / 10) as nat)
            + reversed@.reverse());
        rest = rest / 10;
    }
    let mut out = String::new();
    out.push(digits[rest as usize]);
    let mut i: usize = reversed.len();
    while i > 0
        invariant
            i <= reversed@.len(),
            out@ == decimal(rest as nat) + reversed@.reverse().take(reversed@.len() - i),
        decreases i,
    {
        i -= 1;
        out.push(reversed[i]);
        assert(reversed@.reverse().take(reversed@.len() - i) =~= reversed@.reverse().take(
            reversed@.len() - i - 1,
        ).push(reversed@[i as int]));
    }
    assert(reversed@.reverse().take(reversed@.len() as int) =~= reversed@.reverse());
    out
}

impl TranslationErrorView {
    /// The message shown to the user.
    pub open spec fn message(self) -> Seq<char> {
        match self {
            TranslationErrorView::Config(e) => e.message(),
            TranslationErrorView::WriteNeedsFile =>
                "--write requires a file argument (cannot write to stdin)"@,
            TranslationErrorView::EmptyInput => "Input is empty"@,
            TranslationErrorView::Transport { url, cause } => "Failed to connect to API endpoint: "@
                + url + ": "@ + cause,
            TranslationErrorView::Protocol { status, body } => "API request failed with status "@
                + decimal(status as nat) + ": "@ + body,
            TranslationErrorView::StreamDecode(report) => report,
        }
    }
}

impl TranslationError {
    /// The message shown to the user.
    pub fn message(&self) -> (out: String)
        ensures
            out@ == self@.message(),
    {
        match self {
            TranslationError::Config(e) => e.message(),
            TranslationError::WriteNeedsFile => {
                "--write requires a file argument (cannot write to stdin)".to_string()
            },
            TranslationError::EmptyInput => "Input is empty".to_string(),
            TranslationError::Transport { url, cause } => {
                let mut out = "Failed to connect to API endpoint: ".to_string();
                out.append(url.as_str());
                out.append(": ");
                out.append(cause.as_str());
                out
            },
            TranslationError::Protocol { status, body } => {
                let mut out = "API request failed with status ".to_string();
                out.append(decimal_text(*status).as_str());
                out.append(": ");
                out.append(body.as_str());
                out
            },
            TranslationError::StreamDecode(report) => report.clone(),
        }
    }
}

/// What the caller reports to the pipeline.
#[derive(Debug, Clone)]
pub enum PipelineEvent {
    /// The cache answered: the stored text, or nothing. A lookup that failed
    /// counts as nothing.
    Cached(Option<String>),
    /// The endpoint could not be reached, with the cause.
    Unreachable(String),
    /// The endpoint answered with a status other than success.
    Rejected { status: u16, body: String },
    /// The response body made progress.
    Body(StreamEvent),
}

/// What the pipeline asks the caller to do.
#[derive(Debug, Clone)]
pub enum PipelineAction {
    /// Look this key up in the cache and report `Cached`.
    LookUp(String),
    /// Send this request and report what comes back.
    Send(OutboundRequest),
    /// Show this text at once, without a line break.
    Show(String),
    /// End the line that was shown.
    EndLine,
    /// Store this record in the cache. A failure to store is an error.
    Store(CacheRecord),
    /// Write this text over the file at `path`.
    WriteFile { path: String, content: String },
    /// Stop: the translation failed.
    Fail(TranslationError),
}

/// What the pipeline asks for, as a mathematical value.
pub enum ActionView {
    LookUp(Seq<char>),
    Send { url: Seq<char>, authorization: Option<Seq<char>>, body: Seq<char> },
    Show(Seq<char>),
    EndLine,
    Store(CacheRecordView),
    WriteFile { path: Seq<char>, content: Seq<char> },
    Fail(TranslationErrorView),
}

impl View for PipelineAction {
    type V = ActionView;

    open spec fn view(&self) -> ActionView {
        match *self {
            PipelineAction::LookUp(key) => ActionView::LookUp(key@),
            PipelineAction::Send(outbound) => ActionView::Send {
                url: outbound.url@,
                authorization: text_of(outbound.authorization),
                body: outbound.body@,
            },
            PipelineAction::Show(text) => ActionView::Show(text@),
            PipelineAction::EndLine => ActionView::EndLine,
            PipelineAction::Store(record) => ActionView::Store(record@),
            PipelineAction::WriteFile { path, content } => ActionView::WriteFile {
                path: path@,
                content: content@,
            },
            PipelineAction::Fail(e) => ActionView::Fail(e@),
        }
    }
}

/// The views of a list of actions.
pub open spec fn actions_of(actions: Seq<PipelineAction>) -> Seq<ActionView> {
    actions.map_values(|a: PipelineAction| a@)
}

/// Where the pipeline stands.
#[derive(Debug, Clone, Copy, PartialEq, Eq, Structural)]
pub enum Phase {
    /// The cache was asked and has not answered.
    AwaitingCache,
    /// The request was sent; the response is being read.
    Streaming,
    /// Nothing more will happen.
    Done,
}

/// The state of a pipeline as a mathematical value.
pub struct PipelineState {
    /// The request being translated.
    pub request: TranslationRequestView,
    /// The request to send on a cache miss.
    pub url: Seq<char>,
    pub authorization: Option<Seq<char>>,
    pub body: Seq<char>,
    /// The file to write the result to; `None` if the result is shown.
    pub target: Option<Seq<char>>,
    pub phase: Phase,
    /// The decoder of the response body.
    pub decoder: DecoderState,
    /// The text assembled so far.
    pub response: Seq<char>,
}

/// How a complete text is handed over: written to the target file, or shown.
pub open spec fn delivery(target: Option<Seq<char>>, text: Seq<char>) -> ActionView {
    match target {
        Some(path) => ActionView::WriteFile { path, content: text },
        None => ActionView::Show(text),
    }
}

/// The text after the fragments among `items` are appended to `response`, up
/// to the first failure.
pub open spec fn assembled(response: Seq<char>, items: Seq<StreamItemView>) -> Seq<char>
    decreases items.len(),
{
    if items.len() == 0 {
        response
    } else {
        match items[0] {
            StreamItemView::Text(fragment) => assembled(response + fragment, items.drop_first()),
            StreamItemView::Failure(_) => response,
        }
    }
}

/// The first failure among `items`, if any.
pub open spec fn first_failure(items: Seq<StreamItemView>) -> Option<Seq<char>>
    decreases items.len(),
{
    if items.len() == 0 {
        None
    } else {
        match items[0] {
            StreamItemView::Text(_) => first_failure(items.drop_first()),
            StreamItemView::Failure(report) => Some(report),
        }
    }
}

/// What is shown for `items`: each fragment before the first failure, in
/// order, unless the result goes to a file.
pub open spec fn shown(target: Option<Seq<char>>, items: Seq<StreamItemView>) -> Seq<ActionView>
    decreases items.len(),
{
    if items.len() == 0 {
        Seq::empty()
    } else {
        match items[0] {
            StreamItemView::Text(fragment) => (if target is None {
                seq![ActionView::Show(fragment)]
            } else {
                Seq::empty()
            }) + shown(target, items.drop_first()),
            StreamItemView::Failure(_) => Seq::empty(),
        }
    }
}

/// What is done when the response has ended with the text `response`.
///
/// Nothing, if the text is empty. Otherwise the shown line is ended, the
/// result is stored in the cache, and the target file is written, in this order.
pub open spec fn completion(
    request: TranslationRequestView,
    target: Option<Seq<char>>,
    response: Seq<char>,
) -> Seq<ActionView> {
    if response.len() == 0 {
        Seq::empty()
    } else {
        (if target is None {
            seq![ActionView::EndLine]
        } else {
            Seq::empty()
        }) + seq![ActionView::Store(record_of(request, response))] + (match target {
            Some(path) => seq![ActionView::WriteFile { path, content: response }],
            None => Seq::empty(),
        })
    }
}

/// The pipeline's transition: the state after `event` and the actions it asks for.
///
/// While the cache is awaited, a hit delivers the cached text and ends the
/// pipeline without any request, and a miss sends the request. While the
/// response is read, an endpoint that cannot be reached or that refuses ends
/// the pipeline with that failure; progress of the body is decoded, its
/// fragments are appended to the response and shown as they come; a failed
/// read ends the pipeline with that failure and stores nothing; the end of the
/// stream completes the translation. Events that the phase does not expect
/// are ignored.
pub open spec fn pipeline_next(state: PipelineState, event: PipelineEvent) -> (
    PipelineState,
    Seq<ActionView>,
) {
    match (state.phase, event) {
        (Phase::AwaitingCache, PipelineEvent::Cached(Some(text))) => (
            PipelineState { phase: Phase::Done, ..state },
            seq![delivery(state.target, text@)],
        ),
        (Phase::AwaitingCache, PipelineEvent::Cached(None)) => (
            PipelineState { phase: Phase::Streaming, ..state },
            seq![
                ActionView::Send {
                    url: state.url,
                    authorization: state.authorization,
                    body: state.body,
                },
            ],
        ),
        (Phase::Streaming, PipelineEvent::Unreachable(cause)) => (
            PipelineState { phase: Phase::Done, ..state },
            seq![
                ActionView::Fail(TranslationErrorView::Transport { url: state.url, cause: cause@ }),
            ],
        ),
        (Phase::Streaming, PipelineEvent::Rejected { status, body }) => (
            PipelineState { phase: Phase::Done, ..state },
            seq![ActionView::Fail(TranslationErrorView::Protocol { status, body: body@ })],
        ),
        (Phase::Streaming, PipelineEvent::Body(progress)) => {
            let (decoder, items) = next_state(state.decoder, progress);
            let response = assembled(state.response, items);
            let display = shown(state.target, items);
            match first_failure(items) {
                Some(report) => (
                    PipelineState { phase: Phase::Done, decoder, response, ..state },
                    display + seq![ActionView::Fail(TranslationErrorView::StreamDecode(report))],
                ),
                None => if decoder.finished {
                    (
                        PipelineState { phase: Phase::Done, decoder, response, ..state },
                        display + completion(state.request, state.target, response),
                    )
                } else {
                    (PipelineState { decoder, response, ..state }, display)
                },
            }
        },
        _ => (state, Seq::empty()),
    }
}

/// A translation in progress.
#[derive(Debug)]
pub struct TranslationPipeline {
    request: TranslationRequest,
    outbound: OutboundRequest,
    target: Option<String>,
    phase: Phase,
    decoder: SseDecoder,
    response: String,
}

impl View for TranslationPipeline {
    type V = PipelineState;

    closed spec fn view(&self) -> PipelineState {
        PipelineState {
            request: self.request@,
            url: self.outbound.url@,
            authorization: text_of(self.outbound.authorization),
            body: self.outbound.body@,
            target: text_of(self.target),
            phase: self.phase,
            decoder: self.decoder@,
            response: self.response@,
        }
    }
}

/// The request that a resolved configuration makes of `source_text`.
pub open spec fn request_of(resolved: ResolvedConfig, source_text: Seq<char>) -> TranslationRequestView {
    TranslationRequestView {
        source_text,
        target_language: resolved.target_language@,
        model: resolved.model@,
        endpoint: resolved.endpoint@,
        style: text_of(resolved.style_prompt),
    }
}

impl TranslationPipeline {
    /// Starts the translation of `source_text` and says what to do first.
    ///
    /// It fails without any action if writing back is asked for without a
    /// file, or else if the text is empty. Otherwise the first action looks the
    /// request's key up in the cache; with `no_cache` the lookup is skipped and
    /// the first action sends the request.
    pub fn begin(options: &TranslateOptions, resolved: &ResolvedConfig, source_text: &str) -> (started:
        Result<(Self, PipelineAction), TranslationError>)
        ensures
            options.write && options.file is None ==> started matches Err(
                TranslationError::WriteNeedsFile,
            ),
            !(options.write && options.file is None) && source_text@.len() == 0
                ==> started matches Err(TranslationError::EmptyInput),
            !(options.write && options.file is None) && source_text@.len() > 0 ==> {
                &&& started matches Ok((pipeline, first))
                &&& pipeline@.request == request_of(*resolved, source_text@)
                &&& pipeline@.url == chat_completions_url(resolved.endpoint@)
                &&& pipeline@.authorization == match resolved.api_key {
                    Some(key) => Some(bearer(key@)),
                    None => None,
                }
                &&& pipeline@.body == translation_body(
                    resolved.model@,
                    system_prompt(resolved.target_language@, text_of(resolved.style_prompt)),
                    source_text@,
                )
                &&& pipeline@.target == (if options.write {
                    text_of(options.file)
                } else {
                    None
                })
                &&& pipeline@.decoder == (DecoderState { buffer: Seq::empty(), finished: false })
                &&& pipeline@.response == Seq::<char>::empty()
                &&& if options.no_cache {
                    &&& pipeline@.phase == Phase::Streaming
                    &&& first@ == (ActionView::Send {
                        url: pipeline@.url,
                        authorization: pipeline@.authorization,
                        body: pipeline@.body,
                    })
                } else {
                    &&& pipeline@.phase == Phase::AwaitingCache
                    &&& first@ == ActionView::LookUp(cache_key_of(pipeline@.request))
                }
            },
    {
        if options.write && options.file.is_none() {
            return Err(TranslationError::WriteNeedsFile);
        }
        if source_text.unicode_len() == 0 {
            return Err(TranslationError::EmptyInput);
        }
        let request = TranslationRequest {
            source_text: source_text.to_string(),
            target_language: resolved.target_language.clone(),
            model: resolved.model.clone(),
            endpoint: resolved.endpoint.clone(),
            style: resolved.style_prompt.clone(),
        };
        let client = TranslationClient::new(resolved.endpoint.clone(), resolved.api_key.clone());
        let outbound = client.chat_request(&request);
        let target = if options.write {
            options.file.clone()
        } else {
            None
        };
        let (phase, first) = if options.no_cache {
            (Phase::Streaming, PipelineAction::Send(outbound.duplicate()))
        } else {
            (Phase::AwaitingCache, PipelineAction::LookUp(request.cache_key()))
        };
        let pipeline = TranslationPipeline {
            request,
            outbound,
            target,
            phase,
            decoder: SseDecoder::new(),
            response: String::new(),
        };
        Ok((pipeline, first))
    }

    /// Whether nothing more will happen.
    pub fn is_done(&self) -> (done: bool)
        ensures
            done == (self@.phase == Phase::Done),
    {
        match self.phase {
            Phase::Done => true,
            _ => false,
        }
    }

    /// The request being translated.
    pub fn request(&self) -> (request: &TranslationRequest)
        ensures
            request@ == self@.request,
    {
        &self.request
    }

    /// The text assembled so far.
    pub fn response(&self) -> (text: &str)
        ensures
            text@ == self@.response,
    {
        self.response.as_str()
    }

    /// How a complete text is handed over.
    fn deliver(&self, text: String) -> (action: PipelineAction)
        ensures
            action@ == delivery(self@.target, text@),
    {
        match &self.target {
            Some(path) => PipelineAction::WriteFile { path: path.clone(), content: text },
            None => PipelineAction::Show(text),
        }
    }

    /// Takes what happened and says what to do, in order.
    pub fn step(&mut self, event: PipelineEvent) -> (actions: Vec<PipelineAction>)
        ensures
            final(self)@ == pipeline_next(old(self)@, event).0,
            actions_of(actions@) == pipeline_next(old(self)@, event).1,
    {
        let mut actions: Vec<PipelineAction> = Vec::new();
        match self.phase {
            Phase::AwaitingCache => match event {
                PipelineEvent::Cached(Some(text)) => {
                    actions.push(self.deliver(text));
                    self.phase = Phase::Done;
                    assert(actions_of(actions@) =~= seq![delivery(old(self)@.target, text@)]);
                },
                PipelineEvent::Cached(None) => {
                    actions.push(PipelineAction::Send(self.outbound.duplicate()));
                    self.phase = Phase::Streaming;
                    assert(actions_of(actions@) =~= seq![
                        ActionView::Send {
                            url: old(self)@.url,
                            authorization: old(self)@.authorization,
                            body: old(self)@.body,
                        },
                    ]);
                },
                _ => {
                    assert(actions_of(actions@) =~= Seq::<ActionView>::empty());
                },
            },
            Phase::Streaming => match event {
                PipelineEvent::Unreachable(cause) => {
                    actions.push(
                        PipelineAction::Fail(
                            TranslationError::Transport { url: self.outbound.url.clone(), cause },
                        ),
                    );
                    self.phase = Phase::Done;
                    assert(actions_of(actions@) =~= seq![
                        ActionView::Fail(
                            TranslationErrorView::Transport {
                                url: old(self)@.url,
                                cause: cause@,
                            },
                        ),
                    ]);
                },
                PipelineEvent::Rejected { status, body } => {
                    actions.push(PipelineAction::Fail(TranslationError::Protocol { status, body }));
                    self.phase = Phase::Done;
                    assert(actions_of(actions@) =~= seq![
                        ActionView::Fail(TranslationErrorView::Protocol { status, body: body@ }),
                    ]);
                },
                PipelineEvent::Body(progress) => {
                    let items = self.decoder.step(progress);
                    let ghost all = items_of(items@);
                    let ghost start = old(self)@.response;
                    let ghost target = old(self)@.target;
                    let ghost entered = *self;
                    let mut failure: Option<String> = None;
                    let mut i: usize = 0;
                    assert(all.skip(0) =~= all);
                    assert(actions_of(actions@) =~= Seq::<ActionView>::empty());
                    while i < items.len() && failure.is_none()
                        invariant
                            i <= items@.len(),
                            all == items_of(items@),
                            target == text_of(self.target),
                            *self == (TranslationPipeline { response: self.response, ..entered }),
                            failure is None ==> {
                                &&& assembled(start, all) == assembled(
                                    self.response@,
                                    all.skip(i as int),
                                )
                                &&& first_failure(all) == first_failure(all.skip(i as int))
                                &&& shown(target, all) == actions_of(actions@) + shown(
                                    target,
                                    all.skip(i as int),
                                )
                            },
                            failure matches Some(report) ==> {
                                &&& assembled(start, all) == self.response@
                                &&& first_failure(all) == Some(report@)
                                &&& shown(target, all) == actions_of(actions@)
                            },
                        decreases items@.len() - i + (if failure is None { 1int } else { 0int }),
                    {
                        let ghost rest = all.skip(i as int);
                        let ghost done = actions_of(actions@);
                        proof {
                            assert(rest[0] == items@[i as int]@);
                            assert(rest.drop_first() =~= all.skip(i + 1));
                        }
                        match &items[i] {
                            StreamItem::Text(fragment) => {
                                self.response.append(fragment.as_str());
                                if self.target.is_none() {
                                    actions.push(PipelineAction::Show(fragment.clone()));
                                    assert(actions_of(actions@) =~= done + seq![
                                        ActionView::Show(fragment@),
                                    ]);
                                    assert((done + seq![ActionView::Show(fragment@)]) + shown(
                                        target,
                                        all.skip(i + 1),
                                    ) =~= done + (seq![ActionView::Show(fragment@)] + shown(
                                        target,
                                        all.skip(i + 1),
                                    )));
                                } else {
                                    assert(Seq::<ActionView>::empty() + shown(
                                        target,
                                        all.skip(i + 1),
                                    ) =~= shown(target, all.skip(i + 1)));
                                }
                                i += 1;
                            },
                            StreamItem::Failure(report) => {
                                failure = Some(report.clone());
                                assert(done + Seq::<ActionView>::empty() =~= done);
                            },
                        }
                    }
                    let ghost display = actions_of(actions@);
                    match failure {
                        Some(report) => {
                            actions.push(PipelineAction::Fail(TranslationError::StreamDecode(report)));
                            self.phase = Phase::Done;
                            assert(actions_of(actions@) =~= display + seq![
                                ActionView::Fail(TranslationErrorView::StreamDecode(report@)),
                            ]);
                        },
                        None => {
                            assert(all.skip(items@.len() as int) =~= Seq::<StreamItemView>::empty());
                            assert(display + Seq::<ActionView>::empty() =~= display);
                            if self.decoder.is_finished() {
                                self.phase = Phase::Done;
                                let ghost record = record_of(self.request@, self.response@);
                                if self.response.as_str().unicode_len() > 0 {
                                    let stored = PipelineAction::Store(
                                        CacheRecord::new(&self.request, self.response.as_str()),
                                    );
                                    match &self.target {
                                        Some(path) => {
                                            actions.push(stored);
                                            actions.push(
                                                PipelineAction::WriteFile {
                                                    path: path.clone(),
                                                    content: self.response.clone(),
                                                },
                                            );
                                            assert(actions_of(actions@) =~= display + (
                                            Seq::<ActionView>::empty() + seq![
                                                ActionView::Store(record),
                                            ] + seq![
                                                ActionView::WriteFile {
                                                    path: path@,
                                                    content: self.response@,
                                                },
                                            ]));
                                        },
                                        None => {
                                            actions.push(PipelineAction::EndLine);
                                            actions.push(stored);
                                            assert(actions_of(actions@) =~= display + (seq![
                                                ActionView::EndLine,
                                            ] + seq![ActionView::Store(record)]
                                                + Seq::<ActionView>::empty()));
                                        },
                                    }
                                } else {
                                    assert(actions_of(actions@) =~= display + Seq::<
                                        ActionView,
                                    >::empty());
                                }
                            }
                        },
                    }
                },
                _ => {
                    assert(actions_of(actions@) =~= Seq::<ActionView>::empty());
                },
            },
            Phase::Done => {
                assert(actions_of(actions@) =~= Seq::<ActionView>::empty());
            },
        }
        actions
    }
}

} // verus!
