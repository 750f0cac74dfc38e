//! Decoder for Server-Sent Events as chat-completion endpoints stream them.
//!
//! The transport delivers bytes in chunks whose boundaries have nothing to do
//! with lines. The decoder keeps the text that has not yet ended in a line
//! feed, and turns every complete line into at most one text fragment.

use vstd::prelude::*;
use vstd::string::*;
use vstd::utf8::*;
use crate::text::{
    find_char, from_char_range, has_prefix, index_of_char, lemma_index_of_char, same_text,
    starts_with, text_of, to_chars, trim_bounds, trimmed,
};
use crate::translation::json::{
    json_document, json_member, json_of, jsons_of, parse_document, value_is_null,
    value_is_object, value_items, value_member, value_text, Json,
};

verus! {

/// The prefix of a line that carries data.
pub const DATA_PREFIX: &'static str = "data: ";

/// The line that ends the stream.
pub const DONE_LINE: &'static str = "data: [DONE]";

/// What a failed read is reported with, before the cause.
pub const STREAM_ERROR_PREFIX: &'static str = "Stream error: ";

/// The incremental part of one choice.
#[derive(Debug, Clone)]
pub struct Delta {
    /// The text added by this event, if any.
    pub content: Option<String>,
}

/// One choice of a streamed chat completion.
#[derive(Debug, Clone)]
pub struct StreamChoice {
    pub delta: Delta,
}

/// One streamed chat-completion event.
#[derive(Debug, Clone)]
pub struct StreamResponse {
    pub choices: Vec<StreamChoice>,
}

/// The contents in order, one after the other; an absent content adds nothing.
pub open spec fn concat_contents(contents: Seq<Option<Seq<char>>>) -> Seq<char>
    decreases contents.len(),
{
    if contents.len() == 0 {
        Seq::empty()
    } else {
        concat_contents(contents.drop_last()) + match contents.last() {
            Some(text) => text,
            None => Seq::empty(),
        }
    }
}

/// The fragment that an event with these contents yields: their concatenation,
/// unless that is empty.
pub open spec fn fragment_of(contents: Seq<Option<Seq<char>>>) -> Option<Seq<char>> {
    let text = concat_contents(contents);
    if text.len() > 0 {
        Some(text)
    } else {
        None
    }
}

impl StreamResponse {
    /// The content of each choice, in array order.
    pub open spec fn contents(self) -> Seq<Option<Seq<char>>> {
        self.choices@.map_values(|choice: StreamChoice| text_of(choice.delta.content))
    }

    /// The text fragment of this event: the contents of all choices in array
    /// order, or `None` if that text is empty.
    pub fn text(&self) -> (fragment: Option<String>)
        ensures
            text_of(fragment) == fragment_of(self.contents()),
    {
        let mut out = String::new();
        let mut i: usize = 0;
        while i < self.choices.len()
            invariant
                i <= self.choices@.len(),
                out@ == concat_contents(self.contents().take(i as int)),
            decreases self.choices@.len() - i,
        {
            proof {
                let all = self.contents();
                assert(all.take(i + 1).drop_last() =~= all.take(i as int));
                assert(all.take(i + 1).last() == text_of(self.choices@[i as int].delta.content));
            }
            match &self.choices[i].delta.content {
                Some(content) => {
                    out.append(content.as_str());
                },
                None => {
                    assert(out@ + Seq::<char>::empty() =~= out@);
                },
            }
            i += 1;
        }
        assert(self.contents().take(i as int) =~= self.contents());
        if out.as_str().unicode_len() > 0 {
            Some(out)
        } else {
            None
        }
    }
}

/// The content of one element of `choices`: `Some(None)` where the element has
/// a `delta` object without content (absent or `null`), `Some(Some(text))`
/// where the content is a string, and `None` where the element has another shape.
pub open spec fn choice_content(choice: Json) -> Option<Option<Seq<char>>> {
    match json_member(choice, "delta"@) {
        Some(delta) => if delta is Object {
            match json_member(delta, "content"@) {
                None => Some(None),
                Some(Json::Null) => Some(None),
                Some(Json::Text(text)) => Some(Some(text)),
                Some(_) => None,
            }
        } else {
            None
        },
        None => None,
    }
}

/// The contents of a document shaped `{ choices: [ { delta: { content? } } ] }`,
/// or `None` where the document has another shape.
pub open spec fn response_contents(doc: Json) -> Option<Seq<Option<Seq<char>>>> {
    match json_member(doc, "choices"@) {
        Some(Json::Array(items)) => if forall|i: int|
            0 <= i < items.len() ==> (#[trigger] choice_content(items[i])) is Some {
            Some(items.map_values(|choice: Json| choice_content(choice)->0))
        } else {
            None
        },
        _ => None,
    }
}

/// Reads a parsed document as a streamed chat-completion event.
pub fn read_response(doc: &serde_json::Value) -> (response: Option<StreamResponse>)
    ensures
        match response {
            Some(r) => response_contents(json_of(*doc)) == Some(r.contents()),
            None => response_contents(json_of(*doc)) is None,
        },
{
    let list = match value_member(doc, "choices") {
        Some(list) => list,
        None => {
            return None;
        },
    };
    let items = match value_items(list) {
        Some(items) => items,
        None => {
            return None;
        },
    };
    let ghost docs = jsons_of(items@);
    let mut choices: Vec<StreamChoice> = Vec::new();
    let mut i: usize = 0;
    while i < items.len()
        invariant
            i <= items@.len(),
            docs == jsons_of(items@),
            json_member(json_of(*doc), "choices"@) == Some(Json::Array(docs)),
            choices@.len() == i,
            forall|j: int| 0 <= j < i ==> choice_content(docs[j]) == Some(
                text_of(#[trigger] choices@[j].delta.content),
            ),
        decreases items@.len() - i,
    {
        let item = &items[i];
        assert(json_of(*item) == docs[i as int]);
        let delta = match value_member(item, "delta") {
            Some(delta) => delta,
            None => {
                assert(choice_content(docs[i as int]) is None);
                return None;
            },
        };
        if !value_is_object(delta) {
            assert(choice_content(docs[i as int]) is None);
            return None;
        }
        let content = match value_member(delta, "content") {
            None => None,
            Some(content) => {
                if value_is_null(content) {
                    None
                } else {
                    match value_text(content) {
                        Some(text) => Some(text.to_string()),
                        None => {
                            assert(choice_content(docs[i as int]) is None);
                            return None;
                        },
                    }
                }
            },
        };
        choices.push(StreamChoice { delta: Delta { content } });
        i += 1;
    }
    let response = StreamResponse { choices };
    assert forall|j: int| 0 <= j < docs.len() implies (#[trigger] choice_content(docs[j])) is Some by {
        assert(choice_content(docs[j]) == Some(text_of(response.choices@[j].delta.content)));
    }
    assert(response.contents() =~= docs.map_values(|choice: Json| choice_content(choice)->0));
    Some(response)
}

/// The fragment that one trimmed line yields.
///
/// A line yields a fragment only if it starts with `data: `, the rest parses
/// as JSON, the document has the shape of a streamed event, and the contents
/// are not all empty.
pub open spec fn line_fragment(line: Seq<char>) -> Option<Seq<char>> {
    if has_prefix(line, DATA_PREFIX@) {
        match json_document(line.skip(DATA_PREFIX@.len() as int)) {
            Some(doc) => match response_contents(doc) {
                Some(contents) => fragment_of(contents),
                None => None,
            },
            None => None,
        }
    } else {
        None
    }
}

/// Parses a single trimmed line and extracts its text content.
///
/// Returns `None` for lines without data, for data that is not an event, and
/// for events without text.
pub fn parse_sse_line(line: &str) -> (fragment: Option<String>)
    ensures
        text_of(fragment) == line_fragment(line@),
{
    let chars = to_chars(line);
    let prefix = to_chars(DATA_PREFIX);
    if !starts_with(chars.as_slice(), prefix.as_slice()) {
        return None;
    }
    let payload = from_char_range(chars.as_slice(), prefix.len(), chars.len());
    assert(payload@ =~= line@.skip(DATA_PREFIX@.len() as int));
    let doc = match parse_document(payload.as_str()) {
        Some(doc) => doc,
        None => {
            return None;
        },
    };
    match read_response(&doc) {
        Some(response) => response.text(),
        None => None,
    }
}

/// The text that a chunk of bytes stands for when invalid UTF-8 is replaced
/// by U+FFFD.
pub uninterp spec fn utf8_lossy(bytes: Seq<u8>) -> Seq<char>;

/// Decodes a chunk of bytes, replacing what is not valid UTF-8.
///
/// Calls `String::from_utf8_lossy`. Trusted: the text depends on the bytes
/// alone, and valid UTF-8 is decoded as it stands.
#[verifier::external_body]
pub(crate) fn decode_lossy(bytes: &[u8]) -> (text: String)
    ensures
        text@ == utf8_lossy(bytes@),
        valid_utf8(bytes@) ==> text@ == decode_utf8(bytes@),
{
    String::from_utf8_lossy(bytes).into_owned()
}

/// What a buffer gives up: the fragments of its complete lines, the text that
/// stays buffered, and whether the stream has ended.
pub struct Drained {
    pub fragments: Seq<Seq<char>>,
    pub rest: Seq<char>,
    pub done: bool,
}

/// `later` with `fragments` in front of its own.
pub open spec fn after(fragments: Seq<Seq<char>>, later: Drained) -> Drained {
    Drained { fragments: fragments + later.fragments, rest: later.rest, done: later.done }
}

/// What `buffer[from..]` gives up.
///
/// Each line runs up to and including the next line feed and is trimmed. The
/// terminator line ends the stream, and what follows it is dropped. Any other
/// line yields its fragment, if it has one. Text after the last line feed
/// stays buffered.
pub open spec fn drained_from(buffer: Seq<char>, from: int) -> Drained
    decreases buffer.len() - from,
{
    let end = index_of_char(buffer, '\n', from);
    if 0 <= from <= end < buffer.len() {
        let line = trimmed(buffer.subrange(from, end + 1));
        if line == DONE_LINE@ {
            Drained { fragments: Seq::empty(), rest: Seq::empty(), done: true }
        } else {
            let later = drained_from(buffer, end + 1);
            match line_fragment(line) {
                Some(fragment) => after(seq![fragment], later),
                None => later,
            }
        }
    } else {
        Drained { fragments: Seq::empty(), rest: buffer.skip(from), done: false }
    }
}

/// What a buffer gives up.
pub open spec fn drained(buffer: Seq<char>) -> Drained {
    drained_from(buffer, 0)
}

/// What the transport reports.
#[derive(Debug, Clone)]
pub enum StreamEvent {
    /// The next bytes of the response body.
    Chunk(Vec<u8>),
    /// A failed read, with its cause.
    Failed(String),
    /// The end of the response body.
    Closed,
}

/// One item of the decoded sequence.
#[derive(Debug, Clone)]
pub enum StreamItem {
    /// A fragment of the translated text.
    Text(String),
    /// The report of a failed read. It is the last item of its sequence.
    Failure(String),
}

/// One item of the decoded sequence, as a mathematical value.
pub enum StreamItemView {
    Text(Seq<char>),
    Failure(Seq<char>),
}

impl View for StreamItem {
    type V = StreamItemView;

    open spec fn view(&self) -> StreamItemView {
        match *self {
            StreamItem::Text(text) => StreamItemView::Text(text@),
            StreamItem::Failure(report) => StreamItemView::Failure(report@),
        }
    }
}

/// The views of a list of items.
pub open spec fn items_of(items: Seq<StreamItem>) -> Seq<StreamItemView> {
    items.map_values(|item: StreamItem| item@)
}

/// The state of a decoder: the text not yet ended by a line feed, and whether
/// the sequence has ended.
pub struct DecoderState {
    pub buffer: Seq<char>,
    pub finished: bool,
}

/// The state after `text` has arrived, and the fragments that it completes.
///
/// A finished decoder ignores the text. Otherwise the text is appended to the
/// buffer, and the buffer gives up its lines.
pub open spec fn accepted(state: DecoderState, text: Seq<char>) -> (DecoderState, Seq<
    StreamItemView,
>) {
    if state.finished {
        (state, Seq::empty())
    } else {
        let given = drained(state.buffer + text);
        (
            DecoderState { buffer: given.rest, finished: given.done },
            given.fragments.map_values(|f: Seq<char>| StreamItemView::Text(f)),
        )
    }
}

/// The decoder's transition: the state after `event` and the items it yields.
///
/// A finished decoder ignores every event. Otherwise a chunk is decoded and
/// appended to the buffer, and the buffer gives up its lines; a failed read
/// yields one failure item and ends the sequence; the end of the body ends the
/// sequence and drops what is buffered.
pub open spec fn next_state(state: DecoderState, event: StreamEvent) -> (DecoderState, Seq<
    StreamItemView,
>) {
    if state.finished {
        (state, Seq::empty())
    } else {
        match event {
            StreamEvent::Chunk(bytes) => accepted(state, utf8_lossy(bytes@)),
            StreamEvent::Failed(cause) => (
                DecoderState { buffer: Seq::empty(), finished: true },
                seq![StreamItemView::Failure(STREAM_ERROR_PREFIX@ + cause@)],
            ),
            StreamEvent::Closed => (
                DecoderState { buffer: Seq::empty(), finished: true },
                Seq::empty(),
            ),
        }
    }
}

/// Incremental decoder from transport events to text fragments. Single pass.
#[derive(Debug)]
pub struct SseDecoder {
    buffer: Vec<char>,
    finished: bool,
}

impl View for SseDecoder {
    type V = DecoderState;

    closed spec fn view(&self) -> DecoderState {
        DecoderState { buffer: self.buffer@, finished: self.finished }
    }
}

impl SseDecoder {
    /// A decoder at the start of a stream.
    pub fn new() -> (decoder: Self)
        ensures
            decoder@ == (DecoderState { buffer: Seq::empty(), finished: false }),
    {
        SseDecoder { buffer: Vec::new(), finished: false }
    }

    /// Whether the sequence has ended.
    pub fn is_finished(&self) -> (finished: bool)
        ensures
            finished == self@.finished,
    {
        self.finished
    }

    /// Takes decoded text and returns the fragments that it completes, in the
    /// order of their lines.
    pub fn accept(&mut self, text: &str) -> (items: Vec<StreamItem>)
        ensures
            final(self)@ == accepted(old(self)@, text@).0,
            items_of(items@) == accepted(old(self)@, text@).1,
    {
        let mut items: Vec<StreamItem> = Vec::new();
        if self.finished {
            assert(items_of(items@) =~= Seq::<StreamItemView>::empty());
            return items;
        }
        let decoded = to_chars(text);
        let mut pending: Vec<char> = Vec::new();
        core::mem::swap(&mut self.buffer, &mut pending);
        let mut decoded = decoded;
        pending.append(&mut decoded);
        let ghost all = pending@;
        assert(all == old(self)@.buffer + text@);
        let mut from: usize = 0;
        let mut done = false;
        let mut more = true;
        while more
            invariant
                from <= pending@.len(),
                pending@ == all,
                done ==> !more,
                !done ==> drained(all) == after(
                    Seq::new(
                        items@.len(),
                        |i: int| (items_of(items@)[i])->Text_0,
                    ),
                    drained_from(all, from as int),
                ),
                !more && !done ==> index_of_char(all, '\n', from as int) >= all.len(),
                forall|i: int| 0 <= i < items@.len() ==> (#[trigger] items@[i]) is Text,
                done ==> drained(all) == (Drained {
                    fragments: Seq::new(
                        items@.len(),
                        |i: int| (items_of(items@)[i])->Text_0,
                    ),
                    rest: Seq::empty(),
                    done: true,
                }),
            decreases (pending@.len() - from) + (if more { 1int } else { 0int }),
        {
            let end = find_char(pending.as_slice(), '\n', from);
            if end >= pending.len() {
                more = false;
            } else {
                let ghost shown = Seq::new(
                    items@.len(),
                    |i: int| (items_of(items@)[i])->Text_0,
                );
                let line_chars = vstd::slice::slice_subrange(
                    pending.as_slice(),
                    from,
                    end + 1,
                );
                let (a, b) = trim_bounds(line_chars);
                let line = from_char_range(line_chars, a, b);
                assert(line@ == trimmed(all.subrange(from as int, end + 1)));
                if same_text(line.as_str(), DONE_LINE) {
                    assert(shown + Seq::<Seq<char>>::empty() =~= shown);
                    done = true;
                    more = false;
                } else {
                    match parse_sse_line(line.as_str()) {
                        Some(fragment) => {
                            items.push(StreamItem::Text(fragment));
                            assert(Seq::new(
                                items@.len(),
                                |i: int| (items_of(items@)[i])->Text_0,
                            ) =~= shown + seq![fragment@]);
                            assert((shown + seq![fragment@]) + drained_from(
                                all,
                                end + 1,
                            ).fragments =~= shown + (seq![fragment@] + drained_from(
                                all,
                                end + 1,
                            ).fragments));
                        },
                        None => {},
                    }
                    from = end + 1;
                }
            }
        }
        let ghost shown = Seq::new(items@.len(), |i: int| (items_of(items@)[i])->Text_0);
        if done {
            self.buffer = Vec::new();
            self.finished = true;
        } else {
            assert(shown + Seq::<Seq<char>>::empty() =~= shown);
            let rest = pending.split_off(from);
            assert(rest@ =~= all.skip(from as int));
            self.buffer = rest;
        }
        assert(drained(all).fragments == shown);
        assert(items_of(items@) =~= drained(all).fragments.map_values(
            |f: Seq<char>| StreamItemView::Text(f),
        ));
        items
    }

    /// Takes the next event of the transport and returns the items it yields, in
    /// the order of their lines.
    pub fn step(&mut self, event: StreamEvent) -> (items: Vec<StreamItem>)
        ensures
            final(self)@ == next_state(old(self)@, event).0,
            items_of(items@) == next_state(old(self)@, event).1,
    {
        let mut items: Vec<StreamItem> = Vec::new();
        if self.finished {
            assert(items_of(items@) =~= Seq::<StreamItemView>::empty());
            return items;
        }
        match event {
            StreamEvent::Chunk(bytes) => {
                let text = decode_lossy(bytes.as_slice());
                self.accept(text.as_str())
            },
            StreamEvent::Failed(cause) => {
                let mut report = STREAM_ERROR_PREFIX.to_string();
                report.append(cause.as_str());
                items.push(StreamItem::Failure(report));
                self.buffer = Vec::new();
                self.finished = true;
                assert(items_of(items@) =~= seq![
                    StreamItemView::Failure(STREAM_ERROR_PREFIX@ + cause@),
                ]);
                items
            },
            StreamEvent::Closed => {
                self.buffer = Vec::new();
                self.finished = true;
                assert(items_of(items@) =~= Seq::<StreamItemView>::empty());
                items
            },
        }
    }
}

/// A finished decoder yields nothing and stays as it is, whatever the
/// transport reports afterwards.
pub proof fn lemma_finished_is_final(state: DecoderState, event: StreamEvent)
    requires
        state.finished,
    ensures
        next_state(state, event) == (state, Seq::<StreamItemView>::empty()),
{
}

/// In `line` followed by a line feed and `tail`, the first line feed at or
/// after the start of `line` is the one that ends `line`.
proof fn lemma_first_line_feed(line: Seq<char>, tail: Seq<char>, from: int)
    requires
        !line.contains('\n'),
        0 <= from <= line.len(),
    ensures
        index_of_char(line.push('\n') + tail, '\n', from) == line.len(),
    decreases line.len() - from,
{
    let buffer = line.push('\n') + tail;
    if from < line.len() {
        assert(buffer[from] == line[from]);
        assert(line.contains(line[from]));
        lemma_first_line_feed(line, tail, from + 1);
    } else {
        assert(buffer[from] == '\n');
    }
}

/// What a buffer gives up from a position inside `tail` does not depend on
/// the lines before `tail`.
proof fn lemma_drained_shift(head: Seq<char>, tail: Seq<char>, from: int)
    requires
        0 <= from <= tail.len(),
    ensures
        drained_from(head + tail, head.len() + from) == drained_from(tail, from),
    decreases tail.len() - from,
{
    let buffer = head + tail;
    let offset = head.len() as int;
    lemma_index_shift(head, tail, from);
    lemma_index_of_char(tail, '\n', from);
    let end = index_of_char(tail, '\n', from);
    if end < tail.len() {
        assert(buffer.subrange(offset + from, offset + end + 1) =~= tail.subrange(from, end + 1));
        lemma_drained_shift(head, tail, end + 1);
    } else {
        assert(buffer.skip(offset + from) =~= tail.skip(from));
    }
}

/// Searching `tail` for a character gives the same position as searching it
/// behind `head`, up to the length of `head`.
proof fn lemma_index_shift(head: Seq<char>, tail: Seq<char>, from: int)
    requires
        0 <= from <= tail.len(),
    ensures
        index_of_char(head + tail, '\n', head.len() + from) == head.len() + index_of_char(
            tail,
            '\n',
            from,
        ),
    decreases tail.len() - from,
{
    if from < tail.len() {
        assert((head + tail)[head.len() + from] == tail[from]);
        if tail[from] != '\n' {
            lemma_index_shift(head, tail, from + 1);
        }
    }
}

/// The decoder works line by line, in order: what a buffer gives up is decided
/// by its first line, followed by what the rest of the buffer gives up.
///
/// The terminator ends the stream and drops the rest. A line with a fragment
/// yields it before anything that follows. Any other line is skipped.
pub proof fn lemma_first_line_decides(line: Seq<char>, tail: Seq<char>)
    requires
        !line.contains('\n'),
    ensures
        drained(line.push('\n') + tail) == if trimmed(line.push('\n')) == DONE_LINE@ {
            Drained { fragments: Seq::empty(), rest: Seq::empty(), done: true }
        } else {
            match line_fragment(trimmed(line.push('\n'))) {
                Some(fragment) => after(seq![fragment], drained(tail)),
                None => drained(tail),
            }
        },
{
    let head = line.push('\n');
    let buffer = head + tail;
    lemma_first_line_feed(line, tail, 0);
    assert(buffer.subrange(0, line.len() as int + 1) =~= head);
    lemma_drained_shift(head, tail, 0);
}

/// The terminator ends the stream: nothing that follows it yields a fragment.
pub proof fn lemma_terminator_ends_stream(tail: Seq<char>)
    ensures
        drained(DONE_LINE@.push('\n') + tail) == (Drained {
            fragments: Seq::empty(),
            rest: Seq::empty(),
            done: true,
        }),
{
    reveal_strlit("data: [DONE]");
    let line = DONE_LINE@;
    let fed = line.push('\n');
    assert(!line.contains('\n')) by {
        assert forall|i: int| 0 <= i < line.len() implies line[i] != '\n' by {}
    }
    assert(trimmed(fed) == line) by {
        reveal_with_fuel(crate::text::skip_whitespace, 2);
        reveal_with_fuel(crate::text::drop_whitespace, 3);
        assert(crate::text::trim_start_index(fed) == 0);
        assert(crate::text::is_whitespace(fed[12]));
        assert(!crate::text::is_whitespace(fed[11]));
        assert(crate::text::trim_end_index(fed) == 12);
        assert(fed.subrange(0, 12) =~= line);
    }
    lemma_first_line_decides(line, tail);
}

/// A line that does not start with `data: ` once trimmed yields no fragment
/// and does not end the stream: the decoder goes on with what follows.
pub proof fn lemma_foreign_line_is_skipped(line: Seq<char>, tail: Seq<char>)
    requires
        !line.contains('\n'),
        !has_prefix(trimmed(line.push('\n')), DATA_PREFIX@),
    ensures
        drained(line.push('\n') + tail) == drained(tail),
{
    reveal_strlit("data: [DONE]");
    reveal_strlit("data: ");
    assert(DONE_LINE@.take(6) =~= DATA_PREFIX@);
    lemma_first_line_decides(line, tail);
}

/// A data line whose payload is not a JSON document yields no fragment and
/// does not end the stream, unless the line is the terminator itself.
pub proof fn lemma_malformed_data_is_skipped(line: Seq<char>, tail: Seq<char>)
    requires
        !line.contains('\n'),
        trimmed(line.push('\n')) != DONE_LINE@,
        has_prefix(trimmed(line.push('\n')), DATA_PREFIX@),
        json_document(trimmed(line.push('\n')).skip(DATA_PREFIX@.len() as int)) is None,
    ensures
        drained(line.push('\n') + tail) == drained(tail),
{
    lemma_first_line_decides(line, tail);
}

/// Text without a line feed stays buffered and yields nothing.
pub proof fn lemma_unfinished_line_is_kept(text: Seq<char>)
    requires
        !text.contains('\n'),
    ensures
        drained(text) == (Drained { fragments: Seq::empty(), rest: text, done: false }),
{
    lemma_index_of_char(text, '\n', 0);
    let end = index_of_char(text, '\n', 0);
    if end < text.len() {
        assert(text.contains(text[end]));
    }
    assert(text.skip(0) =~= text);
}

/// Searching `x` followed by `y` finds what searching `x` finds, where `x`
/// holds the character.
proof fn lemma_index_in_prefix(x: Seq<char>, y: Seq<char>, from: int)
    requires
        0 <= from <= x.len(),
        index_of_char(x, '\n', from) < x.len(),
    ensures
        index_of_char(x + y, '\n', from) == index_of_char(x, '\n', from),
    decreases x.len() - from,
{
    if from < x.len() {
        assert((x + y)[from] == x[from]);
        if x[from] != '\n' {
            lemma_index_in_prefix(x, y, from + 1);
        }
    }
}

/// What `x` followed by `y` gives up from a position inside `x`: what `x`
/// gives up from there, and then, unless the stream has ended, what the rest
/// of `x` followed by `y` gives up.
proof fn lemma_drained_append(x: Seq<char>, y: Seq<char>, from: int)
    requires
        0 <= from <= x.len(),
    ensures
        drained_from(x + y, from) == if drained_from(x, from).done {
            drained_from(x, from)
        } else {
            after(drained_from(x, from).fragments, drained(drained_from(x, from).rest + y))
        },
    decreases x.len() - from,
{
    let whole = x + y;
    lemma_index_of_char(x, '\n', from);
    let end = index_of_char(x, '\n', from);
    if end < x.len() {
        lemma_index_in_prefix(x, y, from);
        assert(whole.subrange(from, end + 1) =~= x.subrange(from, end + 1));
        let line = trimmed(x.subrange(from, end + 1));
        if line != DONE_LINE@ {
            lemma_drained_append(x, y, end + 1);
            let later = drained_from(x, end + 1);
            if !later.done {
                match line_fragment(line) {
                    Some(fragment) => {
                        assert((seq![fragment] + later.fragments) + drained(
                            later.rest + y,
                        ).fragments =~= seq![fragment] + (later.fragments + drained(
                            later.rest + y,
                        ).fragments));
                    },
                    None => {},
                }
            }
        }
    } else {
        assert(whole =~= x.take(from) + (x.skip(from) + y));
        lemma_drained_shift(x.take(from), x.skip(from) + y, 0);
        assert(Seq::<Seq<char>>::empty() + drained(x.skip(from) + y).fragments =~= drained(
            x.skip(from) + y,
        ).fragments);
    }
}

/// Chunk boundaries are invisible: text that arrives in two pieces yields the
/// same fragments, in the same order, and leaves the decoder in the same
/// state as the same text in one piece.
pub proof fn lemma_chunking_is_invisible(state: DecoderState, first: Seq<char>, second: Seq<char>)
    ensures
        ({
            let one = accepted(state, first);
            let two = accepted(one.0, second);
            accepted(state, first + second) == (two.0, one.1 + two.1)
        }),
{
    if state.finished {
        assert(Seq::<StreamItemView>::empty() + Seq::<StreamItemView>::empty()
            =~= Seq::<StreamItemView>::empty());
    } else {
        let x = state.buffer + first;
        assert(state.buffer + (first + second) =~= x + second);
        lemma_drained_append(x, second, 0);
        let given = drained(x);
        let wrap = |f: Seq<char>| StreamItemView::Text(f);
        if given.done {
            assert(given.fragments.map_values(wrap) + Seq::<StreamItemView>::empty()
                =~= given.fragments.map_values(wrap));
        } else {
            let later = drained(given.rest + second);
            assert((given.fragments + later.fragments).map_values(wrap)
                =~= given.fragments.map_values(wrap) + later.fragments.map_values(wrap));
        }
    }
}

/// Decoding two valid UTF-8 byte sequences one after the other gives the text
/// of their concatenation.
proof fn lemma_decode_concat(a: Seq<u8>, b: Seq<u8>)
    requires
        valid_utf8(a),
        valid_utf8(b),
    ensures
        valid_utf8(a + b),
        decode_utf8(a + b) == decode_utf8(a) + decode_utf8(b),
    decreases a.len(),
{
    valid_utf8_concat(a, b);
    if a.len() == 0 {
        assert(a + b =~= b);
        assert(decode_utf8(a) + decode_utf8(b) =~= decode_utf8(b));
    } else {
        let rest = pop_first_scalar(a);
        assert(rest.len() < a.len());
        lemma_decode_concat(rest, b);
        assert(pop_first_scalar(a + b) =~= rest + b);
        assert(decode_first_scalar(a + b) == decode_first_scalar(a));
        assert(decode_utf8(a + b) =~= seq![decode_first_scalar(a) as char] + (decode_utf8(rest)
            + decode_utf8(b)));
    }
}

/// Chunk boundaries between characters are invisible: two chunks of valid
/// UTF-8 yield the same items, in the same order, and leave the decoder in
/// the same state as their concatenation in one chunk.
///
/// This holds where decoding leaves valid UTF-8 as it stands, which is what
/// the decoding of a chunk promises. A chunk boundary inside a character is
/// not covered: each part of the character is then decoded on its own and
/// replaced.
pub proof fn lemma_valid_chunks_compose(
    state: DecoderState,
    first: Vec<u8>,
    second: Vec<u8>,
    both: Vec<u8>,
)
    requires
        valid_utf8(first@),
        valid_utf8(second@),
        both@ == first@ + second@,
    ensures
        (utf8_lossy(first@) == decode_utf8(first@) && utf8_lossy(second@) == decode_utf8(second@)
            && utf8_lossy(both@) == decode_utf8(both@)) ==> ({
            let one = next_state(state, StreamEvent::Chunk(first));
            let two = next_state(one.0, StreamEvent::Chunk(second));
            next_state(state, StreamEvent::Chunk(both)) == (two.0, one.1 + two.1)
        }),
{
    lemma_decode_concat(first@, second@);
    lemma_chunking_is_invisible(state, decode_utf8(first@), decode_utf8(second@));
}

} // verus!
