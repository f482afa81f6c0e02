//! What the orchestration needs to know of the model API: messages, errors,
//! token estimates, and how replies are read.

use crate::json::{json_document, lookup, JsonValue};
use crate::edit::push_all;
use crate::text::{
    eq_ignore_ascii_case, from_chars, has_prefix, is_blank, is_word, lemma_position,
    lemma_position_bounds, lemma_tail_after_last_bounds, lines_of, position, rfind,
    same_ignoring_ascii_case, slices, split_lines, starts_with, tail_after_last, to_chars, trim,
    trim_end_matches, without_trailing,
};
use vstd::prelude::*;
use vstd::string::StrSliceExecFns;

verus! {

/// One message of a chat request or reply, as it goes over the wire.
#[derive(Debug, Clone)]
pub struct Message {
    pub role: String,
    pub content: String,
}

/// The mathematical value of a `Message`.
pub ghost struct MessageView {
    pub role: Seq<char>,
    pub content: Seq<char>,
}

impl View for Message {
    type V = MessageView;

    open spec fn view(&self) -> MessageView {
        MessageView { role: self.role@, content: self.content@ }
    }
}

/// Views of a sequence of messages.
pub open spec fn messages(v: Seq<Message>) -> Seq<MessageView> {
    v.map_values(|m: Message| m@)
}

/// A failure of the model API. The text of each variant is the diagnostic
/// that the transport, the server or the reader of the reply gave.
#[derive(Debug, Clone)]
pub enum LlmError {
    RequestFailed(String),
    ApiError(String),
    ParseError(String),
}

/// The mathematical value of an `LlmError`.
pub ghost enum LlmErrorView {
    RequestFailed(Seq<char>),
    ApiError(Seq<char>),
    ParseError(Seq<char>),
}

impl View for LlmError {
    type V = LlmErrorView;

    open spec fn view(&self) -> LlmErrorView {
        match self {
            LlmError::RequestFailed(s) => LlmErrorView::RequestFailed(s@),
            LlmError::ApiError(s) => LlmErrorView::ApiError(s@),
            LlmError::ParseError(s) => LlmErrorView::ParseError(s@),
        }
    }
}

impl LlmErrorView {
    /// The error as one line of text.
    pub open spec fn message(self) -> Seq<char> {
        match self {
            LlmErrorView::RequestFailed(s) => "Request failed: "@ + s,
            LlmErrorView::ApiError(s) => "API error: "@ + s,
            LlmErrorView::ParseError(s) => "Parse error: "@ + s,
        }
    }
}

impl LlmError {
    /// The error as one line of text.
    pub fn message(&self) -> (r: String)
        ensures
            r@ == self@.message(),
    {
        match self {
            LlmError::RequestFailed(s) => {
                let mut r = String::from_str("Request failed: ");
                r.append(s.as_str());
                r
            },
            LlmError::ApiError(s) => {
                let mut r = String::from_str("API error: ");
                r.append(s.as_str());
                r
            },
            LlmError::ParseError(s) => {
                let mut r = String::from_str("Parse error: ");
                r.append(s.as_str());
                r
            },
        }
    }

    /// A copy of the error.
    pub fn duplicate(&self) -> (r: LlmError)
        ensures
            r@ == self@,
    {
        match self {
            LlmError::RequestFailed(s) => LlmError::RequestFailed(s.clone()),
            LlmError::ApiError(s) => LlmError::ApiError(s.clone()),
            LlmError::ParseError(s) => LlmError::ParseError(s.clone()),
        }
    }
}

/// The estimated number of tokens in a text of `chars` characters: one token
/// for every four characters, rounded up.
pub open spec fn estimated_tokens(chars: nat) -> nat {
    (chars + 3) / 4
}

/// Estimates the number of tokens in `text`.
pub fn estimate_token_count(text: &str) -> (r: u64)
    ensures
        r == estimated_tokens(text@.len()),
{
    let n: usize = text.unicode_len();
    let whole: usize = n / 4;
    let r: usize = if n % 4 == 0 {
        whole
    } else {
        whole + 1
    };
    r as u64
}


// ---------------------------------------------------------------------------
// Requests
// ---------------------------------------------------------------------------

/// Whether a configured model name stands for "ask the endpoint": the word
/// `AUTODETECT` in any case, or a blank name.
pub open spec fn wants_autodetect(model_name: Seq<char>) -> bool {
    same_ignoring_ascii_case(model_name, "AUTODETECT"@) || is_blank(model_name)
}

/// Whether the model is to be looked up at the endpoint before the first
/// request.
pub fn needs_model_lookup(model_name: &str) -> (r: bool)
    ensures
        r == wants_autodetect(model_name@),
{
    let name = to_chars(model_name);
    let sentinel = to_chars("AUTODETECT");
    eq_ignore_ascii_case(name.as_slice(), sentinel.as_slice()) || trim(name.as_slice()).len() == 0
}

/// The address of `path` under the base address `base`: slashes at the end
/// of `base` are dropped.
pub open spec fn endpoint(base: Seq<char>, path: Seq<char>) -> Seq<char> {
    without_trailing(base, '/') + path
}

fn endpoint_url(base: &str, path: &str) -> (r: String)
    ensures
        r@ == endpoint(base@, path@),
{
    let chars = to_chars(base);
    let mut r = from_chars(trim_end_matches(chars.as_slice(), '/'));
    r.append(path);
    r
}

/// The address that lists the models of the endpoint.
pub fn models_url(base: &str) -> (r: String)
    ensures
        r@ == endpoint(base@, "/models"@),
{
    endpoint_url(base, "/models")
}

/// The address that takes chat requests.
pub fn completions_url(base: &str) -> (r: String)
    ensures
        r@ == endpoint(base@, "/chat/completions"@),
{
    endpoint_url(base, "/chat/completions")
}

/// Whether requests carry a bearer token: they do where a key is configured.
pub fn uses_bearer_auth(api_key: &str) -> (r: bool)
    ensures
        r == (api_key@.len() > 0),
{
    !api_key.is_empty()
}

// ---------------------------------------------------------------------------
// Token accounting
// ---------------------------------------------------------------------------

/// The estimated tokens of a transcript: those of every role and every
/// content.
pub open spec fn transcript_tokens(ms: Seq<MessageView>) -> nat
    decreases ms.len(),
{
    if ms.len() == 0 {
        0
    } else {
        transcript_tokens(ms.drop_last()) + estimated_tokens(ms.last().role.len())
            + estimated_tokens(ms.last().content.len())
    }
}

/// `n` as a counter value: the limit of the counter where `n` is beyond it.
pub open spec fn capped(n: int) -> u64 {
    if n <= u64::MAX {
        n as u64
    } else {
        u64::MAX
    }
}

/// The estimated tokens of the messages of a request.
pub fn input_tokens(ms: &Vec<Message>) -> (r: u64)
    ensures
        r == capped(transcript_tokens(messages(ms@)) as int),
{
    let mut total: u64 = 0;
    let mut i: usize = 0;
    let ghost all = messages(ms@);
    assert(all.take(0) =~= Seq::<MessageView>::empty());
    while i < ms.len()
        invariant
            i <= ms.len(),
            all == messages(ms@),
            total == capped(transcript_tokens(all.take(i as int)) as int),
        decreases ms.len() - i,
    {
        proof {
            let next = all.take(i + 1);
            assert(next.drop_last() =~= all.take(i as int));
            assert(next.last() == ms@[i as int]@);
        }
        let role = estimate_token_count(ms[i].role.as_str());
        let content = estimate_token_count(ms[i].content.as_str());
        total = total.saturating_add(role).saturating_add(content);
        i += 1;
    }
    assert(all.take(ms.len() as int) =~= all);
    total
}

/// The estimated tokens of an exchange: those of the request and those of
/// the reply.
pub fn exchange_tokens(input: u64, reply: &str) -> (r: u64)
    ensures
        r == capped(input + estimated_tokens(reply@.len())),
{
    input.saturating_add(estimate_token_count(reply))
}

// ---------------------------------------------------------------------------
// Replies
// ---------------------------------------------------------------------------

/// What is said where a reply holds no choice.
pub open spec fn no_content() -> Seq<char> {
    "No response content available."@
}

/// The content of one choice of a completion: the choice holds a message
/// with a role and a content, both strings.
pub open spec fn choice_content(choice: JsonValue) -> Option<Seq<char>> {
    match choice.field("message"@) {
        Some(message) => if message.text_at("role"@) is Some {
            message.text_at("content"@)
        } else {
            None
        },
        None => None,
    }
}

/// The text of a completion: the document holds a list `choices` whose
/// elements all have the shape of a choice, and the text is the content of
/// the first, or a fixed notice where the list is empty.
pub open spec fn completion_text(doc: JsonValue) -> Option<Seq<char>> {
    match doc.items_at("choices"@) {
        Some(items) => if forall|i: int|
            0 <= i < items.len() ==> choice_content(#[trigger] items[i]) is Some {
            Some(
                if items.len() > 0 {
                    choice_content(items[0])->0
                } else {
                    no_content()
                },
            )
        } else {
            None
        },
        None => None,
    }
}

/// The identifier of one entry of a list of models.
pub open spec fn model_id(entry: JsonValue) -> Option<Seq<char>> {
    entry.text_at("id"@)
}

/// The identifiers in a list of models: the document holds a list `data`
/// whose elements all carry a string `id`.
pub open spec fn listed_models(doc: JsonValue) -> Option<Seq<Seq<char>>> {
    match doc.items_at("data"@) {
        Some(items) => if forall|i: int|
            0 <= i < items.len() ==> model_id(#[trigger] items[i]) is Some {
            Some(items.map_values(|e: JsonValue| model_id(e)->0))
        } else {
            None
        },
        None => None,
    }
}

/// The text that one choice of a streamed event adds: the choice holds an
/// object `delta`, whose `content` is a string, is null, or is not there.
pub open spec fn delta_content(choice: JsonValue) -> Option<Seq<char>> {
    match choice.field("delta"@) {
        Some(JsonValue::Object(entries)) => match lookup(entries@, "content"@) {
            None => Some(Seq::empty()),
            Some(JsonValue::Null) => Some(Seq::empty()),
            Some(JsonValue::Text(s)) => Some(s@),
            Some(_) => None,
        },
        _ => None,
    }
}

/// The text that a streamed event adds: the document holds a list `choices`
/// whose elements all have the shape of a streamed choice, and the text is
/// what the first adds. An event of another shape adds nothing.
pub open spec fn event_text(doc: JsonValue) -> Seq<char> {
    match doc.items_at("choices"@) {
        Some(items) => if items.len() > 0 && forall|i: int|
            0 <= i < items.len() ==> delta_content(#[trigger] items[i]) is Some {
            delta_content(items[0])->0
        } else {
            Seq::empty()
        },
        None => Seq::empty(),
    }
}

/// The text that the payload of one event adds. The end marker and a
/// payload that is no JSON add nothing.
pub open spec fn payload_text(payload: Seq<char>) -> Seq<char> {
    if payload == "[DONE]"@ {
        Seq::empty()
    } else {
        match json_document(payload) {
            Some(doc) => event_text(doc),
            None => Seq::empty(),
        }
    }
}

/// The text that one line of a stream adds: a line that begins with
/// `data: ` carries an event, any other line adds nothing.
pub open spec fn line_text(line: Seq<char>) -> Seq<char> {
    if has_prefix(line, "data: "@) {
        payload_text(line.skip("data: "@.len() as int))
    } else {
        Seq::empty()
    }
}

/// The texts that `lines` add, put together in order.
pub open spec fn lines_text(lines: Seq<Seq<char>>) -> Seq<char>
    decreases lines.len(),
{
    if lines.len() == 0 {
        Seq::empty()
    } else {
        lines_text(lines.drop_last()) + line_text(lines.last())
    }
}

/// The text that a piece of a stream adds to the reply.
pub open spec fn stream_text(piece: Seq<char>) -> Seq<char> {
    lines_text(lines_of(piece))
}

fn read_choice(choice: &JsonValue) -> (r: Option<String>)
    ensures
        match r {
            Some(s) => choice_content(*choice) == Some(s@),
            None => choice_content(*choice) is None,
        },
{
    let message = choice.get("message")?;
    if message.string_at("role").is_none() {
        return None;
    }
    message.string_at("content")
}

fn read_delta(choice: &JsonValue) -> (r: Option<String>)
    ensures
        match r {
            Some(s) => delta_content(*choice) == Some(s@),
            None => delta_content(*choice) is None,
        },
{
    let delta = choice.get("delta")?;
    match delta {
        JsonValue::Object(_) => match delta.get("content") {
            None => Some(String::new()),
            Some(JsonValue::Null) => Some(String::new()),
            Some(JsonValue::Text(s)) => Some(s.clone()),
            Some(_) => None,
        },
        _ => None,
    }
}

/// The text of a completion.
pub fn read_completion_text(doc: &JsonValue) -> (r: Option<String>)
    ensures
        match r {
            Some(s) => completion_text(*doc) == Some(s@),
            None => completion_text(*doc) is None,
        },
{
    let items = doc.array_at("choices")?;
    let mut first: Option<String> = None;
    let mut i: usize = 0;
    while i < items.len()
        invariant
            i <= items.len(),
            doc.items_at("choices"@) == Some(items@),
            forall|j: int| 0 <= j < i ==> choice_content(#[trigger] items@[j]) is Some,
            i > 0 ==> first is Some && choice_content(items@[0]) == Some(first->0@),
            i == 0 ==> first is None,
        decreases items.len() - i,
    {
        match read_choice(&items[i]) {
            Some(s) => {
                if i == 0 {
                    first = Some(s);
                }
            },
            None => {
                return None;
            },
        }
        i += 1;
    }
    match first {
        Some(s) => Some(s),
        None => Some(String::from_str("No response content available.")),
    }
}

/// The identifiers in a list of models.
pub fn read_models(doc: &JsonValue) -> (r: Option<Vec<String>>)
    ensures
        match r {
            Some(v) => listed_models(*doc) == Some(crate::text::texts(v@)),
            None => listed_models(*doc) is None,
        },
{
    let items = doc.array_at("data")?;
    let mut out: Vec<String> = Vec::new();
    let mut i: usize = 0;
    while i < items.len()
        invariant
            i <= items.len(),
            doc.items_at("data"@) == Some(items@),
            out.len() == i,
            forall|j: int| 0 <= j < i ==> model_id(#[trigger] items@[j]) == Some(out@[j]@),
        decreases items.len() - i,
    {
        match items[i].string_at("id") {
            Some(s) => {
                out.push(s);
            },
            None => {
                return None;
            },
        }
        i += 1;
    }
    assert(crate::text::texts(out@) =~= items@.map_values(|e: JsonValue| model_id(e)->0));
    Some(out)
}

/// The text that a streamed event adds.
pub fn read_event_text(doc: &JsonValue) -> (r: String)
    ensures
        r@ == event_text(*doc),
{
    let items = match doc.array_at("choices") {
        Some(items) => items,
        None => {
            return String::new();
        },
    };
    let mut first: Option<String> = None;
    let mut i: usize = 0;
    while i < items.len()
        invariant
            i <= items.len(),
            doc.items_at("choices"@) == Some(items@),
            forall|j: int| 0 <= j < i ==> delta_content(#[trigger] items@[j]) is Some,
            i > 0 ==> first is Some && delta_content(items@[0]) == Some(first->0@),
            i == 0 ==> first is None,
        decreases items.len() - i,
    {
        match read_delta(&items[i]) {
            Some(s) => {
                if i == 0 {
                    first = Some(s);
                }
            },
            None => {
                return String::new();
            },
        }
        i += 1;
    }
    match first {
        Some(s) => s,
        None => String::new(),
    }
}

/// The text that one line of a stream adds to the reply.
pub fn read_line_text(line: &[char]) -> (r: String)
    ensures
        r@ == line_text(line@),
{
    let prefix = to_chars("data: ");
    if starts_with(line, prefix.as_slice()) {
        let payload = &line[prefix.len()..line.len()];
        if is_word(payload, "[DONE]") {
            String::new()
        } else {
            let text = from_chars(payload);
            match JsonValue::parse(text.as_str()) {
                Some(doc) => read_event_text(&doc),
                None => String::new(),
            }
        }
    } else {
        String::new()
    }
}

/// The text that a piece of a stream adds to the reply. A piece may hold
/// several events, one to a line; what they add is put together in order.
pub fn stream_chunk_text(piece: &str) -> (r: String)
    ensures
        r@ == stream_text(piece@),
{
    let chars = to_chars(piece);
    let lines = split_lines(chars.as_slice());
    let ghost all = slices(lines@);
    let mut out = String::new();
    let mut i: usize = 0;
    assert(all.take(0) =~= Seq::<Seq<char>>::empty());
    while i < lines.len()
        invariant
            i <= lines.len(),
            all == slices(lines@),
            out@ == lines_text(all.take(i as int)),
        decreases lines.len() - i,
    {
        proof {
            let next = all.take(i + 1);
            assert(next.drop_last() =~= all.take(i as int));
            assert(next.last() == lines@[i as int]@);
        }
        out.append(read_line_text(lines[i]).as_str());
        i += 1;
    }
    assert(all.take(lines.len() as int) =~= all);
    out
}

/// What a server said that refused a request: the status line and the body.
pub open spec fn refusal(status: Seq<char>, body: Seq<char>) -> LlmErrorView {
    LlmErrorView::ApiError("HTTP "@ + status + ": "@ + body)
}

/// What a server said that refused to list its models.
pub open spec fn models_refusal(status: Seq<char>, body: Seq<char>) -> LlmErrorView {
    LlmErrorView::ApiError("HTTP "@ + status + " while fetching models: "@ + body)
}

/// The error for a request that the server answered with a status outside
/// the successes.
pub fn http_failure(status: &str, body: &str) -> (r: LlmError)
    ensures
        r@ == refusal(status@, body@),
{
    let mut text = String::from_str("HTTP ");
    text.append(status);
    text.append(": ");
    text.append(body);
    LlmError::ApiError(text)
}

/// The error for a list of models that the server refused.
pub fn models_failure(status: &str, body: &str) -> (r: LlmError)
    ensures
        r@ == models_refusal(status@, body@),
{
    let mut text = String::from_str("HTTP ");
    text.append(status);
    text.append(" while fetching models: ");
    text.append(body);
    LlmError::ApiError(text)
}

/// What is said of a body that is JSON but no chat completion.
pub open spec fn not_a_completion() -> LlmErrorView {
    LlmErrorView::ParseError("Failed to parse API response: not a chat completion"@)
}

/// What is said of a body that is JSON but no list of models.
pub open spec fn not_a_model_list() -> LlmErrorView {
    LlmErrorView::ParseError("Failed to parse /models response: not a list of models"@)
}

/// What is said of a list of models that is empty.
pub open spec fn no_models() -> LlmErrorView {
    LlmErrorView::ApiError("No models returned by /models"@)
}

/// Reads the body of a successful completion: the text of the reply and the
/// estimated tokens of the exchange. A body that is no JSON gives a parse
/// error that carries the parser's message.
pub fn read_completion(body: &str, input: u64) -> (r: Result<(String, u64), LlmError>)
    ensures
        match json_document(body@) {
            Some(doc) => match completion_text(doc) {
                Some(text) => r matches Ok((reply, tokens)) && reply@ == text && tokens == capped(
                    input + estimated_tokens(text.len()),
                ),
                None => r matches Err(e) && e@ == not_a_completion(),
            },
            None => r matches Err(LlmError::ParseError(m)) && has_prefix(
                m@,
                "Failed to parse API response: "@,
            ),
        },
{
    match JsonValue::parse_or_message(body) {
        Ok(doc) => match read_completion_text(&doc) {
            Some(reply) => {
                let tokens = exchange_tokens(input, reply.as_str());
                Ok((reply, tokens))
            },
            None => Err(
                LlmError::ParseError(
                    String::from_str("Failed to parse API response: not a chat completion"),
                ),
            ),
        },
        Err(message) => {
            let mut text = String::from_str("Failed to parse API response: ");
            text.append(message.as_str());
            assert(text@.take("Failed to parse API response: "@.len() as int)
                =~= "Failed to parse API response: "@);
            Err(LlmError::ParseError(text))
        },
    }
}

/// Reads the body of a successful list of models and picks the first.
pub fn read_first_model(body: &str) -> (r: Result<String, LlmError>)
    ensures
        match json_document(body@) {
            Some(doc) => match listed_models(doc) {
                Some(ids) => if ids.len() > 0 {
                    r matches Ok(id) && id@ == ids[0]
                } else {
                    r matches Err(e) && e@ == no_models()
                },
                None => r matches Err(e) && e@ == not_a_model_list(),
            },
            None => r matches Err(LlmError::ParseError(m)) && has_prefix(
                m@,
                "Failed to parse /models response: "@,
            ),
        },
{
    match JsonValue::parse_or_message(body) {
        Ok(doc) => match read_models(&doc) {
            Some(ids) => {
                let mut ids = ids;
                if ids.len() > 0 {
                    let ghost all = ids@;
                    let first = ids.remove(0);
                    Ok(first)
                } else {
                    Err(LlmError::ApiError(String::from_str("No models returned by /models")))
                }
            },
            None => Err(
                LlmError::ParseError(
                    String::from_str("Failed to parse /models response: not a list of models"),
                ),
            ),
        },
        Err(message) => {
            let mut text = String::from_str("Failed to parse /models response: ");
            text.append(message.as_str());
            assert(text@.take("Failed to parse /models response: "@.len() as int)
                =~= "Failed to parse /models response: "@);
            Err(LlmError::ParseError(text))
        },
    }
}


// ---------------------------------------------------------------------------
// Streams that arrive in pieces
// ---------------------------------------------------------------------------

/// The text that `String::from_utf8_lossy` makes of bytes: the text that the
/// bytes encode in UTF-8, with the replacement character in place of what is
/// no UTF-8.
pub uninterp spec fn lossy_text(bytes: Seq<u8>) -> Seq<char>;

/// `String::from_utf8_lossy` of the standard library.
#[verifier::external_body]
fn lossy(bytes: &[u8]) -> (r: String)
    ensures
        r@ == lossy_text(bytes@),
{
    String::from_utf8_lossy(bytes).into_owned()
}

/// Bytes as they come over the wire, each as the character with its code.
/// In this form a stream can be cut into lines before its bytes are read as
/// text: no byte of a line feed is part of another character.
pub open spec fn wire(bytes: Seq<u8>) -> Seq<char> {
    bytes.map_values(|b: u8| b as char)
}

/// The bytes of a line in wire form.
pub open spec fn wire_bytes(line: Seq<char>) -> Seq<u8> {
    line.map_values(|c: char| c as u8)
}

/// The text that one line in wire form adds to the reply: its bytes are
/// read as text, and the text is read as a line of the stream.
pub open spec fn wire_line_text(line: Seq<char>) -> Seq<char> {
    line_text(lossy_text(wire_bytes(line)))
}

/// The texts that lines in wire form add, put together in order.
pub open spec fn wire_lines_text(lines: Seq<Seq<char>>) -> Seq<char>
    decreases lines.len(),
{
    if lines.len() == 0 {
        Seq::empty()
    } else {
        wire_lines_text(lines.drop_last()) + wire_line_text(lines.last())
    }
}

/// The text that a stream in wire form adds to the reply.
pub open spec fn wire_text(s: Seq<char>) -> Seq<char> {
    wire_lines_text(lines_of(s))
}

/// The part of `s` that is made of whole lines: all up to and with its last
/// line feed; nothing where it has none.
pub open spec fn whole_lines(s: Seq<char>) -> Seq<char> {
    s.take(s.len() - tail_after_last(s, '\n'))
}

/// The part of `s` behind its last line feed: a line that is not finished
/// yet.
pub open spec fn unfinished_line(s: Seq<char>) -> Seq<char> {
    s.skip(s.len() - tail_after_last(s, '\n'))
}

fn to_wire(bytes: &[u8]) -> (r: Vec<char>)
    ensures
        r@ == wire(bytes@),
{
    let mut out: Vec<char> = Vec::new();
    let mut i: usize = 0;
    while i < bytes.len()
        invariant
            i <= bytes.len(),
            out.len() == i,
            forall|j: int| 0 <= j < i ==> out@[j] == bytes@[j] as char,
        decreases bytes.len() - i,
    {
        out.push(bytes[i] as char);
        i += 1;
    }
    assert(out@ =~= wire(bytes@));
    out
}

fn from_wire(line: &[char]) -> (r: Vec<u8>)
    ensures
        r@ == wire_bytes(line@),
{
    let mut out: Vec<u8> = Vec::new();
    let mut i: usize = 0;
    while i < line.len()
        invariant
            i <= line.len(),
            out.len() == i,
            forall|j: int| 0 <= j < i ==> out@[j] == line@[j] as u8,
        decreases line.len() - i,
    {
        out.push(line[i] as u8);
        i += 1;
    }
    assert(out@ =~= wire_bytes(line@));
    out
}

fn wire_chunk_text(s: &[char]) -> (r: String)
    ensures
        r@ == wire_text(s@),
{
    let lines = split_lines(s);
    let ghost all = slices(lines@);
    let mut out = String::new();
    let mut i: usize = 0;
    assert(all.take(0) =~= Seq::<Seq<char>>::empty());
    while i < lines.len()
        invariant
            i <= lines.len(),
            all == slices(lines@),
            out@ == wire_lines_text(all.take(i as int)),
        decreases lines.len() - i,
    {
        proof {
            let next = all.take(i + 1);
            assert(next.drop_last() =~= all.take(i as int));
            assert(next.last() == lines@[i as int]@);
        }
        let bytes = from_wire(lines[i]);
        let text = to_chars(lossy(bytes.as_slice()).as_str());
        out.append(read_line_text(text.as_slice()).as_str());
        i += 1;
    }
    assert(all.take(lines.len() as int) =~= all);
    out
}

/// Reads a stream that arrives in pieces. The pieces need not end where the
/// lines of the stream end, nor where its characters end: what follows the
/// last line feed of a piece is kept, as bytes, and read together with the
/// next piece.
#[derive(Debug)]
pub struct StreamDecoder {
    pending: Vec<u8>,
}

impl View for StreamDecoder {
    type V = Seq<char>;

    /// The line that is not finished yet, in wire form.
    closed spec fn view(&self) -> Seq<char> {
        wire(self.pending@)
    }
}

impl StreamDecoder {
    /// A decoder that has read nothing yet.
    pub fn new() -> (r: StreamDecoder)
        ensures
            r@ == Seq::<char>::empty(),
    {
        let r = StreamDecoder { pending: Vec::new() };
        assert(wire(r.pending@) =~= Seq::<char>::empty());
        r
    }

    /// The bytes of the line that is not finished yet.
    pub fn pending(&self) -> (r: &Vec<u8>)
        ensures
            wire(r@) == self@,
    {
        &self.pending
    }

    /// Takes one more piece. Returns the text that the whole lines of what
    /// was pending and the piece, put together, add to the reply, and keeps
    /// what follows their last line feed.
    pub fn feed(&mut self, piece: &[u8]) -> (r: String)
        ensures
            r@ == wire_text(whole_lines(old(self)@ + wire(piece@))),
            final(self)@ == unfinished_line(old(self)@ + wire(piece@)),
    {
        let mut all = to_wire(self.pending.as_slice());
        let more = to_wire(piece);
        push_all(&mut all, more.as_slice());
        let total = all.len();
        let cut: usize = match rfind(all.as_slice(), '\n') {
            Some(i) => i + 1,
            None => 0,
        };
        assert(cut == all@.len() - tail_after_last(all@, '\n'));
        let rest = &all.as_slice()[cut..total];
        let kept = from_wire(rest);
        proof {
            assert forall|j: int| 0 <= j < rest@.len() implies (#[trigger] rest@[j]) as u8
                as char == rest@[j] by {
                let k = cut + j;
                assert(rest@[j] == all@[k]);
                if k < old(self).pending@.len() {
                    assert(all@[k] == old(self).pending@[k] as char);
                } else {
                    assert(all@[k] == piece@[k - old(self).pending@.len()] as char);
                }
            }
            assert(wire(kept@) =~= rest@);
        }
        self.pending = kept;
        wire_chunk_text(&all.as_slice()[0..cut])
    }

    /// Ends the stream. Returns the text that the line which was pending
    /// adds to the reply; nothing is pending afterwards.
    pub fn finish(&mut self) -> (r: String)
        ensures
            r@ == wire_text(old(self)@),
            final(self)@ == Seq::<char>::empty(),
    {
        let all = to_wire(self.pending.as_slice());
        self.pending = Vec::new();
        assert(wire(self.pending@) =~= Seq::<char>::empty());
        wire_chunk_text(all.as_slice())
    }
}

/// The text that a decoder with `pending` gives for `pieces`, fed one after
/// another, and for the end of the stream behind them. All are in wire form.
pub open spec fn decoded(pending: Seq<char>, pieces: Seq<Seq<char>>) -> Seq<char>
    decreases pieces.len(),
{
    if pieces.len() == 0 {
        wire_text(pending)
    } else {
        wire_text(whole_lines(pending + pieces[0])) + decoded(
            unfinished_line(pending + pieces[0]),
            pieces.drop_first(),
        )
    }
}

/// The texts of lines put together are the texts of a first part of the
/// lines and of the rest, put together.
pub proof fn lemma_lines_text_append(x: Seq<Seq<char>>, y: Seq<Seq<char>>)
    ensures
        wire_lines_text(x + y) == wire_lines_text(x) + wire_lines_text(y),
    decreases y.len(),
{
    if y.len() == 0 {
        assert(x + y =~= x);
        assert(wire_lines_text(x) + wire_lines_text(y) =~= wire_lines_text(x));
    } else {
        assert((x + y).drop_last() =~= x + y.drop_last());
        assert((x + y).last() == y.last());
        lemma_lines_text_append(x, y.drop_last());
        assert(wire_lines_text(x + y) =~= wire_lines_text(x) + wire_lines_text(y));
    }
}

/// Behind a text that ends with a line feed, lines begin anew: the lines of
/// such a text and of what follows it are the lines of the two, one after
/// the other.
pub proof fn lemma_lines_append(a: Seq<char>, b: Seq<char>)
    requires
        a.len() == 0 || a.last() == '\n',
    ensures
        lines_of(a + b) == lines_of(a) + lines_of(b),
    decreases a.len(),
{
    if a.len() == 0 {
        assert(a + b =~= b);
        assert(lines_of(a) + lines_of(b) =~= lines_of(b));
    } else {
        let n = position(a, '\n');
        lemma_position_bounds(a, '\n');
        let ab = a + b;
        assert forall|j: int| 0 <= j < n implies #[trigger] ab[j] != '\n' by {
            assert(ab[j] == a[j]);
        }
        assert(n < a.len()) by {
            if n >= a.len() {
                assert(a[a.len() - 1] != '\n');
            }
        }
        assert(ab[n as int] == a[n as int]);
        lemma_position(ab, '\n', n as int);
        assert(ab.take(n as int) =~= a.take(n as int));
        let rest = a.skip(n + 1 as int);
        assert(ab.skip(n + 1 as int) =~= rest + b);
        if rest.len() > 0 {
            assert(rest.last() == a.last());
        }
        lemma_lines_append(rest, b);
        assert(lines_of(ab) =~= lines_of(a) + lines_of(b));
    }
}

/// A stream adds to the reply what its whole lines add and what its
/// unfinished line, read with whatever follows, adds.
pub proof fn lemma_wire_text_split(s: Seq<char>, rest: Seq<char>)
    ensures
        wire_text(s + rest) == wire_text(whole_lines(s)) + wire_text(unfinished_line(s) + rest),
{
    lemma_tail_after_last_bounds(s, '\n');
    let a = whole_lines(s);
    let b = unfinished_line(s) + rest;
    assert(s + rest =~= a + b);
    if a.len() > 0 {
        assert(a.last() == s[s.len() - tail_after_last(s, '\n') - 1]);
    }
    lemma_lines_append(a, b);
    lemma_lines_text_append(lines_of(a), lines_of(b));
}

/// However a stream is cut into pieces, a decoder that is fed the pieces one
/// after another, and then told of the end, gives the text that the stream
/// gives when it is read in one piece.
pub proof fn lemma_pieces_decode_as_whole(pending: Seq<char>, pieces: Seq<Seq<char>>)
    ensures
        decoded(pending, pieces) == wire_text(pending + pieces.flatten()),
    decreases pieces.len(),
{
    if pieces.len() == 0 {
        assert(pending + pieces.flatten() =~= pending);
    } else {
        let first = pieces[0];
        let rest = pieces.drop_first();
        let s = pending + first;
        lemma_pieces_decode_as_whole(unfinished_line(s), rest);
        lemma_wire_text_split(s, rest.flatten());
        assert(pieces.flatten() =~= first + rest.flatten());
        assert(pending + pieces.flatten() =~= s + rest.flatten());
    }
}

} // verus!
