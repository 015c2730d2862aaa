//! Requests and responses of the completion and embedding service, with the
//! range checks on sampling parameters that run before a request is sent.

use crate::binary64::{within, within_closed, MINUS_TWO_BITS, ONE_BITS, TWO_BITS, ZERO_BITS};
use std::collections::HashMap;
use vstd::prelude::*;

verus! {

/// A chat completion request. The sampling parameters are binary64 values
/// held as bit patterns (`f64::to_bits`); `None` leaves the service's default.
#[derive(Debug, Default)]
pub struct OpenAIRequest {
    pub model: String,
    pub messages: Vec<Message>,
    pub temperature: Option<u64>,
    pub top_p: Option<u64>,
    pub n: Option<u32>,
    pub stream: Option<bool>,
    pub stop: Option<Vec<String>>,
    pub max_tokens: Option<u32>,
    pub presence_penalty: Option<u64>,
    pub frequency_penalty: Option<u64>,
    pub logit_bias: Option<HashMap<String, u64>>,
    pub user: Option<String>,
}

/// The sampling parameter that is out of its range.
#[derive(Debug, Clone, Copy, PartialEq, Eq, Structural)]
pub enum OpenAIApiError {
    InvalidTemperature,
    InvalidTopP,
    InvalidPresencePenalty,
    InvalidFrequencyPenalty,
}

impl OpenAIApiError {
    /// The human-readable text of the error.
    pub fn message(&self) -> (r: String)
        ensures
            r@ == sampling_error_text(*self),
    {
        match self {
            OpenAIApiError::InvalidTemperature => String::from_str(
                "temperature must be between 0 and 2.",
            ),
            OpenAIApiError::InvalidTopP => String::from_str("Top_p must be between 0 and 1."),
            OpenAIApiError::InvalidPresencePenalty => String::from_str(
                "Presence_penalty must be between -2.0 and 2.0.",
            ),
            OpenAIApiError::InvalidFrequencyPenalty => String::from_str(
                "Frequency_penalty must be between -2.0 and 2.0.",
            ),
        }
    }
}

/// The text that names each sampling error.
pub open spec fn sampling_error_text(e: OpenAIApiError) -> Seq<char> {
    match e {
        OpenAIApiError::InvalidTemperature => "temperature must be between 0 and 2."@,
        OpenAIApiError::InvalidTopP => "Top_p must be between 0 and 1."@,
        OpenAIApiError::InvalidPresencePenalty => "Presence_penalty must be between -2.0 and 2.0."@,
        OpenAIApiError::InvalidFrequencyPenalty => "Frequency_penalty must be between -2.0 and 2.0."@,
    }
}

/// A parameter that is given and lies outside `[lo, hi]`.
pub open spec fn out_of_range(p: Option<u64>, lo: u64, hi: u64) -> bool {
    p is Some && !within(p->0, lo, hi)
}

/// The first sampling parameter out of its closed range, in the order
/// temperature `[0, 2]`, top_p `[0, 1]`, presence penalty `[-2, 2]`,
/// frequency penalty `[-2, 2]`.
pub open spec fn sampling_violation(q: OpenAIRequest) -> Option<OpenAIApiError> {
    if out_of_range(q.temperature, ZERO_BITS, TWO_BITS) {
        Some(OpenAIApiError::InvalidTemperature)
    } else if out_of_range(q.top_p, ZERO_BITS, ONE_BITS) {
        Some(OpenAIApiError::InvalidTopP)
    } else if out_of_range(q.presence_penalty, MINUS_TWO_BITS, TWO_BITS) {
        Some(OpenAIApiError::InvalidPresencePenalty)
    } else if out_of_range(q.frequency_penalty, MINUS_TWO_BITS, TWO_BITS) {
        Some(OpenAIApiError::InvalidFrequencyPenalty)
    } else {
        None
    }
}

fn param_ok(p: Option<u64>, lo: u64, hi: u64) -> (r: bool)
    ensures
        r == !out_of_range(p, lo, hi),
{
    match p {
        Some(x) => within_closed(x, lo, hi),
        None => true,
    }
}

impl OpenAIRequest {
    /// A request with a model and messages and every optional field unset.
    pub fn new(model: String, messages: Vec<Message>) -> (r: OpenAIRequest)
        ensures
            r.model == model,
            r.messages == messages,
            r.temperature is None && r.top_p is None && r.n is None && r.stream is None,
            r.stop is None && r.max_tokens is None && r.presence_penalty is None,
            r.frequency_penalty is None && r.logit_bias is None && r.user is None,
    {
        OpenAIRequest {
            model,
            messages,
            temperature: None,
            top_p: None,
            n: None,
            stream: None,
            stop: None,
            max_tokens: None,
            presence_penalty: None,
            frequency_penalty: None,
            logit_bias: None,
            user: None,
        }
    }

    /// Checks each given sampling parameter against its closed range and
    /// reports the first that is outside it.
    pub fn validate(&self) -> (r: Result<(), OpenAIApiError>)
        ensures
            match sampling_violation(*self) {
                None => r is Ok,
                Some(e) => r == Err::<(), OpenAIApiError>(e),
            },
    {
        if !param_ok(self.temperature, ZERO_BITS, TWO_BITS) {
            return Err(OpenAIApiError::InvalidTemperature);
        }
        if !param_ok(self.top_p, ZERO_BITS, ONE_BITS) {
            return Err(OpenAIApiError::InvalidTopP);
        }
        if !param_ok(self.presence_penalty, MINUS_TWO_BITS, TWO_BITS) {
            return Err(OpenAIApiError::InvalidPresencePenalty);
        }
        if !param_ok(self.frequency_penalty, MINUS_TWO_BITS, TWO_BITS) {
            return Err(OpenAIApiError::InvalidFrequencyPenalty);
        }
        Ok(())
    }
}

/// Most tokens that one embedding input may hold.
pub const MAX_EMBEDDING_TOKENS: usize = 8191;

/// The lower-case hexadecimal digit of `d`, for `0 <= d < 16`.
pub open spec fn hex_digit(d: int) -> char {
    seq!['0', '1', '2', '3', '4', '5', '6', '7', '8', '9', 'a', 'b', 'c', 'd', 'e', 'f'][d]
}

/// How a character is written inside a JSON string: the quote, the
/// backslash and the control characters below U+0020 escaped (by their short
/// form where JSON has one, else as `\u00` and two hexadecimal digits), every
/// other character as itself.
pub open spec fn json_escape(c: char) -> Seq<char> {
    if c == '"' {
        seq!['\\', '"']
    } else if c == '\\' {
        seq!['\\', '\\']
    } else if c == '\u{8}' {
        seq!['\\', 'b']
    } else if c == '\t' {
        seq!['\\', 't']
    } else if c == '\n' {
        seq!['\\', 'n']
    } else if c == '\u{c}' {
        seq!['\\', 'f']
    } else if c == '\r' {
        seq!['\\', 'r']
    } else if (c as u32) < 0x20 {
        seq!['\\', 'u', '0', '0', hex_digit((c as u32) as int / 16), hex_digit((c as u32) as int % 16)]
    } else {
        seq![c]
    }
}

/// The JSON string literal for a text: quoted, each character written as
/// `json_escape` gives.
pub open spec fn json_string(s: Seq<char>) -> Seq<char> {
    seq!['"'] + s.map_values(|c: char| json_escape(c)).flatten() + seq!['"']
}

/// The token ids that the `cl100k_base` encoding gives a text, special
/// tokens included.
pub uninterp spec fn cl100k_tokens(s: Seq<char>) -> Seq<usize>;

/// `serde_json::Error`, carried through unopened.
#[verifier::external_type_specification]
#[verifier::external_body]
pub struct ExJsonError(serde_json::Error);

/// Relies on `serde_json::to_string` on a `str`: `serialize_str` writes the
/// quoted, escaped text into a `Vec`, which cannot fail.
#[verifier::external_body]
fn json_quote(s: &str) -> (r: Result<String, serde_json::Error>)
    ensures
        r is Ok && r->Ok_0@ == json_string(s@),
{
    serde_json::to_string(s)
}

/// Relies on `tiktoken_rs::cl100k_base`, which builds the encoder from the
/// vocabulary compiled into the crate and so always succeeds, and on its
/// `CoreBPE::encode_with_special_tokens`: the token ids of `s`, a function of
/// its characters alone. The splitting regex runs on fancy-regex's
/// backtracking machine, whose stack and backtrack count are capped at one
/// million; the bound on `s` keeps every run of characters well below that.
#[verifier::external_body]
fn cl100k_encode(s: &str) -> (r: Option<Vec<usize>>)
    requires
        s@.len() <= MAX_TOKENIZER_INPUT,
    ensures
        r is Some && r->Some_0@ == cl100k_tokens(s@),
{
    match tiktoken_rs::cl100k_base() {
        Ok(bpe) => Some(bpe.encode_with_special_tokens(s)),
        Err(_) => None,
    }
}

/// Most characters that a text may hold to be measured in tokens.
pub const MAX_TOKENIZER_INPUT: usize = 100_000;

/// Why a text was not measured in tokens, or was refused for its length.
#[derive(Debug, Clone, Copy, PartialEq, Eq, Structural)]
pub enum TokenError {
    /// The text holds more than `MAX_TOKENIZER_INPUT` characters.
    InputTooLong,
    /// An embedding input holds more than `MAX_EMBEDDING_TOKENS` tokens.
    TooManyTokens,
}

/// The token ids of a text under `cl100k_base`, or `InputTooLong` for a text
/// longer than `MAX_TOKENIZER_INPUT` characters.
pub open spec fn tokens_outcome(s: Seq<char>) -> Result<Seq<usize>, TokenError> {
    if s.len() <= MAX_TOKENIZER_INPUT {
        Ok(cl100k_tokens(s))
    } else {
        Err(TokenError::InputTooLong)
    }
}

/// A token list as values.
pub open spec fn tokens_view(r: Result<Vec<usize>, TokenError>) -> Result<Seq<usize>, TokenError> {
    match r {
        Ok(t) => Ok(t@),
        Err(e) => Err(e),
    }
}

/// A message as one compact JSON object, from the JSON literals of its role
/// and content: `{"role":<role>,"content":<content>}`.
pub open spec fn message_json(role_json: Seq<char>, content_json: Seq<char>) -> Seq<char> {
    "{\"role\":"@ + role_json + ",\"content\":"@ + content_json + "}"@
}

/// Frames a message's JSON object around the JSON literals of its role and
/// content.
pub fn frame_message(role_json: &str, content_json: &str) -> (r: String)
    ensures
        r@ == message_json(role_json@, content_json@),
{
    let r = String::from_str("{\"role\":");
    let r = r.concat(role_json);
    let r = r.concat(",\"content\":");
    let r = r.concat(content_json);
    r.concat("}")
}

/// The token ids of `msg` under the `cl100k_base` encoding; a text longer
/// than `MAX_TOKENIZER_INPUT` characters is refused.
pub fn get_tokens(msg: &str) -> (r: Result<Vec<usize>, TokenError>)
    ensures
        tokens_view(r) == tokens_outcome(msg@),
{
    if msg.unicode_len() > MAX_TOKENIZER_INPUT {
        return Err(TokenError::InputTooLong);
    }
    Ok(cl100k_encode(msg).unwrap())
}

/// Accepts a token count up to `MAX_EMBEDDING_TOKENS`.
pub fn check_token_count(count: usize) -> (r: Result<(), TokenError>)
    ensures
        match r {
            Ok(_) => count <= MAX_EMBEDDING_TOKENS,
            Err(e) => count > MAX_EMBEDDING_TOKENS && e == TokenError::TooManyTokens,
        },
{
    if count > MAX_EMBEDDING_TOKENS {
        Err(TokenError::TooManyTokens)
    } else {
        Ok(())
    }
}

/// One chat message.
#[derive(Debug, Clone)]
pub struct Message {
    pub role: String,
    pub content: String,
}

impl Message {
    pub fn new(role: String, content: String) -> (r: Message)
        ensures
            r.role == role,
            r.content == content,
    {
        Message { role, content }
    }

    /// The message as a compact JSON object, role first.
    pub fn to_string(&self) -> (r: Result<String, serde_json::Error>)
        ensures
            r is Ok && r->Ok_0@ == message_json(json_string(self.role@), json_string(self.content@)),
    {
        let role = json_quote(self.role.as_str())?;
        let content = json_quote(self.content.as_str())?;
        Ok(frame_message(role.as_str(), content.as_str()))
    }

    /// The token ids of the message's JSON form; a form longer than
    /// `MAX_TOKENIZER_INPUT` characters is refused.
    pub fn get_tokens(&self) -> (r: Result<Vec<usize>, TokenError>)
        ensures
            tokens_view(r) == tokens_outcome(
                message_json(json_string(self.role@), json_string(self.content@)),
            ),
    {
        let msg = self.to_string().unwrap();
        get_tokens(msg.as_str())
    }

    pub fn role(&self) -> (r: &str)
        ensures
            r@ == self.role@,
    {
        self.role.as_str()
    }

    pub fn content(&self) -> (r: &str)
        ensures
            r@ == self.content@,
    {
        self.content.as_str()
    }
}

/// A request for the embedding of `input` under `model`.
#[derive(Debug, Clone)]
pub struct OpenAIEmbeddingRequest {
    pub input: String,
    pub model: String,
    pub user: Option<String>,
}

impl OpenAIEmbeddingRequest {
    pub fn new(input: String, model: String) -> (r: OpenAIEmbeddingRequest)
        ensures
            r.input == input,
            r.model == model,
            r.user is None,
    {
        OpenAIEmbeddingRequest { input, model, user: None }
    }

    /// Refuses an input longer than `MAX_TOKENIZER_INPUT` characters, or
    /// of more than `MAX_EMBEDDING_TOKENS` tokens under the `cl100k_base`
    /// encoding.
    pub fn validate(&self) -> (r: Result<(), TokenError>)
        ensures
            self.input@.len() > MAX_TOKENIZER_INPUT ==> r == Err::<(), TokenError>(
                TokenError::InputTooLong,
            ),
            self.input@.len() <= MAX_TOKENIZER_INPUT ==> (r is Ok <==> cl100k_tokens(
                self.input@,
            ).len() <= MAX_EMBEDDING_TOKENS),
            self.input@.len() <= MAX_TOKENIZER_INPUT && r is Err ==> r == Err::<(), TokenError>(
                TokenError::TooManyTokens,
            ),
    {
        let tokens = get_tokens(self.input.as_str())?;
        check_token_count(tokens.len())
    }
}

/// One completion choice.
#[derive(Debug, Clone)]
pub struct Choice {
    pub message: Message,
    pub finish_reason: String,
    pub index: u32,
}

/// Token accounting of one call.
#[derive(Debug, Clone, Copy)]
pub struct Usage {
    pub prompt_tokens: u32,
    pub total_tokens: u32,
    pub completion_tokens: Option<u32>,
}

/// The answer to a chat completion request.
#[derive(Debug, Clone)]
pub struct OpenAIResponse {
    pub id: String,
    pub object: String,
    pub created: u64,
    pub model: String,
    pub usage: Usage,
    pub choices: Vec<Choice>,
}

/// The answer to an embedding request.
#[derive(Debug, Clone)]
pub struct OpenAIEmbeddingResponse {
    pub data: Vec<Embedding>,
    pub model: String,
    pub object: String,
    pub usage: Usage,
}

/// One embedding; its elements are binary32 bit patterns.
#[derive(Debug, Clone)]
pub struct Embedding {
    pub embedding: Vec<u32>,
    pub index: u32,
    pub object: String,
}

impl Choice {
    pub fn message(&self) -> (r: &Message)
        ensures
            r == self.message,
    {
        &self.message
    }

    pub fn finish_reason(&self) -> (r: &str)
        ensures
            r@ == self.finish_reason@,
    {
        self.finish_reason.as_str()
    }

    pub fn index(&self) -> (r: u32)
        ensures
            r == self.index,
    {
        self.index
    }
}

impl Usage {
    pub fn prompt_tokens(&self) -> (r: u32)
        ensures
            r == self.prompt_tokens,
    {
        self.prompt_tokens
    }

    pub fn completion_tokens(&self) -> (r: Option<u32>)
        ensures
            r == self.completion_tokens,
    {
        self.completion_tokens
    }

    pub fn total_tokens(&self) -> (r: u32)
        ensures
            r == self.total_tokens,
    {
        self.total_tokens
    }
}

impl OpenAIResponse {
    pub fn id(&self) -> (r: &str)
        ensures
            r@ == self.id@,
    {
        self.id.as_str()
    }

    pub fn object(&self) -> (r: &str)
        ensures
            r@ == self.object@,
    {
        self.object.as_str()
    }

    pub fn created(&self) -> (r: u64)
        ensures
            r == self.created,
    {
        self.created
    }

    pub fn model(&self) -> (r: &str)
        ensures
            r@ == self.model@,
    {
        self.model.as_str()
    }

    pub fn usage(&self) -> (r: &Usage)
        ensures
            r == self.usage,
    {
        &self.usage
    }

    pub fn choices(&self) -> (r: &[Choice])
        ensures
            r@ == self.choices@,
    {
        self.choices.as_slice()
    }
}

impl OpenAIEmbeddingResponse {
    pub fn data(&self) -> (r: &Vec<Embedding>)
        ensures
            r == self.data,
    {
        &self.data
    }

    pub fn model(&self) -> (r: &String)
        ensures
            r == self.model,
    {
        &self.model
    }

    pub fn object(&self) -> (r: &String)
        ensures
            r == self.object,
    {
        &self.object
    }

    pub fn usage(&self) -> (r: &Usage)
        ensures
            r == self.usage,
    {
        &self.usage
    }
}

impl Embedding {
    pub fn embedding(&self) -> (r: &Vec<u32>)
        ensures
            r == self.embedding,
    {
        &self.embedding
    }

    pub fn index(&self) -> (r: u32)
        ensures
            r == self.index,
    {
        self.index
    }

    pub fn object(&self) -> (r: &String)
        ensures
            r == self.object,
    {
        &self.object
    }
}

} // verus!
