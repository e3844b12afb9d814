use vstd::prelude::*;

verus! {

/// One message of a conversation: who speaks (`system`, `user` or
/// `assistant`) and what is said.
pub struct Message {
    pub role: String,
    pub content: String,
}

/// The body of a chat request: the model, the conversation so far and
/// whether the server should stream its answer.
pub struct ChatRequest {
    pub model: String,
    pub messages: Vec<Message>,
    pub stream: bool,
}

/// A complete answer: the assistant's message and the server's `done` flag.
pub struct ChatReply {
    pub message: Message,
    pub done: bool,
}

/// One record of a streamed answer; `done` marks the last one.
pub struct ChatChunk {
    pub message: Message,
    pub done: bool,
}

/// An error reported by the server in the body: `{ "error": ... }`.
pub struct ErrorReply {
    pub error: String,
}

/// How the whole body of a response reads: as a complete answer, and as an
/// error object (`None` where it does not read as that shape).
pub struct BodyShapes {
    pub reply: Option<ChatReply>,
    pub error: Option<ErrorReply>,
}

/// How one newline-delimited record reads: as an error object, and as a
/// chunk, or the reason it is not one.
pub struct RecordShapes {
    pub error: Option<ErrorReply>,
    pub chunk: Result<ChatChunk, String>,
}

/// Why a chat exchange failed. Every failure ends the exchange.
pub enum ChatError {
    /// The request could not be sent or the answer could not be read.
    Transport(String),
    /// The server answered with a status outside 200..=299.
    HttpStatus { status: u16, body: String },
    /// The server reported an error in the body.
    Upstream(String),
    /// A record of a streamed body is neither an error nor a chunk.
    MalformedChunk { detail: String, status: u16 },
    /// The body is empty, or holds only blank lines.
    UnexpectedResponse { status: u16, body: String },
}

/// A chat failure over character sequences.
pub enum Failure {
    Transport(Seq<char>),
    HttpStatus { status: u16, body: Seq<char> },
    Upstream(Seq<char>),
    MalformedChunk { detail: Seq<char>, status: u16 },
    UnexpectedResponse { status: u16, body: Seq<char> },
}

impl View for ChatError {
    type V = Failure;

    open spec fn view(&self) -> Failure {
        match self {
            ChatError::Transport(m) => Failure::Transport(m@),
            ChatError::HttpStatus { status, body } => Failure::HttpStatus { status: *status, body: body@ },
            ChatError::Upstream(m) => Failure::Upstream(m@),
            ChatError::MalformedChunk { detail, status } => Failure::MalformedChunk { detail: detail@, status: *status },
            ChatError::UnexpectedResponse { status, body } => Failure::UnexpectedResponse { status: *status, body: body@ },
        }
    }
}

/// The outcome of an exchange over character sequences.
pub open spec fn outcome(r: Result<String, ChatError>) -> Result<Seq<char>, Failure> {
    match r {
        Ok(text) => Ok(text@),
        Err(e) => Err(e@),
    }
}

/// A status in the success range.
pub open spec fn is_success(status: u16) -> bool {
    200 <= status <= 299
}

/// `acc` put in front of a successful text; a failure passes unchanged.
pub open spec fn prefixed(acc: Seq<char>, r: Result<Seq<char>, Failure>) -> Result<Seq<char>, Failure> {
    match r {
        Ok(text) => Ok(acc + text),
        Err(f) => Err(f),
    }
}

/// Reads streamed records in order: an error record ends the exchange with
/// its message, a record that is no chunk ends it as malformed, and the
/// contents of the chunks are joined up to and including the first one
/// marked done.
pub open spec fn scan_records(records: Seq<RecordShapes>, status: u16) -> Result<Seq<char>, Failure>
    decreases records.len(),
{
    if records.len() == 0 {
        Ok(Seq::empty())
    } else {
        let first = records[0];
        if first.error is Some {
            Err(Failure::Upstream(first.error->0.error@))
        } else {
            match first.chunk {
                Err(detail) => Err(Failure::MalformedChunk { detail: detail@, status }),
                Ok(c) => if c.done {
                    Ok(c.message.content@)
                } else {
                    prefixed(c.message.content@, scan_records(records.drop_first(), status))
                },
            }
        }
    }
}

/// The answer to a chat request: a status outside the success range fails
/// with the status and the body; then a complete answer gives its content;
/// then an error object fails with its message; then the records of the
/// body are read as a stream, and a body without records is unexpected.
pub open spec fn decode(status: u16, body: Seq<char>, shapes: BodyShapes, records: Seq<RecordShapes>) -> Result<Seq<char>, Failure> {
    if !is_success(status) {
        Err(Failure::HttpStatus { status, body })
    } else if shapes.reply is Some {
        Ok(shapes.reply->0.message.content@)
    } else if shapes.error is Some {
        Err(Failure::Upstream(shapes.error->0.error@))
    } else if records.len() == 0 {
        Err(Failure::UnexpectedResponse { status, body })
    } else {
        scan_records(records, status)
    }
}

/// Reads a streamed body record by record; see `scan_records`.
pub fn scan_chunk_records(records: &Vec<RecordShapes>, status: u16) -> (r: Result<String, ChatError>)
    ensures
        outcome(r) == scan_records(records@, status),
{
    let n = records.len();
    let mut combined = String::new();
    let mut i: usize = 0;
    assert(records@.subrange(0, n as int) == records@);
    while i < n
        invariant
            n == records@.len(),
            i <= n,
            scan_records(records@, status) == prefixed(combined@, scan_records(records@.subrange(i as int, n as int), status)),
        decreases n - i,
    {
        let ghost rest = records@.subrange(i as int, n as int);
        assert(rest[0] == records@[i as int]);
        assert(rest.drop_first() == records@.subrange(i + 1, n as int));
        let record = &records[i];
        match &record.error {
            Some(e) => {
                return Err(ChatError::Upstream(e.error.clone()));
            },
            None => {},
        }
        match &record.chunk {
            Err(detail) => {
                return Err(ChatError::MalformedChunk { detail: detail.clone(), status });
            },
            Ok(chunk) => {
                let ghost before = combined@;
                combined.append(chunk.message.content.as_str());
                proof {
                    let c = chunk.message.content@;
                    match scan_records(records@.subrange(i + 1, n as int), status) {
                        Ok(t) => {
                            assert(before + (c + t) == (before + c) + t);
                        },
                        Err(_) => {},
                    }
                }
                if chunk.done {
                    return Ok(combined);
                }
            },
        }
        i = i + 1;
    }
    assert(records@.subrange(n as int, n as int).len() == 0);
    assert(combined@ + Seq::<char>::empty() == combined@);
    Ok(combined)
}

/// Turns a response into the assistant's text or a classified failure.
/// `shapes` tells how the whole body reads, `records` how each record of
/// the body reads, in order.
pub fn decode_chat_response(status: u16, body: String, shapes: BodyShapes, records: Vec<RecordShapes>) -> (r: Result<String, ChatError>)
    ensures
        outcome(r) == decode(status, body@, shapes, records@),
{
    if status < 200 || status > 299 {
        return Err(ChatError::HttpStatus { status, body });
    }
    let BodyShapes { reply, error } = shapes;
    match reply {
        Some(reply) => {
            return Ok(reply.message.content);
        },
        None => {},
    }
    match error {
        Some(e) => {
            return Err(ChatError::Upstream(e.error));
        },
        None => {},
    }
    if records.len() == 0 {
        return Err(ChatError::UnexpectedResponse { status, body });
    }
    scan_chunk_records(&records, status)
}

/// The server used when none is configured.
pub const DEFAULT_BASE_URL: &'static str = "http://127.0.0.1:11434";

/// The model asked for when none is configured.
pub const DEFAULT_MODEL: &'static str = "hf.co/LiquidAI/LFM2.5-1.2B-Instruct-GGUF";

/// The system prompt used when none is configured.
pub const DEFAULT_SYSTEM_PROMPT: &'static str = "You are a helpful assistant.";

/// Where the chat client sends its requests and what it asks for.
pub struct ChatSettings {
    pub base_url: String,
    pub model: String,
    pub system_prompt: String,
}

/// A configured value, or the given default where none could be had.
pub open spec fn or_default(v: Option<String>, default: &str) -> Seq<char> {
    match v {
        Some(s) => s@,
        None => default@,
    }
}

fn value_or(v: Option<String>, default: &str) -> (r: String)
    ensures
        r@ == or_default(v, default),
{
    match v {
        Some(s) => s,
        None => default.to_owned(),
    }
}

impl ChatSettings {
    /// Settings from the values that could be read; each one that could not
    /// falls back to its default.
    pub fn resolve(base_url: Option<String>, model: Option<String>, system_prompt: Option<String>) -> (r: ChatSettings)
        ensures
            r.base_url@ == or_default(base_url, DEFAULT_BASE_URL),
            r.model@ == or_default(model, DEFAULT_MODEL),
            r.system_prompt@ == or_default(system_prompt, DEFAULT_SYSTEM_PROMPT),
    {
        ChatSettings {
            base_url: value_or(base_url, DEFAULT_BASE_URL),
            model: value_or(model, DEFAULT_MODEL),
            system_prompt: value_or(system_prompt, DEFAULT_SYSTEM_PROMPT),
        }
    }
}

/// The endpoint of chat requests under a base URL.
pub fn chat_url(base_url: &str) -> (r: String)
    ensures
        r@ == base_url@ + "/api/chat"@,
{
    let r = base_url.to_owned();
    r.concat("/api/chat")
}

/// A conversation without history: the system prompt, then the user's text.
pub fn single_turn(system_prompt: &String, user_input: &str) -> (r: Vec<Message>)
    ensures
        r@.len() == 2,
        r@[0].role@ == "system"@,
        r@[0].content@ == system_prompt@,
        r@[1].role@ == "user"@,
        r@[1].content@ == user_input@,
{
    let mut r: Vec<Message> = Vec::new();
    r.push(Message { role: "system".to_owned(), content: system_prompt.clone() });
    r.push(Message { role: "user".to_owned(), content: user_input.to_owned() });
    r
}

/// The request for a conversation; it never asks for a stream.
pub fn chat_request(model: &String, messages: Vec<Message>) -> (r: ChatRequest)
    ensures
        r.model@ == model@,
        r.messages@ == messages@,
        !r.stream,
{
    ChatRequest { model: model.clone(), messages, stream: false }
}

} // verus!
