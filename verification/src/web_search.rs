//! A search of the web by a temporary assistant: the requests that it takes, and what
//! their responses mean.

use crate::json;
use crate::strings;
use crate::text;
use vstd::prelude::*;

verus! {

// ---------------------------------------------------------------- requests

/// How far a search has come.
pub enum Stage<S> {
    /// The assistant is created.
    Assistant,
    /// The thread is created.
    Thread { assistant: S },
    /// The query is added to the thread.
    Query { assistant: S, thread: S },
    /// The run is started.
    Run { assistant: S, thread: S },
    /// The status of the run is asked for.
    Status { thread: S, run: S },
    /// The messages of the thread are asked for.
    Messages { thread: S },
}

/// A stage with its texts as sequences of characters.
pub open spec fn stage_view(s: Stage<String>) -> Stage<Seq<char>> {
    match s {
        Stage::Assistant => Stage::Assistant,
        Stage::Thread { assistant } => Stage::Thread { assistant: assistant@ },
        Stage::Query { assistant, thread } => Stage::Query {
            assistant: assistant@,
            thread: thread@,
        },
        Stage::Run { assistant, thread } => Stage::Run { assistant: assistant@, thread: thread@ },
        Stage::Status { thread, run } => Stage::Status { thread: thread@, run: run@ },
        Stage::Messages { thread } => Stage::Messages { thread: thread@ },
    }
}

/// A request to the service.
pub enum Request<S> {
    /// Create an assistant with this model, these instructions and this tool.
    CreateAssistant { url: S, model: S, instructions: S, tool: S },
    /// Create a thread.
    CreateThread { url: S },
    /// Add a message with this role and this content.
    AddMessage { url: S, role: S, content: S },
    /// Start a run of this assistant.
    StartRun { url: S, assistant_id: S },
    /// Ask for what is there.
    Get { url: S },
}

/// A request with its texts as sequences of characters.
pub open spec fn request_view(r: Request<String>) -> Request<Seq<char>> {
    match r {
        Request::CreateAssistant { url, model, instructions, tool } => Request::CreateAssistant {
            url: url@,
            model: model@,
            instructions: instructions@,
            tool: tool@,
        },
        Request::CreateThread { url } => Request::CreateThread { url: url@ },
        Request::AddMessage { url, role, content } => Request::AddMessage {
            url: url@,
            role: role@,
            content: content@,
        },
        Request::StartRun { url, assistant_id } => Request::StartRun {
            url: url@,
            assistant_id: assistant_id@,
        },
        Request::Get { url } => Request::Get { url: url@ },
    }
}

/// Where the messages of a thread are.
pub open spec fn messages_url(thread: Seq<char>) -> Seq<char> {
    "https://api.openai.com/v1/threads/"@ + thread + "/messages"@
}

/// Where the runs of a thread are.
pub open spec fn runs_url(thread: Seq<char>) -> Seq<char> {
    "https://api.openai.com/v1/threads/"@ + thread + "/runs"@
}

/// Where a run of a thread is.
pub open spec fn run_url(thread: Seq<char>, run: Seq<char>) -> Seq<char> {
    "https://api.openai.com/v1/threads/"@ + thread + "/runs/"@ + run
}

/// The request of a stage.
pub open spec fn request_of(stage: Stage<Seq<char>>, query: Seq<char>) -> Request<Seq<char>> {
    match stage {
        Stage::Assistant => Request::CreateAssistant {
            url: "https://api.openai.com/v1/assistants"@,
            model: "gpt-4o"@,
            instructions: "Answer user questions using web search."@,
            tool: "browser"@,
        },
        Stage::Thread { assistant } => Request::CreateThread {
            url: "https://api.openai.com/v1/threads"@,
        },
        Stage::Query { assistant, thread } => Request::AddMessage {
            url: messages_url(thread),
            role: "user"@,
            content: query,
        },
        Stage::Run { assistant, thread } => Request::StartRun {
            url: runs_url(thread),
            assistant_id: assistant,
        },
        Stage::Status { thread, run } => Request::Get { url: run_url(thread, run) },
        Stage::Messages { thread } => Request::Get { url: messages_url(thread) },
    }
}

fn joined(a: &str, b: &str, c: &str) -> (r: String)
    ensures
        r@ == a@ + b@ + c@,
{
    let mut out = a.to_owned();
    out.append(b);
    out.append(c);
    out
}

/// The request of a stage.
pub fn request(stage: &Stage<String>, query: &str) -> (r: Request<String>)
    ensures
        request_view(r) == request_of(stage_view(*stage), query@),
{
    match stage {
        Stage::Assistant => Request::CreateAssistant {
            url: "https://api.openai.com/v1/assistants".to_owned(),
            model: "gpt-4o".to_owned(),
            instructions: "Answer user questions using web search.".to_owned(),
            tool: "browser".to_owned(),
        },
        Stage::Thread { assistant } => Request::CreateThread {
            url: "https://api.openai.com/v1/threads".to_owned(),
        },
        Stage::Query { assistant, thread } => Request::AddMessage {
            url: joined("https://api.openai.com/v1/threads/", thread.as_str(), "/messages"),
            role: "user".to_owned(),
            content: query.to_owned(),
        },
        Stage::Run { assistant, thread } => Request::StartRun {
            url: joined("https://api.openai.com/v1/threads/", thread.as_str(), "/runs"),
            assistant_id: assistant.clone(),
        },
        Stage::Status { thread, run } => {
            let mut url = joined("https://api.openai.com/v1/threads/", thread.as_str(), "/runs/");
            url.append(run.as_str());
            Request::Get { url }
        },
        Stage::Messages { thread } => Request::Get {
            url: joined("https://api.openai.com/v1/threads/", thread.as_str(), "/messages"),
        },
    }
}

// ---------------------------------------------------------------- responses

/// What came of a request.
pub enum Reply<S> {
    /// It could not be sent.
    NotSent(S),
    /// Its response could not be read.
    NotRead(S),
    /// Its response is these bytes, which are no text.
    Bytes(Vec<u8>),
    /// Its response is this text.
    Text(S),
}

/// A message as it is read, with its texts as sequences of characters: its role, the
/// time it was made, its first text.
pub type MessageRead = (Option<Seq<char>>, Option<i64>, Option<Seq<char>>);

/// A message as it is read: its role, the time it was made, its first text.
pub type RawMessage = (Option<String>, Option<i64>, Option<String>);

/// The messages of a list, with their texts as sequences of characters.
pub open spec fn raw_messages(v: Seq<RawMessage>) -> Seq<MessageRead> {
    v.map_values(|m: RawMessage| (text::optional(m.0), m.1, text::optional(m.2)))
}

/// The message `i` of a response: of the element `i` of its `data` the string under
/// `role`, the integer under `created_at`, and the string under `value` in the `text` of
/// the first part of its `content`.
pub open spec fn message_in(source: Seq<char>, i: int) -> MessageRead {
    (
        json::json_item_text(source, "data"@, i as usize, "role"@),
        json::json_item_signed(source, "data"@, i as usize, "created_at"@),
        json::json_part_text(source, "data"@, i as usize, "content"@, 0, "text"@, "value"@),
    )
}

/// The messages of a response: one for each element of its `data`, in the same order.
/// There are none if that is no array.
pub open spec fn messages_in(source: Seq<char>) -> Option<Seq<MessageRead>> {
    match json::json_length(source, "data"@) {
        Some(n) => Some(Seq::new(n as nat, |i: int| message_in(source, i))),
        None => None,
    }
}

/// Reads the messages of a response.
pub fn read_messages(source: &str) -> (r: Option<Vec<RawMessage>>)
    ensures
        match r {
            Some(v) => messages_in(source@) == Some(raw_messages(v@)),
            None => messages_in(source@) is None,
        },
{
    let n: usize = match json::length_at(source, "data") {
        Some(n) => n,
        None => {
            return None;
        },
    };
    let mut messages: Vec<RawMessage> = Vec::new();
    let mut i: usize = 0;
    while i < n
        invariant
            i <= n,
            messages.len() == i,
            forall|k: int|
                0 <= k < i ==> #[trigger] raw_messages(messages@)[k] == message_in(source@, k),
        decreases n - i,
    {
        let role = json::item_text_at(source, "data", i, "role");
        let made = json::item_signed_at(source, "data", i, "created_at");
        let said = json::part_text_at(source, "data", i, "content", 0, "text", "value");
        let ghost before = messages@;
        messages.push((role, made, said));
        assert forall|k: int| 0 <= k < i + 1 implies #[trigger] raw_messages(messages@)[k]
            == message_in(source@, k) by {
            if k < i {
                assert(messages@[k] == before[k]);
                assert(raw_messages(before)[k] == message_in(source@, k));
            }
        }
        i = i + 1;
    }
    assert(raw_messages(messages@) =~= messages_in(source@)->0);
    Some(messages)
}

/// What a response holds, as far as a stage reads it.
pub enum Content<S, M> {
    /// There is none: the request could not be sent, for this reason.
    NotSent(S),
    /// It could not be read, for this reason.
    NotRead(S),
    /// It is no JSON, for this reason.
    NotJson(Option<S>),
    /// Nothing is read of it.
    Ignored,
    /// The text that was looked for, if it is there.
    Text(Option<S>),
    /// The messages that were looked for, if they are there.
    Messages(Option<M>),
}

/// What a response holds, with its texts as sequences of characters.
pub open spec fn content_view(c: Content<String, Vec<RawMessage>>) -> Content<
    Seq<char>,
    Seq<MessageRead>,
> {
    match c {
        Content::NotSent(e) => Content::NotSent(e@),
        Content::NotRead(e) => Content::NotRead(e@),
        Content::NotJson(e) => Content::NotJson(text::optional(e)),
        Content::Ignored => Content::Ignored,
        Content::Text(t) => Content::Text(text::optional(t)),
        Content::Messages(m) => Content::Messages(
            match m {
                Some(v) => Some(raw_messages(v@)),
                None => None,
            },
        ),
    }
}

/// What a stage reads of a response.
pub open spec fn content_of(stage: Stage<Seq<char>>, reply: Reply<Seq<char>>) -> Content<
    Seq<char>,
    Seq<MessageRead>,
> {
    match reply {
        Reply::NotSent(e) => Content::NotSent(e),
        Reply::NotRead(e) => if stage is Query {
            Content::Ignored
        } else {
            Content::NotRead(e)
        },
        Reply::Bytes(bytes) => if stage is Query {
            Content::Ignored
        } else {
            Content::NotJson(json::json_bytes_error(bytes@))
        },
        Reply::Text(source) => if stage is Query {
            Content::Ignored
        } else {
            match json::json_error(source) {
                Some(e) => Content::NotJson(Some(e)),
                None => match stage {
                    Stage::Messages { thread } => Content::Messages(messages_in(source)),
                    Stage::Status { thread, run } => Content::Text(
                        json::json_text(source, "status"@),
                    ),
                    _ => Content::Text(json::json_text(source, "id"@)),
                },
            }
        },
    }
}

/// A reply with its text as a sequence of characters.
pub open spec fn reply_view(r: Reply<String>) -> Reply<Seq<char>> {
    match r {
        Reply::NotSent(e) => Reply::NotSent(e@),
        Reply::NotRead(e) => Reply::NotRead(e@),
        Reply::Bytes(bytes) => Reply::Bytes(bytes),
        Reply::Text(t) => Reply::Text(t@),
    }
}

/// Reads a response as a stage does.
pub fn read_reply(stage: &Stage<String>, reply: Reply<String>) -> (r: Content<
    String,
    Vec<RawMessage>,
>)
    ensures
        content_view(r) == content_of(stage_view(*stage), reply_view(reply)),
{
    let ignored = match stage {
        Stage::Query { assistant, thread } => true,
        _ => false,
    };
    match reply {
        Reply::NotSent(e) => Content::NotSent(e),
        Reply::NotRead(e) => {
            if ignored {
                Content::Ignored
            } else {
                Content::NotRead(e)
            }
        },
        Reply::Bytes(bytes) => {
            if ignored {
                Content::Ignored
            } else {
                Content::NotJson(json::bytes_error(bytes.as_slice()))
            }
        },
        Reply::Text(source) => {
            if ignored {
                return Content::Ignored;
            }
            match json::parse_error(source.as_str()) {
                Some(e) => Content::NotJson(Some(e)),
                None => match stage {
                    Stage::Messages { thread } => Content::Messages(
                        read_messages(source.as_str()),
                    ),
                    Stage::Status { thread, run } => Content::Text(
                        json::text_at(source.as_str(), "status"),
                    ),
                    _ => Content::Text(json::text_at(source.as_str(), "id")),
                },
            }
        },
    }
}

// ---------------------------------------------------------------- the course of a search

/// What is done next.
pub enum Next<S> {
    /// The request of this stage is sent.
    Send(Stage<S>),
    /// The request of this stage is sent after a second.
    SendLater(Stage<S>),
    /// The search has ended with this response.
    Found(S),
}

/// What is done next, with its texts as sequences of characters.
pub open spec fn next_view(n: Next<String>) -> Next<Seq<char>> {
    match n {
        Next::Send(s) => Next::Send(stage_view(s)),
        Next::SendLater(s) => Next::SendLater(stage_view(s)),
        Next::Found(t) => Next::Found(t@),
    }
}

/// Why a search has failed, what caused that, and what lies behind the cause.
pub struct SearchError<S> {
    pub context: S,
    pub cause: Option<S>,
    pub source: Option<S>,
}

/// What comes of a response, with its texts as sequences of characters.
pub open spec fn outcome_view(r: Result<Next<String>, SearchError<String>>) -> Result<
    Next<Seq<char>>,
    SearchError<Seq<char>>,
> {
    match r {
        Ok(next) => Ok(next_view(next)),
        Err(e) => Err(
            SearchError {
                context: e.context@,
                cause: text::optional(e.cause),
                source: text::optional(e.source),
            },
        ),
    }
}

/// What is said of a request that could not be sent.
pub open spec fn not_sent(stage: Stage<Seq<char>>) -> Seq<char> {
    match stage {
        Stage::Assistant => "Failed to create assistant"@,
        Stage::Thread { assistant } => "Failed to create thread"@,
        Stage::Query { assistant, thread } => "Failed to add message"@,
        Stage::Run { assistant, thread } => "Failed to start run"@,
        Stage::Status { thread, run } => "Failed to fetch run status"@,
        Stage::Messages { thread } => "Failed to fetch messages"@,
    }
}

/// What is said of a response that is no JSON.
pub open spec fn not_json(stage: Stage<Seq<char>>) -> Seq<char> {
    match stage {
        Stage::Assistant => "Failed to parse assistant response"@,
        Stage::Thread { assistant } => "Failed to parse thread response"@,
        Stage::Query { assistant, thread } => ""@,
        Stage::Run { assistant, thread } => "Failed to parse run response"@,
        Stage::Status { thread, run } => "Failed to parse run status"@,
        Stage::Messages { thread } => "Failed to parse messages"@,
    }
}

/// The cause where a response is no JSON.
pub open spec fn not_decoded() -> Seq<char> {
    "error decoding response body"@
}

/// What is said of a response that lacks what was looked for.
pub open spec fn not_found(stage: Stage<Seq<char>>) -> Seq<char> {
    match stage {
        Stage::Assistant => "No assistant id"@,
        Stage::Thread { assistant } => "No thread id"@,
        Stage::Run { assistant, thread } => "No run id"@,
        _ => "No messages array"@,
    }
}

/// When a message was made, 0 if that is missing.
pub open spec fn made_at(message: MessageRead) -> i64 {
    match message.1 {
        Some(time) => time,
        None => 0,
    }
}

/// The latest of the assistant's messages: the time it was made, 0 if that is missing,
/// and its text. Of messages that were made at the same time the last is the latest.
pub open spec fn latest(messages: Seq<MessageRead>) -> Option<(i64, Option<Seq<char>>)>
    decreases messages.len(),
{
    if messages.len() == 0 {
        None
    } else {
        let rest = latest(messages.drop_last());
        let m = messages.last();
        let made = made_at(m);
        if m.0 != Some("assistant"@) {
            rest
        } else {
            match rest {
                Some((time, _)) if time > made => rest,
                _ => Some((made, m.2)),
            }
        }
    }
}

/// The text of the latest of the assistant's messages. It is empty if there is none.
pub open spec fn response_text(messages: Seq<MessageRead>) -> Seq<char> {
    match latest(messages) {
        Some((_, Some(t))) => t,
        _ => seq![],
    }
}

/// What comes of a response.
pub open spec fn outcome_of(
    stage: Stage<Seq<char>>,
    content: Content<Seq<char>, Seq<MessageRead>>,
) -> Result<Next<Seq<char>>, SearchError<Seq<char>>> {
    match content {
        Content::NotSent(e) => Err(
            SearchError { context: not_sent(stage), cause: Some(e), source: None },
        ),
        Content::NotRead(e) => Err(
            SearchError { context: not_json(stage), cause: Some(e), source: None },
        ),
        Content::NotJson(e) => Err(
            SearchError { context: not_json(stage), cause: Some(not_decoded()), source: e },
        ),
        Content::Ignored => match stage {
            Stage::Query { assistant, thread } => Ok(Next::Send(Stage::Run { assistant, thread })),
            _ => Err(SearchError { context: not_found(stage), cause: None, source: None }),
        },
        Content::Messages(None) => Err(
            SearchError { context: not_found(stage), cause: None, source: None },
        ),
        Content::Messages(Some(messages)) => Ok(Next::Found(response_text(messages))),
        Content::Text(found) => match stage {
            Stage::Assistant => match found {
                Some(id) => Ok(Next::Send(Stage::Thread { assistant: id })),
                None => Err(SearchError { context: not_found(stage), cause: None, source: None }),
            },
            Stage::Thread { assistant } => match found {
                Some(id) => Ok(Next::Send(Stage::Query { assistant, thread: id })),
                None => Err(SearchError { context: not_found(stage), cause: None, source: None }),
            },
            Stage::Run { assistant, thread } => match found {
                Some(id) => Ok(Next::Send(Stage::Status { thread, run: id })),
                None => Err(SearchError { context: not_found(stage), cause: None, source: None }),
            },
            Stage::Status { thread, run } => if found == Some("completed"@) {
                Ok(Next::Send(Stage::Messages { thread }))
            } else if found == Some("failed"@) {
                Err(SearchError { context: "run failed"@, cause: None, source: None })
            } else {
                Ok(Next::SendLater(Stage::Status { thread, run }))
            },
            _ => Err(SearchError { context: not_found(stage), cause: None, source: None }),
        },
    }
}

fn response_of(messages: &Vec<RawMessage>) -> (r: String)
    ensures
        r@ == response_text(raw_messages(messages@)),
{
    let mut best: Option<(i64, usize)> = None;
    let mut i: usize = 0;
    let ghost all = raw_messages(messages@);
    assert(all.take(0) =~= seq![]);
    while i < messages.len()
        invariant
            i <= messages.len(),
            all == raw_messages(messages@),
            match best {
                Some((time, k)) => k < i && latest(all.take(i as int)) == Some(
                    (time, all[k as int].2),
                ),
                None => latest(all.take(i as int)) is None,
            },
        decreases messages.len() - i,
    {
        let m = &messages[i];
        proof {
            assert(all.take(i + 1).drop_last() =~= all.take(i as int));
            assert(all.take(i + 1).last() == all[i as int]);
            assert(all[i as int] == (text::optional(m.0), m.1, text::optional(m.2)));
        }
        let by_assistant = match &m.0 {
            Some(role) => strings::same_text(role.as_str(), "assistant"),
            None => false,
        };
        if by_assistant {
            let made: i64 = match m.1 {
                Some(time) => time,
                None => 0,
            };
            let earlier = match best {
                Some((time, _)) => time > made,
                None => false,
            };
            if !earlier {
                best = Some((made, i));
            }
        }
        i = i + 1;
    }
    assert(all.take(i as int) =~= all);
    match best {
        Some((_, k)) => {
            assert(all[k as int].2 == text::optional(messages@[k as int].2));
            match &messages[k].2 {
                Some(t) => t.clone(),
                None => String::new(),
            }
        },
        None => String::new(),
    }
}

fn not_sent_text(stage: &Stage<String>) -> (r: String)
    ensures
        r@ == not_sent(stage_view(*stage)),
{
    match stage {
        Stage::Assistant => "Failed to create assistant".to_owned(),
        Stage::Thread { assistant } => "Failed to create thread".to_owned(),
        Stage::Query { assistant, thread } => "Failed to add message".to_owned(),
        Stage::Run { assistant, thread } => "Failed to start run".to_owned(),
        Stage::Status { thread, run } => "Failed to fetch run status".to_owned(),
        Stage::Messages { thread } => "Failed to fetch messages".to_owned(),
    }
}

fn not_json_text(stage: &Stage<String>) -> (r: String)
    ensures
        r@ == not_json(stage_view(*stage)),
{
    match stage {
        Stage::Assistant => "Failed to parse assistant response".to_owned(),
        Stage::Thread { assistant } => "Failed to parse thread response".to_owned(),
        Stage::Query { assistant, thread } => "".to_owned(),
        Stage::Run { assistant, thread } => "Failed to parse run response".to_owned(),
        Stage::Status { thread, run } => "Failed to parse run status".to_owned(),
        Stage::Messages { thread } => "Failed to parse messages".to_owned(),
    }
}

fn not_found_error(stage: &Stage<String>) -> (r: SearchError<String>)
    ensures
        r.context@ == not_found(stage_view(*stage)),
        r.source is None,
        r.cause is None,
{
    let context = match stage {
        Stage::Assistant => "No assistant id".to_owned(),
        Stage::Thread { assistant } => "No thread id".to_owned(),
        Stage::Run { assistant, thread } => "No run id".to_owned(),
        _ => "No messages array".to_owned(),
    };
    SearchError { context, cause: None, source: None }
}

fn is_text(found: &Option<String>, wanted: &str) -> (r: bool)
    ensures
        r == (text::optional(*found) == Some(wanted@)),
{
    match found {
        Some(t) => strings::same_text(t.as_str(), wanted),
        None => false,
    }
}

/// What comes of a response, from what it holds.
pub fn outcome(stage: &Stage<String>, content: Content<String, Vec<RawMessage>>) -> (r: Result<
    Next<String>,
    SearchError<String>,
>)
    ensures
        outcome_view(r) == outcome_of(stage_view(*stage), content_view(content)),
{
    match content {
        Content::NotSent(e) => Err(
            SearchError { context: not_sent_text(stage), cause: Some(e), source: None },
        ),
        Content::NotRead(e) => Err(
            SearchError { context: not_json_text(stage), cause: Some(e), source: None },
        ),
        Content::NotJson(e) => Err(
            SearchError {
                context: not_json_text(stage),
                cause: Some("error decoding response body".to_owned()),
                source: e,
            },
        ),
        Content::Ignored => match stage {
            Stage::Query { assistant, thread } => Ok(
                Next::Send(Stage::Run { assistant: assistant.clone(), thread: thread.clone() }),
            ),
            _ => Err(not_found_error(stage)),
        },
        Content::Messages(None) => Err(not_found_error(stage)),
        Content::Messages(Some(messages)) => Ok(Next::Found(response_of(&messages))),
        Content::Text(found) => match stage {
            Stage::Assistant => match found {
                Some(id) => Ok(Next::Send(Stage::Thread { assistant: id })),
                None => Err(not_found_error(stage)),
            },
            Stage::Thread { assistant } => match found {
                Some(id) => Ok(
                    Next::Send(Stage::Query { assistant: assistant.clone(), thread: id }),
                ),
                None => Err(not_found_error(stage)),
            },
            Stage::Run { assistant, thread } => match found {
                Some(id) => Ok(Next::Send(Stage::Status { thread: thread.clone(), run: id })),
                None => Err(not_found_error(stage)),
            },
            Stage::Status { thread, run } => {
                if is_text(&found, "completed") {
                    Ok(Next::Send(Stage::Messages { thread: thread.clone() }))
                } else if is_text(&found, "failed") {
                    Err(SearchError { context: "run failed".to_owned(), cause: None, source: None })
                } else {
                    Ok(Next::SendLater(Stage::Status { thread: thread.clone(), run: run.clone() }))
                }
            },
            _ => Err(not_found_error(stage)),
        },
    }
}

/// Where a search begins. It takes the key of the service: without one, `missing` is why
/// there is none.
pub fn begin(missing: Option<String>) -> (r: Result<Next<String>, SearchError<String>>)
    ensures
        outcome_view(r) == (match missing {
            None => Ok(Next::Send(Stage::<Seq<char>>::Assistant)),
            Some(e) => Err(
                SearchError {
                    context: "OPENAI_API_KEY environment variable not set"@,
                    cause: Some(e@),
                    source: None,
                },
            ),
        }),
{
    match missing {
        None => Ok(Next::Send(Stage::Assistant)),
        Some(e) => Err(
            SearchError {
                context: "OPENAI_API_KEY environment variable not set".to_owned(),
                cause: Some(e),
                source: None,
            },
        ),
    }
}

/// What comes of the request of a stage.
pub fn web_search(stage: &Stage<String>, reply: Reply<String>) -> (r: Result<
    Next<String>,
    SearchError<String>,
>)
    ensures
        outcome_view(r) == outcome_of(
            stage_view(*stage),
            content_of(stage_view(*stage), reply_view(reply)),
        ),
{
    outcome(stage, read_reply(stage, reply))
}

/// The thread of a stage, once there is one.
pub open spec fn thread_of(stage: Stage<Seq<char>>) -> Option<Seq<char>> {
    match stage {
        Stage::Assistant | Stage::Thread { assistant: _ } => None,
        Stage::Query { assistant: _, thread } => Some(thread),
        Stage::Run { assistant: _, thread } => Some(thread),
        Stage::Status { thread, run: _ } => Some(thread),
        Stage::Messages { thread } => Some(thread),
    }
}

/// Once there is a thread, it stays the thread of the search.
pub proof fn thread_is_kept(
    stage: Stage<Seq<char>>,
    content: Content<Seq<char>, Seq<MessageRead>>,
)
    requires
        thread_of(stage) is Some,
    ensures
        outcome_of(stage, content) matches Ok(Next::Send(next)) ==> thread_of(next) == thread_of(
            stage,
        ),
        outcome_of(stage, content) matches Ok(Next::SendLater(next)) ==> next == stage,
{
}

/// Whether `k` is a message of the assistant that was made at `time` and says `said`.
pub open spec fn says_at(
    messages: Seq<MessageRead>,
    k: int,
    time: i64,
    said: Option<Seq<char>>,
) -> bool {
    &&& 0 <= k < messages.len()
    &&& messages[k].0 == Some("assistant"@)
    &&& made_at(messages[k]) == time
    &&& messages[k].2 == said
}

/// Where the assistant has sent a message, the response is the text of one of its
/// messages, and no message of the assistant was made after that one.
pub proof fn latest_is_latest(messages: Seq<MessageRead>, i: int)
    requires
        0 <= i < messages.len(),
        messages[i].0 == Some("assistant"@),
    ensures
        latest(messages) is Some,
        made_at(messages[i]) <= (latest(messages)->0).0,
        exists|k: int|
            #[trigger] says_at(messages, k, (latest(messages)->0).0, (latest(messages)->0).1),
        response_text(messages) == (match (latest(messages)->0).1 {
            Some(said) => said,
            None => seq![],
        }),
    decreases messages.len(),
{
    let rest = messages.drop_last();
    let n = messages.len() - 1;
    assert(messages[n] == messages.last());
    if i < n {
        assert(rest[i] == messages[i]);
        latest_is_latest(rest, i);
    }
    latest_has_a_message(messages);
}

proof fn latest_has_a_message(messages: Seq<MessageRead>)
    requires
        latest(messages) is Some,
    ensures
        exists|k: int|
            #[trigger] says_at(messages, k, (latest(messages)->0).0, (latest(messages)->0).1),
    decreases messages.len(),
{
    let rest = messages.drop_last();
    let n = messages.len() - 1;
    let (time, said) = latest(messages)->0;
    assert(messages[n] == messages.last());
    if latest(rest) is Some && latest(messages) == latest(rest) {
        latest_has_a_message(rest);
        let k = choose|k: int| #[trigger] says_at(rest, k, time, said);
        assert(messages[k] == rest[k]);
        assert(says_at(messages, k, time, said));
    } else {
        assert(says_at(messages, n, time, said));
    }
}

/// A run is asked for its status until it is completed or has failed: only then does the
/// search go on to the messages, or fail. With every other status, or none, the same is asked
/// again later.
pub proof fn runs_are_waited_for(thread: Seq<char>, run: Seq<char>, source: Seq<char>)
    requires
        json::json_error(source) is None,
    ensures
        ({
            let stage = Stage::Status { thread, run };
            let r = outcome_of(stage, content_of(stage, Reply::Text(source)));
            let status = json::json_text(source, "status"@);
            &&& status == Some("completed"@) <==> r == Ok::<
                Next<Seq<char>>,
                SearchError<Seq<char>>,
            >(Next::Send(Stage::Messages { thread }))
            &&& status == Some("failed"@) <==> r is Err
            &&& status != Some("completed"@) && status != Some("failed"@) ==> r == Ok::<
                Next<Seq<char>>,
                SearchError<Seq<char>>,
            >(Next::SendLater(stage))
            &&& r matches Err(e) ==> e.context == "run failed"@ && e.cause is None
        }),
{
    reveal_strlit("completed");
    reveal_strlit("failed");
    assert("completed"@.len() == 9);
    assert("failed"@.len() == 6);
}

/// A search creates an assistant, then a thread, then adds the query, then starts a run, and
/// hands the ids that it is given on to what follows. Without an id it fails.
pub proof fn search_goes_on_with_the_ids(
    assistant: Seq<char>,
    thread: Seq<char>,
    source: Seq<char>,
)
    requires
        json::json_error(source) is None,
    ensures
        ({
            let id = json::json_text(source, "id"@);
            let first = outcome_of(
                Stage::Assistant,
                content_of(Stage::Assistant, Reply::Text(source)),
            );
            let second = outcome_of(
                Stage::Thread { assistant },
                content_of(Stage::Thread { assistant }, Reply::Text(source)),
            );
            let third = outcome_of(
                Stage::Query { assistant, thread },
                content_of(Stage::Query { assistant, thread }, Reply::Text(source)),
            );
            let fourth = outcome_of(
                Stage::Run { assistant, thread },
                content_of(Stage::Run { assistant, thread }, Reply::Text(source)),
            );
            &&& id is None ==> first is Err && second is Err && fourth is Err
            &&& id is Some ==> (first matches Ok(Next::Send(Stage::Thread { assistant: a })) && a
                == id->0)
            &&& id is Some ==> (second matches Ok(
                Next::Send(Stage::Query { assistant: a, thread: t }),
            ) && a == assistant && t == id->0)
            &&& third matches Ok(Next::Send(Stage::Run { assistant: a, thread: t })) && a
                == assistant && t == thread
            &&& id is Some ==> (fourth matches Ok(Next::Send(Stage::Status { thread: t, run: r }))
                && t == thread && r == id->0)
        }),
{
}

/// The response to the request for the messages ends the search: with the text of the latest
/// message of the assistant, or in an error if there is no list of messages.
pub proof fn messages_end_the_search(thread: Seq<char>, source: Seq<char>)
    requires
        json::json_error(source) is None,
    ensures
        ({
            let stage = Stage::Messages { thread };
            let r = outcome_of(stage, content_of(stage, Reply::Text(source)));
            match json::json_length(source, "data"@) {
                Some(n) => r matches Ok(Next::Found(found)) && found == response_text(
                    Seq::new(
                        n as nat,
                        |i: int|
                            (
                                json::json_item_text(source, "data"@, i as usize, "role"@),
                                json::json_item_signed(source, "data"@, i as usize, "created_at"@),
                                json::json_part_text(
                                    source,
                                    "data"@,
                                    i as usize,
                                    "content"@,
                                    0,
                                    "text"@,
                                    "value"@,
                                ),
                            ),
                    ),
                ),
                None => r is Err,
            }
        }),
{
    if let Some(n) = json::json_length(source, "data"@) {
        let read = messages_in(source)->0;
        let wanted = Seq::new(
            n as nat,
            |i: int|
                (
                    json::json_item_text(source, "data"@, i as usize, "role"@),
                    json::json_item_signed(source, "data"@, i as usize, "created_at"@),
                    json::json_part_text(
                        source,
                        "data"@,
                        i as usize,
                        "content"@,
                        0,
                        "text"@,
                        "value"@,
                    ),
                ),
        );
        assert(read =~= wanted);
    }
}

/// A request that was lost ends the search in an error that says why. Of the response to the
/// query nothing is read.
pub proof fn lost_requests_end_the_search(stage: Stage<Seq<char>>, e: Seq<char>, bytes: Vec<u8>)
    ensures
        outcome_of(stage, content_of(stage, Reply::NotSent(e))) matches Err(error) && error.cause
            == Some(e),
        !(stage is Query) ==> (outcome_of(
            stage,
            content_of(stage, Reply::NotRead(e)),
        ) matches Err(error) && error.cause == Some(e)),
        !(stage is Query) ==> outcome_of(stage, content_of(stage, Reply::Bytes(bytes))) is Err,
        !(stage is Query) && json::json_error(e) is Some ==> (outcome_of(
            stage,
            content_of(stage, Reply::Text(e)),
        ) matches Err(error) && error.source == json::json_error(e)),
        stage is Query ==> outcome_of(stage, content_of(stage, Reply::NotRead(e))) is Ok
            && outcome_of(stage, content_of(stage, Reply::Bytes(bytes))) is Ok && outcome_of(
            stage,
            content_of(stage, Reply::Text(e)),
        ) is Ok,
{
}

/// A message of the assistant takes the place of the latest if it was not made before that;
/// no other message does.
pub proof fn later_messages_are_taken(messages: Seq<MessageRead>, m: MessageRead)
    ensures
        latest(Seq::<MessageRead>::empty()) is None,
        m.0 != Some("assistant"@) ==> latest(messages.push(m)) == latest(messages),
        m.0 == Some("assistant"@) && latest(messages) is None ==> latest(messages.push(m)) is Some
            && (latest(messages.push(m))->0).1 == m.2,
        m.0 == Some("assistant"@) && latest(messages) is Some && made_at(m) >= (latest(
            messages,
        )->0).0 ==> latest(messages.push(m)) == Some((made_at(m), m.2)),
        m.0 == Some("assistant"@) && latest(messages) is Some && made_at(m) < (latest(
            messages,
        )->0).0 ==> latest(messages.push(m)) == latest(messages),
        m.1 is Some ==> made_at(m) == m.1->0,
        m.1 is None ==> made_at(m) == 0,
{
    assert(messages.push(m).drop_last() =~= messages);
    assert(messages.push(m).last() == m);
}

/// The query is sent as it is, to the thread of the search; the run is one of its assistant;
/// and what is asked for is of its thread and of its run.
pub proof fn requests_are_for_the_search(
    assistant: Seq<char>,
    thread: Seq<char>,
    run: Seq<char>,
    query: Seq<char>,
)
    ensures
        request_of(Stage::Query { assistant, thread }, query) == (Request::AddMessage {
            url: "https://api.openai.com/v1/threads/"@ + thread + "/messages"@,
            role: "user"@,
            content: query,
        }),
        request_of(Stage::Run { assistant, thread }, query) == (Request::StartRun {
            url: "https://api.openai.com/v1/threads/"@ + thread + "/runs"@,
            assistant_id: assistant,
        }),
        request_of(Stage::Status { thread, run }, query) == (Request::Get {
            url: "https://api.openai.com/v1/threads/"@ + thread + "/runs/"@ + run,
        }),
        request_of(Stage::Messages { thread }, query) == (Request::Get {
            url: "https://api.openai.com/v1/threads/"@ + thread + "/messages"@,
        }),
{
}

/// A message of the assistant that none of its others comes after is what a search finds; it
/// finds nothing where the assistant has said nothing.
pub proof fn latest_message_is_found(messages: Seq<MessageRead>, m: MessageRead)
    ensures
        (forall|i: int|
            0 <= i < messages.len() ==> (#[trigger] messages[i]).0 != Some("assistant"@))
            ==> response_text(messages).len() == 0,
        m.0 == Some("assistant"@) && (forall|i: int|
            0 <= i < messages.len() && (#[trigger] messages[i]).0 == Some("assistant"@)
                ==> made_at(messages[i]) <= made_at(m)) ==> response_text(messages.push(m)) == (
        if m.2 is Some {
            m.2->0
        } else {
            seq![]
        }),
{
    assert(messages.push(m).drop_last() =~= messages);
    assert(messages.push(m).last() == m);
    if latest(messages) is Some {
        latest_has_a_message(messages);
        let (time, words) = latest(messages)->0;
        let k = choose|k: int| #[trigger] says_at(messages, k, time, words);
        assert(messages[k].0 == Some("assistant"@));
    }
}

} // verus!
