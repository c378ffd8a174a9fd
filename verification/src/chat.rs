//! The conversation of the quick assistant: what it remembers, how it takes the
//! assistant's response, and what of it is spoken.

use crate::clock;
use crate::clock::Timestamp;
use crate::programs;
use crate::speakstream;
use crate::sentences;
use crate::speakstream::{SpeakStream, SpeakStreamView};
use crate::text;
use crate::timers;
use crate::timers::Timer;
use vstd::prelude::*;

verus! {

// ---------------------------------------------------------------- messages

/// A message of the conversation.
pub enum Message<S> {
    System { content: S },
    User { content: S },
    Assistant { content: S },
    Tool { content: S },
    Function { fn_name: S, content: S },
}

/// A message with its texts as sequences of characters.
pub open spec fn message_view(m: Message<String>) -> Message<Seq<char>> {
    match m {
        Message::System { content } => Message::System { content: content@ },
        Message::User { content } => Message::User { content: content@ },
        Message::Assistant { content } => Message::Assistant { content: content@ },
        Message::Tool { content } => Message::Tool { content: content@ },
        Message::Function { fn_name, content } => Message::Function {
            fn_name: fn_name@,
            content: content@,
        },
    }
}

/// The messages of a list, with their texts as sequences of characters.
pub open spec fn message_views(v: Seq<Message<String>>) -> Seq<Message<Seq<char>>> {
    v.map_values(|m: Message<String>| message_view(m))
}

/// What the assistant is told of itself.
pub open spec fn instructions() -> Seq<char> {
    "You are a desktop voice assistant. The messages you receive from the user are voice transcriptions. Your responses will be spoken out loud by a text to speech engine. You should be helpful but concise. As conversations should be a back and forth. Don't make audio clips that run on for more than 15 seconds. Also don't ask 'if I would like to know more'. If you are told to set a timer, you should always call the \"set_timer_at\" function."@
}

/// The message that tells the assistant of a timer that has gone off.
pub fn expired_timer_message(timer: &Timer) -> (r: Message<String>)
    requires
        timer.timestamp.valid(),
    ensures
        message_view(r) == (Message::Function {
            fn_name: "check_on_timers"@,
            content: "A timer has gone off with the following details. Depending on what the timer is for, alert the user a timer at the given time has gone off, and tell them what it's time for them to do. Or take independent action accordingly.\n"@
                + timers::timer_text(timer@),
        }),
{
    let details = timers::describe_timer(timer);
    Message::Function {
        fn_name: "check_on_timers".to_owned(),
        content: programs::prefixed(
            "A timer has gone off with the following details. Depending on what the timer is for, alert the user a timer at the given time has gone off, and tell them what it's time for them to do. Or take independent action accordingly.\n",
            details.as_str(),
        ),
    }
}

/// How it went to transcribe what the user said.
pub enum Transcription<S> {
    /// It is this text.
    Text(S),
    /// It failed, with this error.
    Failed(S),
    /// It took too long, with this error.
    TimedOut(S),
}

/// What becomes of what the user said.
pub enum Heard<S> {
    /// It is a message.
    Said(Message<S>),
    /// Nothing was said.
    Nothing,
    /// This error is shown, and the sound of a failure is played.
    Failure(S),
}

/// What becomes of what the user said, with its texts as sequences of characters.
pub open spec fn heard_view(h: Heard<String>) -> Heard<Seq<char>> {
    match h {
        Heard::Said(m) => Heard::Said(message_view(m)),
        Heard::Nothing => Heard::Nothing,
        Heard::Failure(s) => Heard::Failure(s@),
    }
}

/// What becomes of what the user said.
pub fn heard(transcription: Transcription<String>) -> (r: Heard<String>)
    ensures
        heard_view(r) == (match transcription {
            Transcription::Text(t) => if t@.len() == 0 {
                Heard::Nothing
            } else {
                Heard::Said(Message::User { content: t@ })
            },
            Transcription::Failed(e) => Heard::Failure("Failed to transcribe audio: "@ + e@),
            Transcription::TimedOut(e) => Heard::Failure(
                "Failed to transcribe audio due to timeout: "@ + e@,
            ),
        }),
        r is Nothing <==> (transcription matches Transcription::Text(t) && t@.len() == 0),
        r is Failure <==> !(transcription is Text),
        transcription matches Transcription::Text(t) && t@.len() > 0 ==> heard_view(r)
            == Heard::Said(Message::User { content: transcription->Text_0@ }),
{
    match transcription {
        Transcription::Text(t) => {
            if t.as_str().is_empty() {
                Heard::Nothing
            } else {
                Heard::Said(Message::User { content: t })
            }
        },
        Transcription::Failed(e) => Heard::Failure(
            programs::prefixed("Failed to transcribe audio: ", e.as_str()),
        ),
        Transcription::TimedOut(e) => Heard::Failure(
            programs::prefixed("Failed to transcribe audio due to timeout: ", e.as_str()),
        ),
    }
}

/// How a request to the assistant was lost.
pub enum RequestFailure<S> {
    /// The stream of the response could not be opened.
    NoStream(S),
    /// It took too long to open the stream of the response.
    StreamTimeout(S),
    /// It took too long until more of the response came.
    ResponseTimeout(S),
}

/// A failure with its text as a sequence of characters.
pub open spec fn failure_view(failure: RequestFailure<String>) -> RequestFailure<Seq<char>> {
    match failure {
        RequestFailure::NoStream(e) => RequestFailure::NoStream(e@),
        RequestFailure::StreamTimeout(e) => RequestFailure::StreamTimeout(e@),
        RequestFailure::ResponseTimeout(e) => RequestFailure::ResponseTimeout(e@),
    }
}

/// The error that is shown when a request was lost.
pub fn request_failure(failure: &RequestFailure<String>) -> (r: String)
    ensures
        r@ == failure_text(failure_view(*failure)),
{
    match failure {
        RequestFailure::NoStream(e) => programs::prefixed("Failed to create stream: ", e.as_str()),
        RequestFailure::StreamTimeout(e) => programs::prefixed(
            "Failed to create stream due to timeout: ",
            e.as_str(),
        ),
        RequestFailure::ResponseTimeout(e) => programs::prefixed(
            "Failed to get response from AI due to timeout: ",
            e.as_str(),
        ),
    }
}

/// The text of the error that is shown when a request was lost.
pub open spec fn failure_text(failure: RequestFailure<Seq<char>>) -> Seq<char> {
    match failure {
        RequestFailure::NoStream(e) => "Failed to create stream: "@ + e,
        RequestFailure::StreamTimeout(e) => "Failed to create stream due to timeout: "@ + e,
        RequestFailure::ResponseTimeout(e) => "Failed to get response from AI due to timeout: "@
            + e,
    }
}

/// What has come of a request to the assistant by now.
pub enum ResponseEvent<S> {
    /// It was lost.
    Lost(RequestFailure<S>),
    /// The response has ended.
    Ended,
    /// More of the response has come.
    More,
    /// The service has refused the conversation.
    Refused,
}

/// An event with its text as a sequence of characters.
pub open spec fn event_view(event: ResponseEvent<String>) -> ResponseEvent<Seq<char>> {
    match event {
        ResponseEvent::Lost(failure) => ResponseEvent::Lost(failure_view(failure)),
        ResponseEvent::Ended => ResponseEvent::Ended,
        ResponseEvent::More => ResponseEvent::More,
        ResponseEvent::Refused => ResponseEvent::Refused,
    }
}

/// What is done about a request to the assistant.
pub enum RequestStep<S> {
    /// The parts of the response that have come are taken, and more of it is waited for.
    TakeChoices,
    /// The assistant is asked again. It is told how many messages are remembered, if one
    /// was forgotten.
    Again { left: Option<usize> },
    /// The request is over. If it was lost, this error is shown.
    Over { error: Option<S> },
}

/// A step with its text as a sequence of characters.
pub open spec fn request_step_view(step: RequestStep<String>) -> RequestStep<Seq<char>> {
    match step {
        RequestStep::TakeChoices => RequestStep::TakeChoices,
        RequestStep::Again { left } => RequestStep::Again { left },
        RequestStep::Over { error } => RequestStep::Over { error: text::optional(error) },
    }
}

/// Whether the user's wish to stop is heeded: it is as soon as something comes of the
/// response.
pub open spec fn is_stopped<S>(event: ResponseEvent<S>, should_stop: bool) -> bool {
    should_stop && (event is More || event is Refused)
}

// ---------------------------------------------------------------- code blocks

/// Where a response is with regard to its code blocks.
#[verifier::ext_equal]
pub struct CodeBlocks {
    /// Whether it is inside a code block.
    pub inside: bool,
    /// The number of the line on which a code block last began or ended.
    pub last_fence: Option<usize>,
    /// The number of the next code block, by which it is spoken of.
    pub figure_number: u32,
}

/// Whether a line opens a code block.
pub open spec fn opens(line: Seq<char>) -> bool {
    text::occurs_at(line, "```"@, 0)
}

/// Whether a line closes a code block.
pub open spec fn closes(line: Seq<char>) -> bool {
    text::occurs_at(line, "```"@, line.len() - "```"@.len())
}

/// Where a response is after its last line that is not empty, and whether a code block
/// begins there. Each line is looked at until it opens or closes a code block.
pub open spec fn line_seen(b: CodeBlocks, n: int, line: Seq<char>) -> (CodeBlocks, bool) {
    if b.last_fence == Some(n as usize) {
        (b, false)
    } else if !b.inside && opens(line) {
        (
            CodeBlocks {
                inside: true,
                last_fence: Some(n as usize),
                figure_number: (b.figure_number + 1) as u32,
            },
            true,
        )
    } else if b.inside && closes(line) {
        (CodeBlocks { inside: false, last_fence: Some(n as usize), ..b }, false)
    } else {
        (b, false)
    }
}

/// Where a response is, and whether a code block has begun there.
pub open spec fn content_seen(b: CodeBlocks, content: Seq<char>) -> (CodeBlocks, bool) {
    match text::last_filled(text::lines(content)) {
        Some((n, line)) => line_seen(b, n, line),
        None => (b, false),
    }
}

/// What is said in place of a code block.
pub open spec fn see_figure(number: nat) -> Seq<char> {
    ". See figure "@ + text::decimal(number) + "... "@
}

/// Speech after the text that is left in it became its last sentence.
pub open spec fn completed(speech: SpeakStreamView) -> SpeakStreamView {
    SpeakStreamView {
        buffer: seq![],
        texts: speech.texts + sentences::sentence_of(speech.buffer),
        ..speech
    }
}

/// Speech after some more of a response has come: a code block is not spoken, but that
/// it is there is.
pub open spec fn spoken(
    speech: SpeakStreamView,
    before: CodeBlocks,
    after: CodeBlocks,
    begins: bool,
    more: Seq<char>,
) -> SpeakStreamView {
    let told = if begins {
        completed(speakstream::token_added(speech, see_figure(before.figure_number as nat)))
    } else {
        speech
    };
    if after.inside {
        told
    } else {
        speakstream::token_added(told, more)
    }
}

impl CodeBlocks {
    /// A response that has not begun.
    pub fn new() -> (r: Self)
        ensures
            r == (CodeBlocks { inside: false, last_fence: None, figure_number: 1 }),
    {
        CodeBlocks { inside: false, last_fence: None, figure_number: 1 }
    }

    /// Looks at the last line of the response so far that is not empty. Returns whether
    /// a code block begins there.
    pub fn see(&mut self, content: &str) -> (r: bool)
        requires
            old(self).figure_number < u32::MAX,
        ensures
            (*final(self), r) == content_seen(*old(self), content@),
    {
        let chars = text::chars_of(content);
        match text::last_filled_line(&chars) {
            None => false,
            Some((n, from, to)) => {
                let seen = match self.last_fence {
                    Some(last) => last == n,
                    None => false,
                };
                if seen {
                    return false;
                }
                let line = text::text_of(&chars, from, to);
                let line_chars = text::chars_of(line.as_str());
                let fence = text::chars_of("```");
                if !self.inside {
                    if text::matches_at(&line_chars, &fence, 0) {
                        self.inside = true;
                        self.last_fence = Some(n);
                        self.figure_number = self.figure_number + 1;
                        return true;
                    }
                } else if line_chars.len() >= fence.len() {
                    if text::matches_at(&line_chars, &fence, line_chars.len() - fence.len()) {
                        self.inside = false;
                        self.last_fence = Some(n);
                    }
                }
                false
            },
        }
    }
}

/// What comes inside a code block is not spoken.
pub proof fn code_is_not_spoken(
    speech: SpeakStreamView,
    b: CodeBlocks,
    content: Seq<char>,
    more: Seq<char>,
)
    requires
        b.inside,
        content_seen(b, content).0.inside,
    ensures
        spoken(speech, b, content_seen(b, content).0, content_seen(b, content).1, more) == speech,
{
}

/// What comes outside a code block is spoken.
pub proof fn text_is_spoken(
    speech: SpeakStreamView,
    b: CodeBlocks,
    content: Seq<char>,
    more: Seq<char>,
)
    requires
        !content_seen(b, content).0.inside,
    ensures
        spoken(speech, b, content_seen(b, content).0, content_seen(b, content).1, more)
            == speakstream::token_added(speech, more),
{
}

// ---------------------------------------------------------------- the conversation

/// How a part of a response ends.
#[derive(Clone, Copy, Debug, PartialEq, Eq, Structural)]
pub enum Finish {
    /// It does not end.
    No,
    /// A function is called.
    FunctionCall,
    /// It ends in another way.
    Otherwise,
}

/// A part of a response.
pub struct Choice<S> {
    /// The name of the function that is called.
    pub fn_name: Option<S>,
    /// More of the arguments of the call.
    pub fn_args: Option<S>,
    pub finish: Finish,
    /// More of the text.
    pub content: Option<S>,
}

/// A part of a response, with its texts as sequences of characters.
pub open spec fn choice_view(c: Choice<String>) -> Choice<Seq<char>> {
    Choice {
        fn_name: text::optional(c.fn_name),
        fn_args: text::optional(c.fn_args),
        finish: c.finish,
        content: text::optional(c.content),
    }
}

/// What is done about a part of a response.
#[derive(Clone, Copy, Debug, PartialEq, Eq, Structural)]
pub enum ChoiceStep {
    /// The function is called.
    Call,
    /// The text is printed, after the label of the assistant if `label`.
    Print { label: bool },
    /// Nothing is done.
    Nothing,
}

/// The conversation, and the response that is being received.
pub struct Conversation {
    history: Vec<Message<String>>,
    displayed_ai_label: bool,
    ai_content: String,
    fn_name: String,
    fn_args: String,
    blocks: CodeBlocks,
}

/// What a `Conversation` holds.
#[verifier::ext_equal]
pub struct ConversationView {
    /// What was said so far.
    pub history: Seq<Message<Seq<char>>>,
    /// Whether the label of the assistant was printed since a message came.
    pub displayed_ai_label: bool,
    /// The text of the response so far.
    pub ai_content: Seq<char>,
    /// The function that the response calls.
    pub fn_name: Seq<char>,
    /// The arguments of the call so far.
    pub fn_args: Seq<char>,
    pub blocks: CodeBlocks,
}

impl View for Conversation {
    type V = ConversationView;

    closed spec fn view(&self) -> ConversationView {
        ConversationView {
            history: message_views(self.history@),
            displayed_ai_label: self.displayed_ai_label,
            ai_content: self.ai_content@,
            fn_name: self.fn_name@,
            fn_args: self.fn_args@,
            blocks: self.blocks,
        }
    }
}

/// A conversation with no response yet to what was said.
pub open spec fn asked(c: ConversationView) -> ConversationView {
    ConversationView {
        ai_content: seq![],
        fn_name: seq![],
        fn_args: seq![],
        blocks: CodeBlocks { inside: false, last_fence: None, figure_number: 1 },
        ..c
    }
}

/// A conversation after the service has refused it: the oldest message but the first is
/// forgotten.
pub open spec fn refused(c: ConversationView) -> ConversationView {
    asked(
        ConversationView {
            history: if c.history.len() > 1 {
                c.history.remove(1)
            } else {
                c.history
            },
            ..c
        },
    )
}

/// A conversation after a response: what the assistant said is remembered.
pub open spec fn answered(c: ConversationView) -> ConversationView {
    said(c, Message::Assistant { content: c.ai_content })
}

/// A conversation after an event of a request.
pub open spec fn after_event<S>(
    c: ConversationView,
    event: ResponseEvent<S>,
    should_stop: bool,
) -> ConversationView {
    if is_stopped(event, should_stop) {
        answered(c)
    } else {
        match event {
            ResponseEvent::Ended => answered(c),
            ResponseEvent::Refused => refused(c),
            ResponseEvent::Lost(_) | ResponseEvent::More => c,
        }
    }
}

/// What is done about a request after an event.
pub open spec fn step_after(
    c: ConversationView,
    event: ResponseEvent<Seq<char>>,
    should_stop: bool,
) -> RequestStep<Seq<char>> {
    if is_stopped(event, should_stop) {
        RequestStep::Over { error: None }
    } else {
        match event {
            ResponseEvent::Lost(failure) => RequestStep::Over {
                error: Some(failure_text(failure)),
            },
            ResponseEvent::Ended => RequestStep::Over { error: None },
            ResponseEvent::More => RequestStep::TakeChoices,
            ResponseEvent::Refused => RequestStep::Again {
                left: if c.history.len() > 1 {
                    Some((c.history.len() - 1) as usize)
                } else {
                    None
                },
            },
        }
    }
}

/// A conversation in which something more was said.
pub open spec fn said(c: ConversationView, m: Message<Seq<char>>) -> ConversationView {
    ConversationView { history: c.history.push(m), ..c }
}

/// What the user said, with the time at which they did.
pub open spec fn with_time(m: Message<Seq<char>>, time: Seq<char>) -> Message<Seq<char>> {
    match m {
        Message::User { content } => Message::User {
            content: "Local Time: "@ + time + "\n"@ + content,
        },
        _ => m,
    }
}

/// A text, and more of it if there is more.
pub open spec fn followed_by(s: Seq<char>, more: Option<Seq<char>>) -> Seq<char> {
    match more {
        Some(m) => s + m,
        None => s,
    }
}

/// A conversation after a part of a call has come.
pub open spec fn call_taken(c: ConversationView, choice: Choice<Seq<char>>) -> ConversationView {
    ConversationView {
        fn_name: match choice.fn_name {
            Some(name) => name,
            None => c.fn_name,
        },
        fn_args: followed_by(c.fn_args, choice.fn_args),
        ..c
    }
}

/// A conversation after more of the text of a response has come.
pub open spec fn text_taken(c: ConversationView, more: Seq<char>) -> ConversationView {
    ConversationView {
        displayed_ai_label: true,
        ai_content: c.ai_content + more,
        blocks: content_seen(c.blocks, c.ai_content + more).0,
        ..c
    }
}

/// A conversation after a part of a response has come.
pub open spec fn choice_taken(c: ConversationView, choice: Choice<Seq<char>>) -> ConversationView {
    match choice.content {
        Some(more) if choice.finish is No => text_taken(call_taken(c, choice), more),
        _ => call_taken(c, choice),
    }
}

/// Speech after a part of a response has come.
pub open spec fn choice_spoken(
    speech: SpeakStreamView,
    c: ConversationView,
    choice: Choice<Seq<char>>,
) -> SpeakStreamView {
    match choice.content {
        Some(more) if choice.finish is No => {
            let (after, begins) = content_seen(c.blocks, c.ai_content + more);
            spoken(speech, c.blocks, after, begins, more)
        },
        _ => speech,
    }
}

fn copy_text(s: &Option<String>) -> (r: Option<String>)
    ensures
        text::optional(r) == text::optional(*s),
{
    match s {
        Some(t) => Some(t.clone()),
        None => None,
    }
}

impl Conversation {
    /// Whether the assistant knows what it is.
    pub open spec fn well_formed(&self) -> bool {
        self@.history.len() > 0 && self@.history[0] == (Message::System {
            content: instructions(),
        })
    }

    /// A conversation in which nothing was said.
    pub fn new() -> (r: Self)
        ensures
            r.well_formed(),
            r@ == (ConversationView {
                history: seq![Message::System { content: instructions() }],
                displayed_ai_label: false,
                ai_content: seq![],
                fn_name: seq![],
                fn_args: seq![],
                blocks: CodeBlocks { inside: false, last_fence: None, figure_number: 1 },
            }),
    {
        let first: Message<String> = Message::System {
            content: "You are a desktop voice assistant. The messages you receive from the user are voice transcriptions. Your responses will be spoken out loud by a text to speech engine. You should be helpful but concise. As conversations should be a back and forth. Don't make audio clips that run on for more than 15 seconds. Also don't ask 'if I would like to know more'. If you are told to set a timer, you should always call the \"set_timer_at\" function.".to_owned(),
        };
        let mut history: Vec<Message<String>> = Vec::new();
        history.push(first);
        let r = Conversation {
            history,
            displayed_ai_label: false,
            ai_content: String::new(),
            fn_name: String::new(),
            fn_args: String::new(),
            blocks: CodeBlocks::new(),
        };
        proof {
            let wanted: Seq<Message<Seq<char>>> = seq![Message::System { content: instructions() }];
            assert(r@.history =~= wanted);
            assert(r@.ai_content =~= seq![]);
        }
        r
    }

    fn push(&mut self, m: Message<String>)
        ensures
            final(self)@ == said(old(self)@, message_view(m)),
    {
        let ghost before = self.history@;
        self.history.push(m);
        assert(message_views(self.history@) =~= message_views(before).push(message_view(m)));
        assert(self@ =~= said(old(self)@, message_view(m)));
    }

    /// What was said so far.
    pub fn history(&self) -> (r: &Vec<Message<String>>)
        ensures
            message_views(r@) == self@.history,
    {
        &self.history
    }

    /// The function that the response calls, and the arguments of the call.
    pub fn call(&self) -> (r: (String, String))
        ensures
            r.0@ == self@.fn_name,
            r.1@ == self@.fn_args,
    {
        (self.fn_name.clone(), self.fn_args.clone())
    }

    /// The number of the next code block of the response.
    pub fn figure_number(&self) -> (r: u32)
        ensures
            r == self@.blocks.figure_number,
    {
        self.blocks.figure_number
    }

    /// Begins to wait for a response to what was said.
    pub fn start_request(&mut self)
        ensures
            final(self)@ == asked(old(self)@),
    {
        self.ai_content = String::new();
        self.fn_name = String::new();
        self.fn_args = String::new();
        self.blocks = CodeBlocks::new();
        assert(self@ =~= asked(old(self)@));
    }

    /// Takes a message. A message of the user is given the time, as it is shown.
    pub fn receive_at(&mut self, message: Message<String>, time: &str)
        requires
            old(self).well_formed(),
        ensures
            final(self).well_formed(),
            final(self)@ == (ConversationView {
                displayed_ai_label: false,
                ..said(old(self)@, with_time(message_view(message), time@))
            }),
    {
        let timed = match message {
            Message::User { content } => {
                let mut timed_content = "Local Time: ".to_owned();
                timed_content.append(time);
                timed_content.append("\n");
                timed_content.append(content.as_str());
                Message::User { content: timed_content }
            },
            other => other,
        };
        self.push(timed);
        self.displayed_ai_label = false;
    }

    /// Takes a message. A message of the user is given the time.
    pub fn receive(&mut self, message: Message<String>, now: &Timestamp)
        requires
            old(self).well_formed(),
            now.valid(),
        ensures
            final(self).well_formed(),
            final(self)@ == (ConversationView {
                displayed_ai_label: false,
                ..said(
                    old(self)@,
                    with_time(
                        message_view(message),
                        clock::shown_time(now.seconds, now.nanos, now.offset),
                    ),
                )
            }),
    {
        let time = clock::show_time(now);
        self.receive_at(message, time.as_str());
    }

    /// Takes a message. A message of the user is given the present time.
    pub fn receive_now(&mut self, message: Message<String>)
        requires
            old(self).well_formed(),
        ensures
            final(self).well_formed(),
            exists|now: Timestamp| #[trigger]
                now.valid() && final(self)@ == (ConversationView {
                    displayed_ai_label: false,
                    ..said(
                        old(self)@,
                        with_time(
                            message_view(message),
                            clock::shown_time(now.seconds, now.nanos, now.offset),
                        ),
                    )
                }),
    {
        let now = clock::local_now();
        self.receive(message, &now);
    }

    /// Takes a part of a response.
    pub fn take_choice(&mut self, speech: &mut SpeakStream, choice: &Choice<String>) -> (r:
        ChoiceStep)
        requires
            old(self).well_formed(),
            old(speech).well_formed(),
            old(self)@.blocks.figure_number < u32::MAX,
        ensures
            final(self).well_formed(),
            final(speech).well_formed(),
            final(self)@ == choice_taken(old(self)@, choice_view(*choice)),
            final(speech)@ == choice_spoken(old(speech)@, old(self)@, choice_view(*choice)),
            r == (match choice.finish {
                Finish::FunctionCall => ChoiceStep::Call,
                Finish::Otherwise => ChoiceStep::Nothing,
                Finish::No => if choice.content is Some {
                    ChoiceStep::Print { label: !old(self)@.displayed_ai_label }
                } else {
                    ChoiceStep::Nothing
                },
            }),
            r is Call <==> choice.finish is FunctionCall,
            r is Print <==> choice.finish is No && choice.content is Some,
            r matches ChoiceStep::Print { label } ==> label != old(self)@.displayed_ai_label
                && final(self)@.displayed_ai_label,
    {
        if let Some(name) = copy_text(&choice.fn_name) {
            self.fn_name = name;
        }
        if let Some(args) = &choice.fn_args {
            self.fn_args.append(args.as_str());
        }
        let ghost called = self@;
        assert(called =~= call_taken(old(self)@, choice_view(*choice)));
        match choice.finish {
            Finish::FunctionCall => ChoiceStep::Call,
            Finish::Otherwise => ChoiceStep::Nothing,
            Finish::No => match &choice.content {
                None => ChoiceStep::Nothing,
                Some(more) => {
                    let label = !self.displayed_ai_label;
                    self.displayed_ai_label = true;
                    self.ai_content.append(more.as_str());
                    let figure = self.blocks.figure_number;
                    let begins = self.blocks.see(self.ai_content.as_str());
                    assert(self@ =~= text_taken(called, more@));
                    if begins {
                        let mut told = ". See figure ".to_owned();
                        told.append(text::decimal_text(figure as u64).as_str());
                        told.append("... ");
                        speech.add_token(told.as_str());
                        speech.complete_sentence();
                    }
                    if !self.blocks.inside {
                        speech.add_token(more.as_str());
                    }
                    ChoiceStep::Print { label }
                },
            },
        }
    }

    /// Takes the answer to the call of a function. With an answer the assistant is
    /// asked again. Returns whether it is.
    pub fn call_answered(&mut self, answer: Option<String>) -> (r: bool)
        requires
            old(self).well_formed(),
        ensures
            final(self).well_formed(),
            r == answer is Some,
            final(self)@ == (match answer {
                Some(content) => asked(
                    said(
                        old(self)@,
                        Message::Function { fn_name: old(self)@.fn_name, content: content@ },
                    ),
                ),
                None => old(self)@,
            }),
            final(self)@.history.len() == old(self)@.history.len() + (if r {
                1int
            } else {
                0int
            }),
            old(self)@.history.is_prefix_of(final(self)@.history),
            r ==> final(self)@.ai_content.len() == 0 && final(self)@.fn_name.len() == 0
                && final(self)@.fn_args.len() == 0,
    {
        match answer {
            Some(content) => {
                let fn_name = self.fn_name.clone();
                self.push(Message::Function { fn_name, content });
                self.start_request();
                true
            },
            None => false,
        }
    }

    /// Takes that the response has ended, or that the user has stopped it: what the
    /// assistant said so far is remembered.
    pub fn response_ended(&mut self)
        requires
            old(self).well_formed(),
        ensures
            final(self).well_formed(),
            final(self)@ == answered(old(self)@),
    {
        let content = self.ai_content.clone();
        self.push(Message::Assistant { content });
    }

    /// Takes that the service has refused the conversation: the oldest message but the
    /// first is forgotten, and the assistant is asked again. Returns how many messages
    /// are remembered, if one was forgotten.
    pub fn response_failed(&mut self) -> (r: Option<usize>)
        requires
            old(self).well_formed(),
        ensures
            final(self).well_formed(),
            final(self)@ == refused(old(self)@),
            r is Some <==> old(self)@.history.len() > 1,
            r matches Some(n) ==> n == final(self)@.history.len(),
    {
        let ghost before = self.history@;
        let mut left: Option<usize> = None;
        if self.history.len() > 1 {
            self.history.remove(1);
            assert(message_views(self.history@) =~= message_views(before).remove(1));
            left = Some(self.history.len());
        }
        self.start_request();
        left
    }

    /// Takes what has come of a request to the assistant. The user's wish to stop is
    /// forgotten once it is heeded: what the assistant said so far is remembered, and the
    /// request is over. Returns what is done about the request.
    pub fn request_step(
        &mut self,
        event: ResponseEvent<String>,
        should_stop: &mut bool,
    ) -> (r: RequestStep<String>)
        requires
            old(self).well_formed(),
        ensures
            final(self).well_formed(),
            final(self)@ == after_event(old(self)@, event, *old(should_stop)),
            *final(should_stop) == (*old(should_stop) && !is_stopped(event, *old(should_stop))),
            request_step_view(r) == step_after(old(self)@, event_view(event), *old(should_stop)),
            event is Lost || event is Ended ==> *final(should_stop) == *old(should_stop),
            event is More || event is Refused ==> !*final(should_stop),
            *old(should_stop) && (event is More || event is Refused) ==> final(self)@.history
                == old(self)@.history.push(Message::Assistant { content: old(self)@.ai_content }),
            r is TakeChoices ==> final(self)@ == old(self)@,
            (r matches RequestStep::Again { left } && left is Some) ==> (r matches RequestStep::Again {
                left,
            } && left->0 == final(self)@.history.len() && final(self)@.history.len()
                == old(self)@.history.len() - 1),
            (r matches RequestStep::Again { left } && left is None) ==> final(self)@.history
                == old(self)@.history,
            (r matches RequestStep::Over { error } && error is Some) <==> event is Lost,
    {
        match event {
            ResponseEvent::Lost(failure) => RequestStep::Over {
                error: Some(request_failure(&failure)),
            },
            ResponseEvent::Ended => {
                self.response_ended();
                RequestStep::Over { error: None }
            },
            ResponseEvent::More => {
                if *should_stop {
                    *should_stop = false;
                    self.response_ended();
                    RequestStep::Over { error: None }
                } else {
                    RequestStep::TakeChoices
                }
            },
            ResponseEvent::Refused => {
                if *should_stop {
                    *should_stop = false;
                    self.response_ended();
                    RequestStep::Over { error: None }
                } else {
                    RequestStep::Again { left: self.response_failed() }
                }
            },
        }
    }
}

/// A request is over after every event but two: more of the response, and a refusal, after
/// which the assistant is asked again. Once the user wants to stop, it is over after any.
pub proof fn requests_end(
    c: ConversationView,
    event: ResponseEvent<Seq<char>>,
    should_stop: bool,
)
    ensures
        step_after(c, event, should_stop) is Over <==> should_stop || event is Lost
            || event is Ended,
        step_after(c, event, should_stop) is Again <==> !should_stop && event is Refused,
        step_after(c, event, true) is Over,
{
}

/// What a response says is its parts, put together.
pub open spec fn text_of_choices(choices: Seq<Choice<Seq<char>>>) -> Seq<char>
    decreases choices.len(),
{
    if choices.len() == 0 {
        seq![]
    } else {
        let rest = text_of_choices(choices.drop_last());
        if choices.last().finish is No {
            followed_by(rest, choices.last().content)
        } else {
            rest
        }
    }
}

/// A conversation after some parts of a response have come.
pub open spec fn choices_taken(c: ConversationView, choices: Seq<Choice<Seq<char>>>) ->
    ConversationView
    decreases choices.len(),
{
    if choices.len() == 0 {
        c
    } else {
        choice_taken(choices_taken(c, choices.drop_last()), choices.last())
    }
}

/// What is remembered of a response is all its text, in order, with code blocks, and
/// nothing else that was said changes while it comes.
pub proof fn response_is_remembered(c: ConversationView, choices: Seq<Choice<Seq<char>>>)
    ensures
        choices_taken(asked(c), choices).ai_content == text_of_choices(choices),
        choices_taken(asked(c), choices).history == c.history,
    decreases choices.len(),
{
    if choices.len() > 0 {
        response_is_remembered(c, choices.drop_last());
    }
}

// ---------------------------------------------------------------- laws of whole responses

/// The tokens of a response, put together.
pub open spec fn put_together(tokens: Seq<Seq<char>>) -> Seq<char>
    decreases tokens.len(),
{
    if tokens.len() == 0 {
        seq![]
    } else {
        put_together(tokens.drop_last()) + tokens.last()
    }
}

/// A part of a response that is a token of its text.
pub open spec fn token_part(token: Seq<char>) -> Choice<Seq<char>> {
    Choice { fn_name: None, fn_args: None, finish: Finish::No, content: Some(token) }
}

/// A conversation after some tokens of a response have come, one after the other.
pub open spec fn streamed(c: ConversationView, tokens: Seq<Seq<char>>) -> ConversationView
    decreases tokens.len(),
{
    if tokens.len() == 0 {
        c
    } else {
        choice_taken(streamed(c, tokens.drop_last()), token_part(tokens.last()))
    }
}

/// Speech after some tokens of a response have come, one after the other.
pub open spec fn voiced(
    speech: SpeakStreamView,
    c: ConversationView,
    tokens: Seq<Seq<char>>,
) -> SpeakStreamView
    decreases tokens.len(),
{
    if tokens.len() == 0 {
        speech
    } else {
        choice_spoken(
            voiced(speech, c, tokens.drop_last()),
            streamed(c, tokens.drop_last()),
            token_part(tokens.last()),
        )
    }
}

/// Whether three backticks in a row are nowhere in a text.
pub open spec fn no_fence(s: Seq<char>) -> bool {
    forall|i: int|
        0 <= i && i + 2 < s.len() ==> !(#[trigger] s[i] == '`' && s[i + 1] == '`' && s[i + 2]
            == '`')
}

/// Whether a text starts with three backticks.
pub open spec fn starts_with_fence(s: Seq<char>) -> bool {
    s.len() >= 3 && s[0] == '`' && s[1] == '`' && s[2] == '`'
}

/// Whether a text ends in three backticks.
pub open spec fn ends_in_fence(s: Seq<char>) -> bool {
    s.len() >= 3 && s[s.len() - 1] == '`' && s[s.len() - 2] == '`' && s[s.len() - 3] == '`'
}

/// Whether a backtick stands at `p`, on line `m`.
pub open spec fn backtick_at(content: Seq<char>, p: int, m: nat) -> bool {
    0 <= p < content.len() && content[p] == '`' && text::line_feeds(content.take(p)) == m
}

/// Whether the line on which a code block last began or ended has a backtick; without such
/// a line the response is outside of all code blocks.
pub open spec fn fence_is_there(b: CodeBlocks, content: Seq<char>) -> bool {
    match b.last_fence {
        Some(m) => exists|p: int| #[trigger] backtick_at(content, p, m as nat),
        None => !b.inside,
    }
}

/// Whether `old` is a response up to and with the line on which a code block last began or
/// ended, or a response that ends on that line.
pub open spec fn settled(b: CodeBlocks, old: Seq<char>, body: Seq<char>) -> bool {
    match b.last_fence {
        Some(m) => text::whole_lines(old) && text::line_feeds(old) == m + 1 || body.len() == 0
            && text::line_feeds(old) == m,
        None => old.len() == 0,
    }
}

proof fn fences_are_backticks(line: Seq<char>)
    ensures
        opens(line) <==> starts_with_fence(line),
        closes(line) <==> ends_in_fence(line),
{
    reveal_strlit("```");
    let fence = "```"@;
    assert(fence =~= seq!['`', '`', '`']);
    if line.len() >= 3 {
        let head = line.subrange(0, 3);
        let tail = line.subrange(line.len() - 3, line.len() as int);
        assert(starts_with_fence(line) ==> head =~= fence);
        assert(ends_in_fence(line) ==> tail =~= fence);
        assert(head == fence ==> head[0] == '`' && head[1] == '`' && head[2] == '`');
        assert(tail == fence ==> tail[0] == '`' && tail[1] == '`' && tail[2] == '`');
    }
}

proof fn line_of_no_fence(s: Seq<char>, n: int)
    requires
        no_fence(s),
        0 <= n < text::lines(s).len(),
    ensures
        !opens(text::lines(s)[n]),
        !closes(text::lines(s)[n]),
{
    let line = text::lines(s)[n];
    let j = text::line_is_part(s, n);
    fences_are_backticks(line);
    if starts_with_fence(line) {
        assert(s[j] == line[0] && s[j + 1] == line[1] && s[j + 2] == line[2]);
    }
    if ends_in_fence(line) {
        let k = j + line.len() - 3;
        assert(s[k] == line[line.len() - 3]);
        assert(s[k + 1] == line[line.len() - 2] && s[k + 2] == line[line.len() - 1]);
    }
}

proof fn backtick_is_filled(s: Seq<char>, p: int, m: nat)
    requires
        backtick_at(s, p, m),
    ensures
        text::last_filled(text::lines(s)) is Some,
        (text::last_filled(text::lines(s))->0).0 >= m,
{
    let a = line_start(s, p);
    let (old, rest) = (s.take(a), s.skip(a));
    assert(s =~= old + rest);
    text::lines_join(old, rest);
    text::lines_are_counted(old);
    text::last_filled_join(text::lines(old), text::lines(rest));
    assert(s.take(p) =~= old + s.subrange(a, p));
    text::line_feeds_add(old, s.subrange(a, p));
    text::within_line_has_none(s.subrange(a, p));
    assert(rest[p - a] == '`');
    text::line_feed_bounds(rest);
    let k = text::line_feed(rest);
    assert(k > p - a) by {
        if k <= p - a {
            if k == p - a {
                assert(rest[k] == '\n');
            } else {
                assert(s.subrange(a, p)[k] != '\n');
                assert(rest[k] == s.subrange(a, p)[k]);
            }
        }
    }
    let first = text::lines(rest)[0];
    if k == rest.len() {
        assert(first == rest);
    } else {
        let line = rest.take(k);
        assert(line[p - a] == '`');
        assert(first == text::without_return(line));
        if line.len() == 1 {
            assert(line.last() == '`');
        }
    }
    assert(first.len() > 0);
    text::last_filled_is_last(text::lines(rest));
}

proof fn line_start(s: Seq<char>, p: int) -> (a: int)
    requires
        0 <= p <= s.len(),
    ensures
        0 <= a <= p,
        text::whole_lines(s.take(a)),
        text::within_line(s.subrange(a, p)),
    decreases p,
{
    if p == 0 || s[p - 1] == '\n' {
        if p > 0 {
            assert(s.take(p).last() == s[p - 1]);
        }
        p
    } else {
        let a = line_start(s, p - 1);
        assert forall|i: int| 0 <= i < s.subrange(a, p).len() implies #[trigger] s.subrange(
            a,
            p,
        )[i] != '\n' by {
            if i < p - 1 - a {
                assert(s.subrange(a, p - 1)[i] == s.subrange(a, p)[i]);
            }
        }
        a
    }
}

proof fn partial_line_is_last(whole: Seq<char>, line: Seq<char>)
    requires
        text::whole_lines(whole),
        text::within_line(line),
        line.len() > 0,
    ensures
        text::last_filled(text::lines(whole + line)) == Some(
            (text::line_feeds(whole) as int, line),
        ),
{
    text::lines_join(whole, line);
    text::lines_are_counted(whole);
    text::line_feed_bounds(line);
    if text::line_feed(line) < line.len() {
        assert(line[text::line_feed(line)] != '\n');
    }
    assert(text::lines(line) =~= seq![line]);
    let one = text::lines(line);
    assert(one.last() == line);
    text::last_filled_join(text::lines(whole), one);
}

proof fn no_fence_part(s: Seq<char>, i: int, j: int)
    requires
        no_fence(s),
        0 <= i <= j <= s.len(),
    ensures
        no_fence(s.subrange(i, j)),
{
    let part = s.subrange(i, j);
    assert forall|k: int| 0 <= k && k + 2 < part.len() implies !(#[trigger] part[k] == '`' && part[k
        + 1] == '`' && part[k + 2] == '`') by {
        assert(part[k] == s[i + k]);
    }
}

proof fn short_line_has_no_fence(whole: Seq<char>, line: Seq<char>)
    requires
        no_fence(whole),
        text::whole_lines(whole),
        no_fence(line),
    ensures
        no_fence(whole + line),
{
    let all = whole + line;
    assert forall|k: int| 0 <= k && k + 2 < all.len() implies !(#[trigger] all[k] == '`' && all[k
        + 1] == '`' && all[k + 2] == '`') by {
        let n = whole.len() as int;
        if k + 2 < n {
            assert(all[k] == whole[k]);
        } else if k >= n {
            assert(all[k] == line[k - n]);
        } else {
            assert(all[n - 1] == whole.last());
        }
    }
}

/// A look at a response that has nothing new to say of code blocks changes nothing.
#[verifier::spinoff_prover]
#[verifier::rlimit(40)]
proof fn quiet_look(b: CodeBlocks, old: Seq<char>, body: Seq<char>)
    requires
        fence_is_there(b, old + body),
        b.last_fence matches Some(m) ==> exists|p: int|
            p < old.len() && #[trigger] backtick_at(old + body, p, m as nat),
        settled(b, old, body),
        no_fence(body),
    ensures
        content_seen(b, old + body) == (b, false),
{
    let all = old + body;
    match b.last_fence {
        None => {
            assert(all =~= body);
            text::last_filled_is_last(text::lines(body));
            if let Some((n, line)) = text::last_filled(text::lines(body)) {
                line_of_no_fence(body, n);
            }
        },
        Some(m) => {
            let p = choose|p: int| p < old.len() && #[trigger] backtick_at(all, p, m as nat);
            assert(old.take(p) =~= all.take(p));
            assert(backtick_at(old, p, m as nat));
            backtick_is_filled(old, p, m as nat);
            text::lines_are_counted(old);
            text::last_filled_is_last(text::lines(old));
            if body.len() == 0 {
                assert(all =~= old);
            }
            if text::whole_lines(old) {
                text::lines_join(old, body);
                text::last_filled_join(text::lines(old), text::lines(body));
                text::last_filled_is_last(text::lines(body));
                if let Some((n, line)) = text::last_filled(text::lines(body)) {
                    line_of_no_fence(body, n);
                }
            }
        },
    }
}

proof fn streamed_content(c: ConversationView, tokens: Seq<Seq<char>>)
    ensures
        streamed(c, tokens).ai_content == c.ai_content + put_together(tokens),
        streamed(c, tokens).history == c.history,
    decreases tokens.len(),
{
    if tokens.len() == 0 {
        assert(c.ai_content + put_together(tokens) =~= c.ai_content);
    } else {
        streamed_content(c, tokens.drop_last());
        let before = put_together(tokens.drop_last());
        assert((c.ai_content + before) + tokens.last() =~= c.ai_content + (before
            + tokens.last()));
    }
}

/// Where a response is with regard to its code blocks does not change while no three
/// backticks come after the line of the last fence: what comes after an opening fence is not
/// spoken, and what comes outside of code blocks is spoken, all of it and nothing else.
#[verifier::spinoff_prover]
#[verifier::rlimit(60)]
pub proof fn no_fence_no_change(
    speech: SpeakStreamView,
    c: ConversationView,
    tokens: Seq<Seq<char>>,
    old: Seq<char>,
    body: Seq<char>,
)
    requires
        fence_is_there(c.blocks, c.ai_content),
        c.ai_content + put_together(tokens) == old + body,
        settled(c.blocks, old, body),
        no_fence(body),
    ensures
        streamed(c, tokens).blocks == c.blocks,
        c.blocks.inside ==> voiced(speech, c, tokens) == speech,
        !c.blocks.inside ==> voiced(speech, c, tokens) == speakstream::token_added(
            speech,
            put_together(tokens),
        ),
    decreases tokens.len(),
{
    let b = c.blocks;
    if tokens.len() == 0 {
        let (rest, none) = sentences::fed(speech.buffer, put_together(tokens));
        assert(speech.texts + none =~= speech.texts);
    } else {
        let before = tokens.drop_last();
        let last = tokens.last();
        let whole = old + body;
        let so_far = c.ai_content + put_together(before);
        assert(whole =~= so_far + last);
        assert(so_far =~= whole.take(so_far.len() as int));
        let n = so_far.len() as int;
        // Where the fence stands, within what had come before.
        if let Some(m) = b.last_fence {
            let p = choose|p: int| #[trigger] backtick_at(c.ai_content, p, m as nat);
            assert(whole[p] == c.ai_content[p]);
            assert(whole.take(p) =~= c.ai_content.take(p));
            assert(so_far.take(p) =~= c.ai_content.take(p));
            assert(so_far[p] == c.ai_content[p]);
            assert(backtick_at(whole, p, m as nat));
            assert(backtick_at(so_far, p, m as nat));
            if p >= old.len() {
                if body.len() > 0 {
                    // The line of the fence ends before `body`.
                    assert(whole.take(p) =~= old + whole.subrange(old.len() as int, p));
                    text::line_feeds_add(old, whole.subrange(old.len() as int, p));
                    assert(false);
                } else {
                    assert(false);
                }
            }
            assert(p < old.len() && backtick_at(old + body, p, m as nat));
            if n < old.len() {
                // Only a part of `old` had come.
                assert(so_far =~= old.take(n));
                if text::whole_lines(old) && text::line_feeds(old) == m + 1 {
                    within_fence_line(c, before, old, so_far);
                } else {
                    assert(old =~= so_far + old.skip(n));
                    text::line_feeds_add(so_far, old.skip(n));
                    assert(so_far =~= so_far.take(p) + so_far.skip(p));
                    text::line_feeds_add(so_far.take(p), so_far.skip(p));
                }
                assert(text::line_feeds(so_far) == m);
                let none = Seq::<char>::empty();
                assert(so_far =~= so_far + none);
                no_fence_no_change(speech, c, before, so_far, none);
            }
        }
        if n >= old.len() {
            let part = body.subrange(0, n - old.len());
            no_fence_part(body, 0, n - old.len());
            assert(so_far =~= old + part);
            if b.last_fence is Some && body.len() == 0 {
                assert(part.len() == 0);
            }
            no_fence_no_change(speech, c, before, old, part);
        }
        streamed_content(c, before);
        quiet_look(b, old, body);
        let s = streamed(c, before);
        assert(s.ai_content + last == whole);
        assert(content_seen(s.blocks, s.ai_content + last) == (b, false));
        speakstream::tokens_join(speech, put_together(before), last);
    }
}

/// A line that starts with three backticks opens a code block, once, at whatever of its
/// tokens that is seen: the figure that is spoken of next is the next one.
#[verifier::spinoff_prover]
#[verifier::rlimit(40)]
pub proof fn fence_opens(
    c: ConversationView,
    tokens: Seq<Seq<char>>,
    old: Seq<char>,
    mid: Seq<char>,
    fence: Seq<char>,
)
    requires
        tokens.len() > 0,
        fence_is_there(c.blocks, c.ai_content),
        !c.blocks.inside,
        c.blocks.figure_number < u32::MAX,
        c.ai_content + put_together(tokens) == old + mid + fence,
        text::whole_lines(old),
        settled(c.blocks, old, mid + fence),
        text::whole_lines(mid),
        no_fence(mid),
        text::within_line(fence),
        starts_with_fence(fence),
        text::line_feeds(old + mid) <= usize::MAX,
    ensures
        streamed(c, tokens).blocks == (CodeBlocks {
            inside: true,
            last_fence: Some(text::line_feeds(old + mid) as usize),
            figure_number: (c.blocks.figure_number + 1) as u32,
        }),
        fence_is_there(streamed(c, tokens).blocks, streamed(c, tokens).ai_content),
    decreases tokens.len(),
{
    let b = c.blocks;
    let before = tokens.drop_last();
    let last = tokens.last();
    let lead = old + mid;
    let whole = lead + fence;
    let i = text::line_feeds(lead);
    let so_far = c.ai_content + put_together(before);
    assert(whole =~= so_far + last);
    let n = so_far.len() as int;
    assert(so_far =~= whole.take(n));
    streamed_content(c, before);
    streamed_content(c, tokens);
    if lead.len() > 0 {
        assert(lead.last() == '\n') by {
            if mid.len() == 0 {
                assert(lead =~= old);
            } else {
                assert(lead.last() == mid.last());
            }
        }
    }
    partial_line_is_last(lead, fence);
    fences_are_backticks(fence);
    text::line_feeds_add(old, mid);
    assert(whole.take(lead.len() as int) =~= lead);
    assert(backtick_at(whole, lead.len() as int, i));
    if before.len() > 0 && n >= lead.len() + 3 {
        let part = fence.take(n - lead.len());
        assert(so_far =~= old + mid + part);
        assert forall|k: int| 0 <= k < part.len() implies #[trigger] part[k] != '\n' by {
            assert(part[k] == fence[k]);
        }
        fence_opens(c, before, old, mid, part);
    } else if before.len() > 0 {
        open_later(c, before, old, mid, fence, n);
    } else {
        assert(put_together(before) =~= Seq::<char>::empty());
        assert(streamed(c, before) == c);
    }
    let s = streamed(c, tokens);
    assert(s.ai_content == whole);
    assert(backtick_at(s.ai_content, lead.len() as int, (s.blocks.last_fence->0) as nat));
}

proof fn open_later(
    c: ConversationView,
    before: Seq<Seq<char>>,
    old: Seq<char>,
    mid: Seq<char>,
    fence: Seq<char>,
    n: int,
)
    requires
        fence_is_there(c.blocks, c.ai_content),
        !c.blocks.inside,
        text::whole_lines(old),
        settled(c.blocks, old, mid + fence),
        fence.len() > 0,
        text::whole_lines(mid),
        no_fence(mid),
        0 <= n < old.len() + mid.len() + 3,
        n <= old.len() + mid.len() + fence.len(),
        c.ai_content + put_together(before) == (old + mid + fence).take(n),
    ensures
        streamed(c, before).blocks == c.blocks,
{
    let speech = vstd::pervasive::arbitrary::<SpeakStreamView>();
    let b = c.blocks;
    let whole = old + mid + fence;
    let so_far = whole.take(n);
    if n < old.len() {
        assert(so_far =~= old.take(n));
        within_fence_line(c, before, old, so_far);
        let none = Seq::<char>::empty();
        assert(so_far =~= so_far + none);
        no_fence_no_change(speech, c, before, so_far, none);
    } else if n <= old.len() + mid.len() {
        let part = mid.subrange(0, n - old.len());
        no_fence_part(mid, 0, n - old.len());
        assert(so_far =~= old + part);
        no_fence_no_change(speech, c, before, old, part);
    } else {
        let part = fence.take(n - old.len() - mid.len());
        short_line_has_no_fence(mid, part);
        assert(so_far =~= old + (mid + part));
        no_fence_no_change(speech, c, before, old, mid + part);
    }
}

/// A line that ends in three backticks closes a code block, once, at whatever of its tokens
/// that is seen. A line that does not leaves it open, or has closed it when it still did.
#[verifier::spinoff_prover]
#[verifier::rlimit(40)]
pub proof fn fence_closes(
    c: ConversationView,
    tokens: Seq<Seq<char>>,
    old: Seq<char>,
    mid: Seq<char>,
    line: Seq<char>,
)
    requires
        fence_is_there(c.blocks, c.ai_content),
        c.blocks.inside,
        c.ai_content.len() <= (old + mid).len(),
        c.ai_content + put_together(tokens) == old + mid + line,
        text::whole_lines(old),
        settled(c.blocks, old, mid + line),
        text::whole_lines(mid),
        no_fence(mid),
        text::within_line(line),
        line.len() > 0,
        text::line_feeds(old + mid) <= usize::MAX,
    ensures
        ({
            let b = streamed(c, tokens).blocks;
            let closed = CodeBlocks {
                inside: false,
                last_fence: Some(text::line_feeds(old + mid) as usize),
                ..c.blocks
            };
            &&& b == c.blocks || b == closed
            &&& ends_in_fence(line) ==> b == closed && fence_is_there(
                b,
                streamed(c, tokens).ai_content,
            )
        }),
    decreases tokens.len(),
{
    let b = c.blocks;
    let lead = old + mid;
    let whole = lead + line;
    let i = text::line_feeds(lead);
    assert(tokens.len() > 0) by {
        if tokens.len() == 0 {
            assert(put_together(tokens).len() == 0);
        }
    }
    let before = tokens.drop_last();
    let last = tokens.last();
    let so_far = c.ai_content + put_together(before);
    assert(whole =~= so_far + last);
    let n = so_far.len() as int;
    assert(so_far =~= whole.take(n));
    streamed_content(c, before);
    streamed_content(c, tokens);
    if lead.len() > 0 {
        assert(lead.last() == '\n') by {
            if mid.len() == 0 {
                assert(lead =~= old);
            } else {
                assert(lead.last() == mid.last());
            }
        }
    }
    partial_line_is_last(lead, line);
    fences_are_backticks(line);
    text::line_feeds_add(old, mid);
    if n > lead.len() {
        let part = line.take(n - lead.len());
        assert(so_far =~= old + mid + part);
        assert forall|k: int| 0 <= k < part.len() implies #[trigger] part[k] != '\n' by {
            assert(part[k] == line[k]);
        }
        fence_closes(c, before, old, mid, part);
    } else {
        close_later(c, before, old, mid, line, n);
    }
    if ends_in_fence(line) {
        let p = whole.len() - 1;
        assert(whole[p] == '`');
        assert(whole.take(p) =~= lead + line.drop_last());
        text::line_feeds_add(lead, line.drop_last());
        assert forall|k: int| 0 <= k < line.drop_last().len() implies #[trigger] line.drop_last()[k]
            != '\n' by {
            assert(line[k] != '\n');
        }
        text::within_line_has_none(line.drop_last());
        let s = streamed(c, tokens);
        assert(s.ai_content == whole);
        assert(backtick_at(s.ai_content, p, (s.blocks.last_fence->0) as nat));
    }
}

proof fn close_later(
    c: ConversationView,
    before: Seq<Seq<char>>,
    old: Seq<char>,
    mid: Seq<char>,
    line: Seq<char>,
    n: int,
)
    requires
        fence_is_there(c.blocks, c.ai_content),
        text::whole_lines(old),
        settled(c.blocks, old, mid + line),
        line.len() > 0,
        no_fence(mid),
        0 <= n <= old.len() + mid.len(),
        c.ai_content + put_together(before) == (old + mid + line).take(n),
    ensures
        streamed(c, before).blocks == c.blocks,
{
    let speech = vstd::pervasive::arbitrary::<SpeakStreamView>();
    let b = c.blocks;
    let whole = old + mid + line;
    let so_far = whole.take(n);
    if n < old.len() {
        assert(so_far =~= old.take(n));
        within_fence_line(c, before, old, so_far);
        let none = Seq::<char>::empty();
        assert(so_far =~= so_far + none);
        no_fence_no_change(speech, c, before, so_far, none);
    } else {
        let part = mid.subrange(0, n - old.len());
        no_fence_part(mid, 0, n - old.len());
        assert(so_far =~= old + part);
        no_fence_no_change(speech, c, before, old, part);
    }
}

proof fn within_fence_line(
    c: ConversationView,
    before: Seq<Seq<char>>,
    old: Seq<char>,
    so_far: Seq<char>,
)
    requires
        fence_is_there(c.blocks, c.ai_content),
        c.blocks.last_fence is Some,
        text::whole_lines(old),
        text::line_feeds(old) == c.blocks.last_fence->0 + 1,
        so_far.len() < old.len(),
        so_far == old.take(so_far.len() as int),
        c.ai_content + put_together(before) == so_far,
    ensures
        text::line_feeds(so_far) == c.blocks.last_fence->0,
{
    let m = c.blocks.last_fence->0;
    let n = so_far.len() as int;
    let p = choose|p: int| #[trigger] backtick_at(c.ai_content, p, m as nat);
    assert(old =~= so_far + old.skip(n));
    text::line_feeds_add(so_far, old.skip(n));
    assert(so_far[p] == c.ai_content[p]);
    assert(so_far.take(p) =~= c.ai_content.take(p));
    assert(so_far =~= so_far.take(p) + so_far.skip(p));
    text::line_feeds_add(so_far.take(p), so_far.skip(p));
    let rest = old.skip(n);
    assert(rest.last() == '\n');
    assert(rest =~= rest.drop_last() + seq!['\n']);
    text::line_feeds_add(rest.drop_last(), seq!['\n']);
    assert(text::line_feeds(seq!['\n']) == 1) by {
        reveal_with_fuel(text::line_feeds, 2);
        assert(seq!['\n'].drop_first() =~= Seq::<char>::empty());
    }
}

/// However a response is cut into tokens, the line on which a code block last began or ended
/// has a backtick, and without such a line the response is outside of all code blocks.
#[verifier::spinoff_prover]
#[verifier::rlimit(40)]
pub proof fn fences_stay_there(c: ConversationView, tokens: Seq<Seq<char>>)
    requires
        fence_is_there(c.blocks, c.ai_content),
        (c.ai_content + put_together(tokens)).len() <= usize::MAX,
    ensures
        fence_is_there(streamed(c, tokens).blocks, streamed(c, tokens).ai_content),
    decreases tokens.len(),
{
    if tokens.len() > 0 {
        let before = tokens.drop_last();
        let s = streamed(c, before);
        let all = s.ai_content + tokens.last();
        streamed_content(c, before);
        streamed_content(c, tokens);
        assert(all =~= c.ai_content + put_together(tokens));
        fences_stay_there(c, before);
        let after = content_seen(s.blocks, all).0;
        assert(streamed(c, tokens).blocks == after && streamed(c, tokens).ai_content == all);
        if after.last_fence == s.blocks.last_fence {
            if let Some(m) = after.last_fence {
                let p = choose|p: int| #[trigger] backtick_at(s.ai_content, p, m as nat);
                assert(all[p] == s.ai_content[p]);
                assert(all.take(p) =~= s.ai_content.take(p));
                assert(backtick_at(all, p, m as nat));
            }
        } else {
            text::last_filled_is_last(text::lines(all));
            let (n, line) = text::last_filled(text::lines(all))->0;
            let j = text::line_is_part(all, n);
            fences_are_backticks(line);
            text::lines_are_counted(all);
            line_feeds_at_most(all);
            assert(n <= usize::MAX);
            let q = if starts_with_fence(line) {
                j
            } else {
                j + line.len() - 1
            };
            assert(all[q] == line[q - j]);
            assert(all.take(q) =~= all.take(j) + line.take(q - j));
            text::line_feeds_add(all.take(j), line.take(q - j));
            assert forall|k: int| 0 <= k < line.take(q - j).len() implies #[trigger] line.take(
                q - j,
            )[k] != '\n' by {
                assert(line[k] != '\n');
            }
            text::within_line_has_none(line.take(q - j));
            assert(after.last_fence == Some(n as usize));
            assert(backtick_at(all, q, (after.last_fence->0) as nat));
        }
        assert(fence_is_there(after, all));
    }
}

proof fn line_feeds_at_most(s: Seq<char>)
    ensures
        text::line_feeds(s) <= s.len(),
    decreases s.len(),
{
    if s.len() > 0 {
        line_feeds_at_most(s.drop_first());
    }
}

/// What comes before the first fence of a response is spoken, and then the figure is: at the
/// token with which the fence is seen, the sentence that is left is ended by it.
pub proof fn figure_is_announced(
    speech: SpeakStreamView,
    c: ConversationView,
    plain: Seq<Seq<char>>,
    token: Seq<char>,
    head: Seq<char>,
    fence: Seq<char>,
)
    requires
        put_together(plain) + token == head + fence,
        no_fence(put_together(plain)),
        text::whole_lines(head),
        no_fence(head),
        text::within_line(fence),
        starts_with_fence(fence),
        text::line_feeds(head) <= usize::MAX,
    ensures
        ({
            let told = speakstream::token_added(
                speech,
                put_together(plain) + ". See figure 1... "@,
            );
            voiced(speech, asked(c), plain.push(token)) == (SpeakStreamView {
                buffer: seq![],
                texts: told.texts + sentences::sentence_of(told.buffer),
                ..speech
            })
        }),
{
    let start = asked(c);
    let none = Seq::<char>::empty();
    let tokens = plain.push(token);
    assert(tokens.drop_last() =~= plain);
    assert(tokens.last() == token);
    assert(start.ai_content + put_together(plain) =~= none + put_together(plain));
    no_fence_no_change(speech, start, plain, none, put_together(plain));
    streamed_content(start, plain);
    assert(start.ai_content + put_together(tokens) =~= none + head + fence);
    partial_line_is_last(head, fence);
    fences_are_backticks(fence);
    let s = streamed(start, plain);
    assert(s.ai_content + token =~= head + fence);
    reveal_strlit(". See figure ");
    reveal_strlit("... ");
    reveal_strlit(". See figure 1... ");
    assert(text::decimal(1) =~= seq!['1']);
    assert(see_figure(1) =~= ". See figure 1... "@);
    speakstream::tokens_join(speech, put_together(plain), see_figure(1));
}

/// A response with a code block: what is inside of the block is not spoken, however the
/// response is cut into tokens, and what comes after the block is. The first line of the
/// block starts with three backticks and the last ends in three; no others have three.
#[verifier::spinoff_prover]
#[verifier::rlimit(40)]
pub proof fn code_is_left_unspoken(
    speech: SpeakStreamView,
    c: ConversationView,
    opened: Seq<Seq<char>>,
    code: Seq<Seq<char>>,
    closing: Seq<Seq<char>>,
    after: Seq<Seq<char>>,
    head: Seq<char>,
    fence: Seq<char>,
    info: Seq<char>,
    body: Seq<char>,
    gap: Seq<char>,
    end: Seq<char>,
    rest: Seq<char>,
    more: Seq<char>,
)
    requires
        opened.len() > 0,
        put_together(opened) == head + fence,
        text::whole_lines(head) && no_fence(head),
        text::within_line(fence) && starts_with_fence(fence),
        // The fence may be followed by the language, and then by lines of code.
        put_together(code) == info + ("\n"@ + body),
        text::within_line(info),
        put_together(closing) == gap + end,
        text::whole_lines(body + gap) && no_fence(body + gap),
        text::within_line(end) && ends_in_fence(end),
        put_together(after) == rest + ("\n"@ + more),
        text::within_line(rest),
        no_fence(more),
        (put_together(opened) + put_together(code) + put_together(closing)).len() < usize::MAX,
    ensures
        ({
            let start = asked(c);
            let in_block = streamed(start, opened);
            let at_code = streamed(in_block, code);
            let closed = streamed(at_code, closing);
            &&& in_block.blocks.inside && in_block.blocks.figure_number == 2
            &&& at_code.blocks.inside && at_code.blocks.figure_number == 2
            &&& voiced(speech, in_block, code) == speech
            &&& !closed.blocks.inside && closed.blocks.figure_number == 2
            &&& !streamed(closed, after).blocks.inside
            &&& voiced(speech, closed, after) == speakstream::token_added(
                speech,
                rest + "\n"@ + more,
            )
        }),
{
    reveal_strlit("\n");
    let nl = "\n"@;
    assert(nl =~= seq!['\n']);
    assert(text::line_feeds(nl) == 1) by {
        reveal_with_fuel(text::line_feeds, 2);
        assert(nl.drop_first() =~= Seq::<char>::empty());
    }
    let none = Seq::<char>::empty();
    let start = asked(c);
    line_feeds_at_most(head);
    assert(start.ai_content + put_together(opened) =~= none + head + fence);
    assert(none + head =~= head);
    fence_opens(start, opened, none, head, fence);
    let in_block = streamed(start, opened);
    streamed_content(start, opened);
    let i = text::line_feeds(head);
    assert(in_block.ai_content =~= head + fence);
    // The code.
    let old = head + fence + info + nl;
    text::line_feeds_add(head + fence + info, nl);
    text::line_feeds_add(head + fence, info);
    text::line_feeds_add(head, fence);
    text::within_line_has_none(fence);
    text::within_line_has_none(info);
    assert(old.last() == '\n');
    assert(in_block.ai_content + put_together(code) =~= old + body);
    no_fence_part(body + gap, 0, body.len() as int);
    assert((body + gap).subrange(0, body.len() as int) =~= body);
    no_fence_no_change(speech, in_block, code, old, body);
    let at_code = streamed(in_block, code);
    streamed_content(in_block, code);
    assert((head + fence) + put_together(code) =~= put_together(opened) + put_together(code));
    fences_stay_there(in_block, code);
    // The end of the block.
    let mid = body + gap;
    assert(at_code.ai_content + put_together(closing) =~= old + mid + end);
    assert((old + mid).len() <= (put_together(opened) + put_together(code) + put_together(
        closing,
    )).len());
    line_feeds_at_most(old + mid);
    fence_closes(at_code, closing, old, mid, end);
    let closed = streamed(at_code, closing);
    streamed_content(at_code, closing);
    // What comes after it.
    let done = old + mid + end + rest + nl;
    text::line_feeds_add(old + mid + end + rest, nl);
    text::line_feeds_add(old + mid + end, rest);
    text::line_feeds_add(old + mid, end);
    text::within_line_has_none(end);
    text::within_line_has_none(rest);
    assert(done.last() == '\n');
    assert(closed.ai_content + put_together(after) =~= done + more);
    no_fence_no_change(speech, closed, after, done, more);
    assert(put_together(after) =~= rest + nl + more);
}

/// Wherever a code block begins, the figure is spoken of by its number, the sentence that is
/// left is ended by that, and the token that opened the block is not spoken.
pub proof fn each_figure_is_announced(
    speech: SpeakStreamView,
    c: ConversationView,
    token: Seq<char>,
)
    requires
        !c.blocks.inside,
        streamed(c, seq![token]).blocks.inside,
    ensures
        ({
            let told = speakstream::token_added(
                speech,
                ". See figure "@ + text::decimal(c.blocks.figure_number as nat) + "... "@,
            );
            voiced(speech, c, seq![token]) == (SpeakStreamView {
                buffer: seq![],
                texts: told.texts + sentences::sentence_of(told.buffer),
                ..speech
            })
        }),
{
    let tokens = seq![token];
    assert(tokens.drop_last() =~= Seq::<Seq<char>>::empty());
    assert(tokens.last() == token);
    assert(streamed(c, tokens.drop_last()) == c);
    assert(voiced(speech, c, tokens.drop_last()) == speech);
}

/// The name and the arguments of the function that is called.
pub open spec fn called_by(choices: Seq<Choice<Seq<char>>>) -> (Option<Seq<char>>, Seq<char>)
    decreases choices.len(),
{
    if choices.len() == 0 {
        (None, seq![])
    } else {
        let (name, args) = called_by(choices.drop_last());
        let last = choices.last();
        (
            if last.fn_name is Some {
                last.fn_name
            } else {
                name
            },
            if last.fn_args is Some {
                args + last.fn_args->0
            } else {
                args
            },
        )
    }
}

/// A call is put together from the parts of a response: its name is the last that was given,
/// and its arguments are all their parts in order.
pub proof fn call_is_put_together(c: ConversationView, choices: Seq<Choice<Seq<char>>>)
    ensures
        choices_taken(asked(c), choices).fn_args == called_by(choices).1,
        choices_taken(asked(c), choices).fn_name == (match called_by(choices).0 {
            Some(name) => name,
            None => seq![],
        }),
    decreases choices.len(),
{
    if choices.len() > 0 {
        call_is_put_together(c, choices.drop_last());
    }
}

/// A refused conversation loses its oldest message but the first, and nothing else of what was
/// said; what had come of the response is forgotten.
pub proof fn oldest_message_is_forgotten(c: ConversationView)
    ensures
        refused(c).ai_content.len() == 0 && refused(c).fn_name.len() == 0 && refused(
            c,
        ).fn_args.len() == 0,
        c.history.len() <= 1 ==> refused(c).history == c.history,
        c.history.len() > 1 ==> {
            &&& refused(c).history.len() == c.history.len() - 1
            &&& refused(c).history[0] == c.history[0]
            &&& forall|i: int|
                1 <= i < c.history.len() - 1 ==> #[trigger] refused(c).history[i] == c.history[i
                    + 1]
        },
{
}

/// What the assistant said is remembered after all else when its response has ended or was
/// stopped; nothing else that was said changes but by a refusal.
pub proof fn answers_are_remembered(
    c: ConversationView,
    event: ResponseEvent<Seq<char>>,
    should_stop: bool,
)
    ensures
        ({
            let after = after_event(c, event, should_stop);
            let answered = event is Ended || should_stop && (event is More || event is Refused);
            &&& answered ==> after.history.len() == c.history.len() + 1 && after.history.last() == (
            Message::Assistant { content: c.ai_content }) && after.history.drop_last() == c.history
            &&& !answered && !(event is Refused) ==> after == c
        }),
{
    assert(said(c, Message::Assistant { content: c.ai_content }).history.drop_last()
        =~= c.history);
}

/// What the user said follows on the time, and messages of others are kept as they are.
pub proof fn time_is_added_for_the_user(m: Message<Seq<char>>, time: Seq<char>)
    ensures
        with_time(m, time) is User <==> m is User,
        m matches Message::User { content } ==> with_time(m, time) == (Message::User {
            content: "Local Time: "@ + time + "\n"@ + content,
        }),
        !(m is User) ==> with_time(m, time) == m,
{
}

} // verus!
