//! The window in which messages are written.

use crate::text;
use vstd::prelude::*;

verus! {

/// What the window shows.
pub struct MessageBox {
    /// The messages that were sent.
    pub history: String,
    /// The message that is being written.
    pub message: String,
    /// Whether the message can be sent.
    pub send_enabled: bool,
}

/// What the window shows, with its texts as sequences of characters.
#[verifier::ext_equal]
pub struct MessageBoxView {
    pub history: Seq<char>,
    pub message: Seq<char>,
    pub send_enabled: bool,
}

impl View for MessageBox {
    type V = MessageBoxView;

    open spec fn view(&self) -> MessageBoxView {
        MessageBoxView {
            history: self.history@,
            message: self.message@,
            send_enabled: self.send_enabled,
        }
    }
}

/// Whether a message says nothing.
pub open spec fn is_blank(message: Seq<char>) -> bool {
    text::trimmed(message).len() == 0
}

fn says_nothing(message: &str) -> (r: bool)
    ensures
        r == is_blank(message@),
{
    let trimmed = text::trim(message);
    trimmed.as_str().is_empty()
}

/// The window after a message was sent, or was to be sent and says nothing.
pub open spec fn sent(b: MessageBoxView) -> MessageBoxView {
    if is_blank(b.message) {
        b
    } else {
        MessageBoxView {
            history: b.history + "\n"@ + b.message,
            message: seq![],
            send_enabled: false,
        }
    }
}

/// The window after the message was changed.
pub open spec fn edited(b: MessageBoxView) -> MessageBoxView {
    MessageBoxView { send_enabled: !is_blank(b.message), ..b }
}

impl MessageBox {
    /// Sends the message, unless it says nothing.
    pub fn handle_message(&mut self)
        ensures
            final(self)@ == sent(old(self)@),
    {
        if says_nothing(self.message.as_str()) {
            return;
        }
        self.history.append("\n");
        self.history.append(self.message.as_str());
        self.message = String::new();
        self.send_enabled = false;
        assert(self@ =~= sent(old(self)@));
    }

    /// A message that says nothing cannot be sent.
    pub fn disable_send_if_empty_message(&mut self)
        ensures
            final(self)@ == edited(old(self)@),
    {
        self.send_enabled = !says_nothing(self.message.as_str());
    }
}

/// After a message was sent nothing more is sent until another one is written.
pub proof fn sent_once(b: MessageBoxView)
    ensures
        sent(sent(b)) == sent(b),
{
    assert(text::trim_start(Seq::<char>::empty()) =~= Seq::<char>::empty());
    assert(text::trimmed(seq![]) =~= Seq::<char>::empty());
}

/// A message says nothing exactly if it is made of white space only.
pub proof fn blank_is_white_space(message: Seq<char>)
    ensures
        is_blank(message) <==> forall|i: int|
            0 <= i < message.len() ==> text::white_space().contains(#[trigger] message[i]),
{
    let i = text::trimmed_is_part(message);
    let t = text::trimmed(message);
    assert forall|k: int| 0 <= k < message.len() implies (text::is_space(#[trigger] message[k])
        <==> text::white_space().contains(message[k])) by {
        text::white_space_is_listed(message[k]);
    }
    if t.len() > 0 {
        assert(message[i] == t[0]);
        text::white_space_is_listed(message[i]);
        assert(!text::white_space().contains(message[i]));
    }
}

/// A message that is sent stands at the end of the history, on a line of its own, and the box
/// is empty; one that says nothing is not sent.
pub proof fn sent_messages_are_shown(b: MessageBoxView)
    ensures
        is_blank(b.message) ==> sent(b) == b,
        !is_blank(b.message) ==> {
            &&& sent(b).history == b.history + seq!['\n'] + b.message
            &&& sent(b).message.len() == 0
            &&& !sent(b).send_enabled
        },
        edited(b).send_enabled <==> !is_blank(b.message),
        edited(b).message == b.message && edited(b).history == b.history,
{
    reveal_strlit("\n");
    assert("\n"@ =~= seq!['\n']);
}

} // verus!
