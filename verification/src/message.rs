//! Messages of a conversation and their mathematical view.

use vstd::prelude::*;
use vstd::string::*;

verus! {

/// Who speaks in a turn of the conversation.
#[derive(Clone, Copy, Debug, PartialEq, Eq, Structural, Hash)]
pub enum Role {
    System,
    User,
    Assistant,
}

/// The abstract value of a [`Message`]: its role and its text as a sequence
/// of characters.
pub struct MessageView {
    pub role: Role,
    pub content: Seq<char>,
}

/// One turn of the conversation. A message is never changed after it was
/// made.
#[derive(Clone, Debug, PartialEq, Eq)]
pub struct Message {
    pub role: Role,
    pub content: String,
}

impl View for Message {
    type V = MessageView;

    open spec fn view(&self) -> MessageView {
        MessageView { role: self.role, content: self.content@ }
    }
}

/// The views of a sequence of messages, in the same order.
pub open spec fn message_views(s: Seq<Message>) -> Seq<MessageView> {
    Seq::new(s.len(), |i: int| s[i]@)
}

/// The abstract system turn with the given text.
pub open spec fn system_turn(content: Seq<char>) -> MessageView {
    MessageView { role: Role::System, content }
}

/// The abstract user turn with the given text.
pub open spec fn user_turn(content: Seq<char>) -> MessageView {
    MessageView { role: Role::User, content }
}

/// The abstract assistant turn with the given text.
pub open spec fn assistant_turn(content: Seq<char>) -> MessageView {
    MessageView { role: Role::Assistant, content }
}

impl Message {
    /// A system message with the given text.
    pub fn system(content: String) -> (m: Message)
        ensures
            m@ == system_turn(content@),
    {
        Message { role: Role::System, content }
    }

    /// A user message with the given text.
    pub fn user(content: String) -> (m: Message)
        ensures
            m@ == user_turn(content@),
    {
        Message { role: Role::User, content }
    }

    /// An assistant message with the given text.
    pub fn assistant(content: String) -> (m: Message)
        ensures
            m@ == assistant_turn(content@),
    {
        Message { role: Role::Assistant, content }
    }

    /// A copy of this message with the same role and the same text.
    pub fn duplicate(&self) -> (m: Message)
        ensures
            m@ == self@,
    {
        Message { role: self.role, content: self.content.clone() }
    }
}

/// A copy of a list of messages: the same messages in the same order.
pub fn duplicate_all(messages: &Vec<Message>) -> (copy: Vec<Message>)
    ensures
        message_views(copy@) == message_views(messages@),
{
    let mut copy: Vec<Message> = Vec::new();
    let mut i: usize = 0;
    while i < messages.len()
        invariant
            i <= messages.len(),
            copy.len() == i,
            forall|k: int| 0 <= k < i ==> copy[k]@ == messages[k]@,
        decreases messages.len() - i,
    {
        copy.push(messages[i].duplicate());
        i += 1;
    }
    assert(message_views(copy@) =~= message_views(messages@));
    copy
}

} // verus!
