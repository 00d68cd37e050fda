//! The list of messages on screen: it only ever grows at its end.

use crate::message::{Message, MessageView};
use vstd::prelude::*;

verus! {

/// The messages of a session in the order in which they were appended.
#[derive(Debug)]
pub struct Conversation {
    messages: Vec<Message>,
}

/// The identifiers of a row of messages, in the same order.
pub open spec fn identifiers(messages: Seq<MessageView>) -> Seq<u128> {
    messages.map_values(|m: MessageView| m.uuid)
}

/// Each identifier is greater than the one before it.
pub open spec fn ascending(ids: Seq<u128>) -> bool {
    forall|i: int, j: int| 0 <= i < j < ids.len() ==> ids[i] < ids[j]
}

/// No identifier occurs twice.
pub open spec fn distinct(ids: Seq<u128>) -> bool {
    forall|i: int, j: int| 0 <= i < ids.len() && 0 <= j < ids.len() && i != j ==> ids[i] != ids[j]
}

impl View for Conversation {
    type V = Seq<MessageView>;

    closed spec fn view(&self) -> Seq<MessageView> {
        self.messages@.map_values(|m: Message| m@)
    }
}

impl Conversation {
    /// A conversation in which nothing has been said.
    pub fn new() -> (conversation: Conversation)
        ensures
            conversation@ == Seq::<MessageView>::empty(),
    {
        let conversation = Conversation { messages: Vec::new() };
        assert(conversation@ =~= Seq::<MessageView>::empty());
        conversation
    }

    /// The number of messages.
    pub fn len(&self) -> (count: usize)
        ensures
            count == self@.len(),
    {
        self.messages.len()
    }

    /// Whether nothing has been said yet.
    pub fn is_empty(&self) -> (empty: bool)
        ensures
            empty == (self@.len() == 0),
    {
        self.messages.len() == 0
    }

    /// Adds a message at the end. The messages already there stay as they
    /// are and where they are.
    pub fn append(&mut self, message: Message)
        ensures
            final(self)@ == old(self)@.push(message@),
    {
        self.messages.push(message);
        assert(self@ =~= old(self)@.push(message@));
    }

    /// The message at a position.
    pub fn get(&self, position: usize) -> (message: Option<&Message>)
        ensures
            position < self@.len() ==> (message matches Some(m) && m@ == self@[position as int]),
            position >= self@.len() ==> message is None,
    {
        if position < self.messages.len() {
            Some(&self.messages[position])
        } else {
            None
        }
    }

    /// A copy of the messages as they stand, in order.
    pub fn snapshot(&self) -> (copy: Vec<Message>)
        ensures
            copy@.map_values(|m: Message| m@) == self@,
    {
        let mut copy: Vec<Message> = Vec::new();
        let mut next: usize = 0;
        while next < self.messages.len()
            invariant
                next <= self.messages.len(),
                copy@ == self.messages@.subrange(0, next as int),
            decreases self.messages.len() - next,
        {
            copy.push(self.messages[next].clone());
            next = next + 1;
            assert(copy@ =~= self.messages@.subrange(0, next as int));
        }
        assert(copy@ =~= self.messages@);
        copy
    }
}

/// Identifiers that ascend are all different.
pub proof fn lemma_ascending_is_distinct(ids: Seq<u128>)
    requires
        ascending(ids),
    ensures
        distinct(ids),
{
    assert forall|i: int, j: int|
        0 <= i < ids.len() && 0 <= j < ids.len() && i != j implies ids[i] != ids[j] by {
        if i < j {
            assert(ids[i] < ids[j]);
        } else {
            assert(ids[j] < ids[i]);
        }
    }
}

/// Where the identifiers of a conversation ascend and a message is appended
/// whose identifier is greater than the last, they still ascend: messages
/// made one after the other sort in the order of their making.
pub proof fn lemma_append_keeps_ascending(messages: Seq<MessageView>, message: MessageView)
    requires
        ascending(identifiers(messages)),
        messages.len() > 0 ==> messages.last().uuid < message.uuid,
    ensures
        ascending(identifiers(messages.push(message))),
        distinct(identifiers(messages.push(message))),
{
    let before = identifiers(messages);
    let after = identifiers(messages.push(message));
    assert forall|i: int, j: int| 0 <= i < j < after.len() implies after[i] < after[j] by {
        if j < messages.len() {
            assert(before[i] < before[j]);
        } else if i < messages.len() - 1 {
            assert(before[i] < before[messages.len() - 1]);
        }
    }
    lemma_ascending_is_distinct(after);
}

} // verus!
