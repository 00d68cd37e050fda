//! One turn of a conversation.

use crate::identifier::{fresh, has_v7_layout};
use crate::order::{compare_text, id_order, int_order, lemma_equal_texts, text_order};
use crate::role::Role;
use core::cmp::Ordering;
use vstd::prelude::*;
use vstd::std_specs::cmp::{PartialEqSpecImpl, PartialOrdSpecImpl};

verus! {

/// A message: who wrote it, what it says, and the identifier it was given
/// when it was made. The identifier is a 128-bit number whose upper bits
/// hold the time of making.
#[derive(Debug, Eq, Ord)]
pub struct Message {
    pub role: Role,
    pub content: String,
    pub uuid: u128,
}

/// What a message holds, with its text as a sequence of characters.
pub struct MessageView {
    pub role: Role,
    pub content: Seq<char>,
    pub uuid: u128,
}

impl View for Message {
    type V = MessageView;

    open spec fn view(&self) -> MessageView {
        MessageView { role: self.role, content: self.content@, uuid: self.uuid }
    }
}

/// How two messages compare: by role, then by content, then by identifier.
pub open spec fn message_order(a: MessageView, b: MessageView) -> Ordering {
    if a.role != b.role {
        int_order(a.role.rank(), b.role.rank())
    } else if text_order(a.content, b.content) != Ordering::Equal {
        text_order(a.content, b.content)
    } else {
        id_order(a.uuid, b.uuid)
    }
}

/// The order agrees with equality: two messages compare as equal exactly
/// when role, content and identifier are the same.
pub proof fn lemma_equal_messages(a: MessageView, b: MessageView)
    ensures
        message_order(a, b) == Ordering::Equal <==> a == b,
{
    lemma_equal_texts(a.content, b.content);
}

impl Message {
    /// Makes the message with the given role and content whose identifier
    /// is `id`. This is where an identifier that was drawn meets the message
    /// it belongs to.
    pub fn with_id(role: Role, content: String, id: u128) -> (message: Message)
        ensures
            message@ == (MessageView { role, content: content@, uuid: id }),
    {
        Message { role, content, uuid: id }
    }

    /// Makes a message and gives it a new identifier: one is drawn, and the
    /// message is what [`Message::with_id`] makes with it.
    pub fn new(role: Role, content: String) -> (message: Message)
        ensures
            message@ == (MessageView { role, content: content@, uuid: message@.uuid }),
            has_v7_layout(message@.uuid),
    {
        Message::with_id(role, content, fresh())
    }
}

impl Clone for Message {
    fn clone(&self) -> (copy: Message)
        ensures
            copy == *self,
    {
        Message { role: self.role, content: self.content.clone(), uuid: self.uuid }
    }
}

impl PartialEq for Message {
    fn eq(&self, other: &Message) -> (same: bool) {
        self.role == other.role && self.content == other.content && self.uuid == other.uuid
    }
}

impl PartialEqSpecImpl for Message {
    open spec fn obeys_eq_spec() -> bool {
        true
    }

    open spec fn eq_spec(&self, other: &Message) -> bool {
        self@ == other@
    }
}

impl PartialOrd for Message {
    fn partial_cmp(&self, other: &Message) -> (order: Option<Ordering>) {
        if self.role != other.role {
            return self.role.partial_cmp(&other.role);
        }
        let by_content = compare_text(self.content.as_str(), other.content.as_str());
        match by_content {
            Ordering::Equal => {
                if self.uuid < other.uuid {
                    Some(Ordering::Less)
                } else if self.uuid == other.uuid {
                    Some(Ordering::Equal)
                } else {
                    Some(Ordering::Greater)
                }
            },
            _ => Some(by_content),
        }
    }
}

impl PartialOrdSpecImpl for Message {
    open spec fn obeys_partial_cmp_spec() -> bool {
        true
    }

    open spec fn partial_cmp_spec(&self, other: &Message) -> Option<Ordering> {
        Some(message_order(self@, other@))
    }
}

} // verus!
