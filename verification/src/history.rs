//! A session over time: the events that befall it one after the other, and
//! what holds of the conversation after any number of them.

use crate::conversation::{ascending, distinct, identifiers};
use crate::message::MessageView;
use crate::role::Role;
use crate::session::{after_delivery, after_submit, user_message, SessionView};
use crate::text::blank;
use crate::wire::{opened, EnvelopeView, ExchangeError};
use vstd::prelude::*;

verus! {

/// One thing that happens to a session.
pub enum Event {
    /// The text in the input field is replaced.
    Typed(Seq<char>),
    /// The line in the input field is submitted. The identifier is the one
    /// drawn for the message that the line becomes.
    Submitted(u128),
    /// The outcome of an exchange arrives.
    Delivered(Result<EnvelopeView, ExchangeError>),
}

/// The session after an event.
pub open spec fn after_event(before: SessionView, event: Event) -> SessionView {
    match event {
        Event::Typed(text) => SessionView { messages: before.messages, input: text },
        Event::Submitted(id) => after_submit(before, id),
        Event::Delivered(outcome) => after_delivery(before, outcome),
    }
}

/// The session after a row of events, the first of them first.
pub open spec fn after_events(start: SessionView, events: Seq<Event>) -> SessionView
    decreases events.len(),
{
    if events.len() == 0 {
        start
    } else {
        after_event(after_events(start, events.drop_last()), events.last())
    }
}

/// The message that an event appends to the conversation, if it appends
/// one: a submitted line that is not blank, or a reply that opens.
pub open spec fn appended(before: SessionView, event: Event) -> Option<MessageView> {
    match event {
        Event::Typed(_) => None,
        Event::Submitted(id) => if blank(before.input) {
            None
        } else {
            Some(user_message(before.input, id))
        },
        Event::Delivered(outcome) => match outcome {
            Ok(envelope) => opened(envelope),
            Err(_) => None,
        },
    }
}

/// The identifier occurs in the conversation.
pub open spec fn occurs(messages: Seq<MessageView>, id: u128) -> bool {
    exists|i: int| 0 <= i < messages.len() && #[trigger] messages[i].uuid == id
}

/// Every message that the events append has an identifier that no message
/// of the conversation had when it came.
pub open spec fn each_fresh(start: SessionView, events: Seq<Event>) -> bool
    decreases events.len(),
{
    events.len() == 0 || {
        let before = after_events(start, events.drop_last());
        &&& each_fresh(start, events.drop_last())
        &&& appended(before, events.last()) matches Some(message) ==> !occurs(
            before.messages,
            message.uuid,
        )
    }
}

/// The identifiers of the user's messages, in the order of the conversation.
pub open spec fn user_identifiers(messages: Seq<MessageView>) -> Seq<u128>
    decreases messages.len(),
{
    if messages.len() == 0 {
        Seq::empty()
    } else if messages.last().role == Role::User {
        user_identifiers(messages.drop_last()).push(messages.last().uuid)
    } else {
        user_identifiers(messages.drop_last())
    }
}

/// The identifier is greater than each of the others.
pub open spec fn above_all(ids: Seq<u128>, id: u128) -> bool {
    forall|i: int| 0 <= i < ids.len() ==> #[trigger] ids[i] < id
}

/// Every submitted line brings an identifier greater than those of the
/// user's messages before it, and every reply that opens is written by `Ai`.
pub open spec fn each_later(start: SessionView, events: Seq<Event>) -> bool
    decreases events.len(),
{
    events.len() == 0 || {
        let before = after_events(start, events.drop_last());
        &&& each_later(start, events.drop_last())
        &&& appended(before, events.last()) matches Some(message) ==> match events.last() {
            Event::Submitted(id) => above_all(user_identifiers(before.messages), id),
            _ => message.role == Role::Ai,
        }
    }
}

/// An event leaves the conversation as it was or appends one message to it,
/// the one that [`appended`] names.
pub proof fn lemma_event_appends(before: SessionView, event: Event)
    ensures
        after_event(before, event).messages == match appended(before, event) {
            Some(message) => before.messages.push(message),
            None => before.messages,
        },
{
}

/// A message whose identifier does not occur in a conversation of distinct
/// identifiers can be appended, and the identifiers are still distinct.
pub proof fn lemma_append_keeps_distinct(messages: Seq<MessageView>, message: MessageView)
    requires
        distinct(identifiers(messages)),
        !occurs(messages, message.uuid),
    ensures
        distinct(identifiers(messages.push(message))),
{
    let before = identifiers(messages);
    let after = identifiers(messages.push(message));
    assert forall|i: int, j: int|
        0 <= i < after.len() && 0 <= j < after.len() && i != j implies after[i] != after[j] by {
        if i < messages.len() && j < messages.len() {
            assert(before[i] != before[j]);
        } else if i < messages.len() {
            assert(messages[i].uuid != message.uuid);
        } else {
            assert(messages[j].uuid != message.uuid);
        }
    }
}

/// Over any session, as long as every identifier is new when it comes, no
/// two messages of the conversation share an identifier, at any moment.
pub proof fn lemma_identifiers_stay_distinct(start: SessionView, events: Seq<Event>)
    requires
        distinct(identifiers(start.messages)),
        each_fresh(start, events),
    ensures
        distinct(identifiers(after_events(start, events).messages)),
    decreases events.len(),
{
    if events.len() > 0 {
        let before = after_events(start, events.drop_last());
        lemma_identifiers_stay_distinct(start, events.drop_last());
        lemma_event_appends(before, events.last());
        match appended(before, events.last()) {
            Some(message) => lemma_append_keeps_distinct(before.messages, message),
            None => {},
        }
    }
}

/// Over any session, as long as every submitted line brings an identifier
/// greater than those before it and the replies are written by `Ai`, the
/// user's messages stand in the conversation in the order of their
/// identifiers, which is the order in which they were submitted.
pub proof fn lemma_user_messages_stay_in_order(start: SessionView, events: Seq<Event>)
    requires
        ascending(user_identifiers(start.messages)),
        each_later(start, events),
    ensures
        ascending(user_identifiers(after_events(start, events).messages)),
    decreases events.len(),
{
    if events.len() > 0 {
        let before = after_events(start, events.drop_last());
        lemma_user_messages_stay_in_order(start, events.drop_last());
        lemma_event_appends(before, events.last());
        match appended(before, events.last()) {
            Some(message) => {
                let grown = before.messages.push(message);
                assert(grown.drop_last() =~= before.messages);
                assert(grown.last() == message);
            },
            None => {},
        }
    }
}

} // verus!
