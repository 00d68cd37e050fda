//! The one call between the front end and the native side: a message goes
//! out under a command's name, and a reply comes back.

use crate::identifier::{fresh, has_v7_layout};
use crate::message::{message_order, Message, MessageView};
use crate::order::{id_order, lemma_equal_texts};
use crate::role::Role;
use crate::wire::{sealed, Envelope, EnvelopeView};
use vstd::prelude::*;

verus! {

/// The name under which the native side answers.
pub open spec fn command_name() -> Seq<char> {
    "process_message"@
}

/// The name of the one argument of the call.
pub open spec fn argument_name() -> Seq<char> {
    "message"@
}

/// The content of every reply.
pub open spec fn reply_content() -> Seq<char> {
    "something"@
}

/// A call to the native side: the command, and one named argument that
/// carries the message.
#[derive(Debug)]
pub struct Request {
    pub command: String,
    pub argument: String,
    pub message: Envelope,
}

/// The three parts of a request.
pub struct RequestView {
    pub command: Seq<char>,
    pub argument: Seq<char>,
    pub message: EnvelopeView,
}

impl View for Request {
    type V = RequestView;

    open spec fn view(&self) -> RequestView {
        RequestView { command: self.command@, argument: self.argument@, message: self.message@ }
    }
}

/// The call that carries a given message.
pub open spec fn request_of(message: MessageView) -> RequestView {
    RequestView {
        command: command_name(),
        argument: argument_name(),
        message: sealed(message),
    }
}

/// Frames the call that hands a message to the native side.
pub fn request_for(message: &Message) -> (request: Request)
    ensures
        request@ == request_of(message@),
{
    Request {
        command: "process_message".to_owned(),
        argument: "message".to_owned(),
        message: message.to_wire(),
    }
}

/// The reply that carries the identifier `id`: written by `Ai`, saying
/// `something`. Nothing of the request is in it.
pub open spec fn reply_of(id: u128) -> MessageView {
    MessageView { role: Role::Ai, content: reply_content(), uuid: id }
}

/// Builds the reply around the identifier that was drawn for it. The reply
/// is the same for every request.
pub fn reply_with(id: u128) -> (reply: Message)
    ensures
        reply@ == reply_of(id),
{
    Message::with_id(Role::Ai, "something".to_owned(), id)
}

/// The native side's answer to a message. Whatever the message says, an
/// identifier is drawn and the answer is what [`reply_with`] builds round
/// it: written by `Ai`, saying `something`.
pub fn process_message(message: Message) -> (reply: Message)
    ensures
        reply@ == reply_of(reply@.uuid),
        has_v7_layout(reply@.uuid),
{
    reply_with(fresh())
}

/// Two replies compare as their identifiers do: role and content being the
/// same in every reply, the reply with the later identifier sorts after.
pub proof fn lemma_replies_sort_by_identifier(first: u128, second: u128)
    ensures
        message_order(reply_of(first), reply_of(second)) == id_order(first, second),
{
    lemma_equal_texts(reply_content(), reply_content());
}

} // verus!
