//! The shape in which a message crosses the boundary between the front end
//! and the native side: three texts named `role`, `content` and `uuid`.

use crate::identifier::{
    hyphenated, lemma_hyphenated_read_back, parsed, read_any_form, write_hyphenated,
};
use crate::message::{Message, MessageView};
use crate::role::Role;
use vstd::prelude::*;

verus! {

/// A message as it is exchanged. `role` is `"User"` or `"Ai"`, `uuid` the
/// identifier written as text; nothing is checked until the envelope is
/// opened.
#[derive(Debug)]
pub struct Envelope {
    pub role: String,
    pub content: String,
    pub uuid: String,
}

/// The three texts of an envelope.
pub struct EnvelopeView {
    pub role: Seq<char>,
    pub content: Seq<char>,
    pub uuid: Seq<char>,
}

impl View for Envelope {
    type V = EnvelopeView;

    open spec fn view(&self) -> EnvelopeView {
        EnvelopeView { role: self.role@, content: self.content@, uuid: self.uuid@ }
    }
}

/// What can go wrong in an exchange. Neither ends the session.
#[derive(Debug, Clone, Copy, PartialEq, Eq, Structural)]
pub enum ExchangeError {
    /// What crossed the boundary does not have the shape of a message.
    SerializationError,
    /// The native side turned the request down.
    HandlerFailure,
}

/// The envelope that a message is sent in: the role by its name, the content
/// as it is, the identifier in the hyphenated form.
pub open spec fn sealed(message: MessageView) -> EnvelopeView {
    EnvelopeView {
        role: message.role.text(),
        content: message.content,
        uuid: hyphenated(message.uuid),
    }
}

/// The message that an envelope holds. It holds one where its role names a
/// role and its identifier is written in one of the accepted forms.
pub open spec fn opened(envelope: EnvelopeView) -> Option<MessageView> {
    match (Role::named(envelope.role), parsed(envelope.uuid)) {
        (Some(role), Some(uuid)) => Some(MessageView { role, content: envelope.content, uuid }),
        _ => None,
    }
}

/// The name of a role is read back as that role.
pub proof fn lemma_role_read_back(role: Role)
    ensures
        Role::named(role.text()) == Some(role),
{
    reveal_strlit("User");
    reveal_strlit("Ai");
    assert("User"@.len() != "Ai"@.len());
}

/// Sending a message and opening what arrives gives the same message: role,
/// content and identifier are all kept.
pub proof fn lemma_round_trip(message: MessageView)
    ensures
        opened(sealed(message)) == Some(message),
{
    lemma_role_read_back(message.role);
    lemma_hyphenated_read_back(message.uuid);
}

impl Message {
    /// Puts the message in the form in which it is exchanged.
    pub fn to_wire(&self) -> (envelope: Envelope)
        ensures
            envelope@ == sealed(self@),
    {
        Envelope {
            role: self.role.to_string(),
            content: self.content.clone(),
            uuid: write_hyphenated(self.uuid),
        }
    }

    /// Reads a message out of the form in which it is exchanged. The
    /// envelope is refused where its role is neither `"User"` nor `"Ai"` or
    /// its identifier is not written as one.
    pub fn from_wire(envelope: &Envelope) -> (message: Result<Message, ExchangeError>)
        ensures
            match opened(envelope@) {
                Some(held) => message matches Ok(m) && m@ == held,
                None => message == Err::<Message, ExchangeError>(
                    ExchangeError::SerializationError,
                ),
            },
    {
        let role = Role::from_text(envelope.role.as_str());
        let uuid = read_any_form(envelope.uuid.as_str());
        match (role, uuid) {
            (Some(role), Some(uuid)) => Ok(
                Message { role, content: envelope.content.clone(), uuid },
            ),
            _ => Err(ExchangeError::SerializationError),
        }
    }
}

} // verus!
