//! What the front end keeps for one session: the conversation and the line
//! being typed. Two things happen to it: a line is submitted, and the
//! outcome of an exchange arrives.

use crate::conversation::Conversation;
use crate::identifier::{fresh, has_v7_layout};
use crate::message::{Message, MessageView};
use crate::role::Role;
use crate::text::{blank, lemma_trimmed_is_empty_iff_blank, trim, trimmed};
use crate::wire::{opened, Envelope, EnvelopeView, ExchangeError};
use vstd::prelude::*;

verus! {

/// The state of a session.
#[derive(Debug)]
pub struct Session {
    conversation: Conversation,
    input: String,
}

/// What a session holds: the messages shown and the text in the input field.
pub struct SessionView {
    pub messages: Seq<MessageView>,
    pub input: Seq<char>,
}

impl View for Session {
    type V = SessionView;

    closed spec fn view(&self) -> SessionView {
        SessionView { messages: self.conversation@, input: self.input@ }
    }
}

/// The message that a submitted line becomes: written by `User`, saying the
/// line without the white space round it.
pub open spec fn user_message(line: Seq<char>, id: u128) -> MessageView {
    MessageView { role: Role::User, content: trimmed(line), uuid: id }
}

/// The session after its line was submitted and, where it was not blank,
/// became a message with the identifier `id`. The input field is empty in
/// either case; a blank line leaves the conversation as it was.
pub open spec fn after_submit(before: SessionView, id: u128) -> SessionView {
    if blank(before.input) {
        SessionView { messages: before.messages, input: Seq::empty() }
    } else {
        SessionView {
            messages: before.messages.push(user_message(before.input, id)),
            input: Seq::empty(),
        }
    }
}

/// The session after a reply was appended.
pub open spec fn after_reply(before: SessionView, reply: MessageView) -> SessionView {
    SessionView { messages: before.messages.push(reply), input: before.input }
}

/// What arrives when an exchange ends, with the texts of the envelope as
/// sequences of characters.
pub open spec fn outcome_view(outcome: Result<Envelope, ExchangeError>) -> Result<
    EnvelopeView,
    ExchangeError,
> {
    match outcome {
        Ok(envelope) => Ok(envelope@),
        Err(error) => Err(error),
    }
}

/// The session after the outcome of an exchange arrived: a reply that opens
/// as a message is appended, anything else changes nothing.
pub open spec fn after_delivery(
    before: SessionView,
    outcome: Result<EnvelopeView, ExchangeError>,
) -> SessionView {
    match outcome {
        Ok(envelope) => match opened(envelope) {
            Some(reply) => after_reply(before, reply),
            None => before,
        },
        Err(_) => before,
    }
}

impl Session {
    /// A session with an empty conversation and an empty input field.
    pub fn new() -> (session: Session)
        ensures
            session@.messages == Seq::<MessageView>::empty(),
            session@.input == Seq::<char>::empty(),
    {
        Session { conversation: Conversation::new(), input: String::new() }
    }

    /// The conversation so far.
    pub fn conversation(&self) -> (conversation: &Conversation)
        ensures
            conversation@ == self@.messages,
    {
        &self.conversation
    }

    /// The text in the input field.
    pub fn input(&self) -> (text: &str)
        ensures
            text@ == self@.input,
    {
        self.input.as_str()
    }

    /// Puts what was typed into the input field.
    pub fn set_input(&mut self, text: &str)
        ensures
            final(self)@.input == text@,
            final(self)@.messages == old(self)@.messages,
    {
        self.input = text.to_owned();
    }

    /// Empties the input field and hands out the line that stood in it,
    /// without the white space round it, unless it was blank.
    fn take_line(&mut self) -> (line: Option<String>)
        ensures
            final(self)@.input == Seq::<char>::empty(),
            final(self)@.messages == old(self)@.messages,
            blank(old(self)@.input) ==> line is None,
            !blank(old(self)@.input) ==> (line matches Some(text) && text@ == trimmed(
                old(self)@.input,
            )),
    {
        let content = trim(self.input.as_str());
        proof {
            lemma_trimmed_is_empty_iff_blank(self.input@);
        }
        self.input = String::new();
        if content.as_str().is_empty() {
            None
        } else {
            Some(content)
        }
    }

    /// Appends the user's message with the given content and identifier and
    /// hands out a copy of it to be exchanged.
    fn post(&mut self, content: String, id: u128) -> (message: Message)
        ensures
            message@ == (MessageView { role: Role::User, content: content@, uuid: id }),
            final(self)@.messages == old(self)@.messages.push(message@),
            final(self)@.input == old(self)@.input,
    {
        let message = Message::with_id(Role::User, content, id);
        self.conversation.append(message.clone());
        message
    }

    /// Submits the line in the input field, with `id` as the identifier of
    /// the message it becomes. A blank line is dropped: nothing is appended
    /// and nothing is to be exchanged. Any other line is appended as the
    /// user's message, and the message is handed out to be exchanged. The
    /// input field is emptied either way.
    pub fn submit_with(&mut self, id: u128) -> (request: Option<Message>)
        ensures
            final(self)@ == after_submit(old(self)@, id),
            blank(old(self)@.input) ==> request is None,
            !blank(old(self)@.input) ==> (request matches Some(m) && m@ == user_message(
                old(self)@.input,
                id,
            )),
    {
        match self.take_line() {
            None => None,
            Some(content) => Some(self.post(content, id)),
        }
    }

    /// Submits the line in the input field. It does what [`Session::submit_with`]
    /// does, with a new identifier that is made only where the line is not
    /// blank.
    pub fn submit(&mut self) -> (request: Option<Message>)
        ensures
            final(self)@.input == Seq::<char>::empty(),
            blank(old(self)@.input) ==> request is None && final(self)@.messages == old(
                self,
            )@.messages,
            !blank(old(self)@.input) ==> (request matches Some(m) && has_v7_layout(m@.uuid) && m@
                == user_message(old(self)@.input, m@.uuid) && final(self)@ == after_submit(
                old(self)@,
                m@.uuid,
            )),
    {
        match self.take_line() {
            None => None,
            Some(content) => Some(self.post(content, fresh())),
        }
    }

    /// Takes in the outcome of an exchange. A reply that opens as a message
    /// is appended. A reply that does not, or a failed call, changes nothing
    /// and is reported. The input field is never touched.
    pub fn deliver(&mut self, outcome: Result<Envelope, ExchangeError>) -> (done: Result<
        (),
        ExchangeError,
    >)
        ensures
            final(self)@ == after_delivery(old(self)@, outcome_view(outcome)),
            match outcome {
                Ok(envelope) => match opened(envelope@) {
                    Some(reply) => done is Ok && final(self)@ == after_reply(old(self)@, reply),
                    None => done == Err::<(), ExchangeError>(ExchangeError::SerializationError)
                        && final(self)@ == old(self)@,
                },
                Err(error) => done == Err::<(), ExchangeError>(error) && final(self)@ == old(
                    self,
                )@,
            },
    {
        match outcome {
            Ok(envelope) => match Message::from_wire(&envelope) {
                Ok(reply) => {
                    self.conversation.append(reply);
                    Ok(())
                },
                Err(error) => Err(error),
            },
            Err(error) => Err(error),
        }
    }
}

} // verus!
