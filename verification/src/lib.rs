//! The message model of a small chat front end and the rules of its exchange
//! with the native side: who wrote a message, how it is identified, how it
//! crosses the boundary as text, and what a submission does to the
//! conversation on screen.

pub mod conversation;
pub mod exchange;
pub mod history;
pub mod identifier;
pub mod message;
pub mod order;
pub mod render;
pub mod role;
pub mod session;
pub mod text;
pub mod wire;
