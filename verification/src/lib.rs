//! The message-handling core of a chat bot that relays what users write to a
//! language-model gateway: splitting a message into words, matching the words
//! against the command grammar, building the request for each command, and
//! choosing the reply for whatever the gateway answers.
//!
//! Nothing here performs I/O. The caller delivers events to
//! [`handler::Handler::step`] and carries out the action that comes back.

pub mod author;
pub mod command;
pub mod gateway;
pub mod handler;
pub mod image_model;
pub mod request;
pub mod tokenizer;
pub mod words;
