//! Inline chat-bot query engine for two blockchain commands.
//!
//! The library holds the decision logic of a long-running bridge process:
//! it parses a raw inline query into a [`command::Command`], plans what a
//! handler must do for it ([`handler::plan`]), renders the replies that
//! embed what the blockchain collaborator returned, and drives the update
//! loop's state machine ([`session::loop_step`]). The chat-platform and
//! blockchain transports live outside the library and hand it plain values.

pub mod address;
pub mod command;
pub mod handler;
pub mod session;
