//! Client side of a bridge to a running application's remote-debugging interface.
//!
//! The library decides; its caller acts. Finding the control channel's address
//! ([`discoverer`], [`discovery`]), one evaluation on the channel ([`session`],
//! [`request`], [`response`]), what to show for an answer ([`format`]) and the
//! interactive loop ([`repl`]) are machines and functions on plain values: the caller
//! performs the requests, waits, reads and writes that they ask for and hands back what
//! came of them. Every function here is verified against its contract, and the rules that
//! relate them are stated as proof functions beside them.

pub mod decimal;
pub mod discoverer;
pub mod discovery;
pub mod failure;
pub mod format;
pub mod json;
pub mod launch;
pub mod line;
pub mod repl;
pub mod request;
pub mod response;
pub mod session;
