//! Talking to a child process over its standard pipes, with optional limits on
//! how much of its output is kept.
//!
//! The library decides; it performs no input or output itself. A conversation
//! is a [`communicate::Communication`]: it names the next action to perform,
//! is told what came of it, and names the next one, until it hands out what
//! the child wrote to its standard output and standard error.

pub mod capture;
pub mod client;
pub mod client_laws;
pub mod communicate;
pub mod communicate_laws;

pub use client::SubprocessClient;
pub use communicate::subprocess_communicate;
