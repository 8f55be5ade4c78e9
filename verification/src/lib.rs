//! Decision core of a script execution service.
//!
//! A request names one of a closed set of interpreters, a source text and an
//! input text. This library decides everything about such a request that does
//! not touch the operating system: where the source is kept, how the
//! interpreter is invoked, how long it may run, which step follows which
//! observation, and how the captured output becomes the caller's result.

pub mod language;
pub mod fault;
pub mod text;
pub mod outcome;
pub mod runner;
pub mod request;
