//! Natural-language grep: the verified core.
//!
//! A description of a search intent is sent to a remote translation service,
//! the answer is taken as the text of a regular expression, compiled, and the
//! compiled pattern is applied to a stream of lines. This crate holds every
//! stage except the ones that touch the outside world: the network call, the
//! credential file and the standard streams are the caller's business and
//! reach the library as plain values.

pub mod credential;
pub mod error;
pub mod extract;
pub mod filter;
pub mod pattern;
pub mod pipeline;
pub mod prompt;
