//! A client-side access layer for an OpenAI-compatible HTTP API family.
//! It authenticates requests, posts JSON or multipart payloads, and
//! normalizes every transport outcome — success body, HTTP error with body,
//! or network-level failure — into one uniform result type.

pub mod apis;
pub mod error;
pub mod json;
pub mod openai;
pub mod outcome;
pub mod requests;
pub mod transport;
