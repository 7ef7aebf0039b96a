//! A typed client layer over a remote generative-language service.
//!
//! Three pieces work together:
//! - [`error`]: a closed error taxonomy with an annotation chain that keeps
//!   every message and the original cause ([`error::LlmError`]);
//! - a streamed-response decoder and request shapes for the remote API;
//! - a provider that returns either a buffered result or a streaming handle.
//!
//! HTTP transport itself lives outside this crate; the types here hand a
//! transport everything it needs and decode everything it returns.

pub use provider::{LlmProvider, MaybeStream};

pub mod error;
pub mod gemini;
pub mod json;
pub mod provider;
pub mod text;
pub mod traits;
pub mod types;
pub mod utils;

use vstd::prelude::*;

verus! {

/// Shorthand for results whose error is the crate's [`error::LlmError`].
pub type LlmResult<T> = core::result::Result<T, error::LlmError>;

} // verus!
