//! The capability a remote client must offer: one buffered exchange and one
//! streaming exchange over the same input type.

use vstd::prelude::*;

verus! {

/// A remote-call capability.
///
/// Implementations perform the actual exchange — over whatever transport —
/// so nothing is promised here about their results; the provider built on
/// top states what it does with whatever comes back.
pub trait LlmClient {
    /// The implementation's failure type.
    type Error;

    /// What one exchange consumes.
    type Input;

    /// One fully materialized output.
    type Output;

    /// One partial output, as the stream delivers it.
    type StreamedOutput;

    /// The handle to a live, in-order sequence of partial outputs.
    type ResponseStream;

    /// The implementation's configuration.
    type Config;

    /// Performs one buffered exchange.
    fn chat_completion(&self, messages: Self::Input) -> Result<Self::Output, Self::Error>;

    /// Opens one streaming exchange and hands back the sequence handle
    /// without consuming any element.
    fn stream_chat_completion(&self, messages: Self::Input) -> Result<
        Self::ResponseStream,
        Self::Error,
    >;
}

} // verus!
