//! The execution duality: one call site that yields either a single
//! buffered output or a live stream of partial outputs, chosen by a flag at
//! call time.

use vstd::prelude::*;
use crate::traits::LlmClient;

verus! {

/// Either one complete value or a handle to a stream of partial values.
#[derive(Debug, Clone, Copy, PartialEq, Eq)]
pub enum MaybeStream<T, ST> {
    Static(T),
    Stream(ST),
}

impl<T, ST> MaybeStream<T, ST> {
    /// Whether this is the buffered variant.
    pub fn is_static(&self) -> (r: bool)
        ensures
            r == (*self is Static),
    {
        match self {
            MaybeStream::Static(_) => true,
            MaybeStream::Stream(_) => false,
        }
    }

    /// Whether this is the streaming variant.
    pub fn is_stream(&self) -> (r: bool)
        ensures
            r == (*self is Stream),
    {
        match self {
            MaybeStream::Static(_) => false,
            MaybeStream::Stream(_) => true,
        }
    }

    /// The buffered value; callers establish the variant first.
    pub fn unwrap_static(self) -> (r: T)
        requires
            self is Static,
        ensures
            r == self->Static_0,
    {
        match self {
            MaybeStream::Static(value) => value,
            MaybeStream::Stream(_) => unreached(),
        }
    }

    /// The stream handle; callers establish the variant first.
    pub fn unwrap_stream(self) -> (r: ST)
        requires
            self is Stream,
        ensures
            r == self->Stream_0,
    {
        match self {
            MaybeStream::Static(_) => unreached(),
            MaybeStream::Stream(stream) => stream,
        }
    }
}

/// Wraps the outcome of a buffered exchange: a success becomes the
/// `Static` variant untouched, a failure passes through unchanged.
pub fn wrap_static<T, ST, E>(result: Result<T, E>) -> (r: Result<MaybeStream<T, ST>, E>)
    ensures
        result matches Ok(v) ==> r matches Ok(m) && m == MaybeStream::<T, ST>::Static(v),
        result matches Err(e) ==> r matches Err(e2) && e2 == e,
{
    match result {
        Ok(value) => Ok(MaybeStream::Static(value)),
        Err(error) => Err(error),
    }
}

/// Wraps the outcome of opening a stream: a success becomes the `Stream`
/// variant untouched, a failure passes through unchanged.
pub fn wrap_stream<T, ST, E>(result: Result<ST, E>) -> (r: Result<MaybeStream<T, ST>, E>)
    ensures
        result matches Ok(s) ==> r matches Ok(m) && m == MaybeStream::<T, ST>::Stream(s),
        result matches Err(e) ==> r matches Err(e2) && e2 == e,
{
    match result {
        Ok(stream) => Ok(MaybeStream::Stream(stream)),
        Err(error) => Err(error),
    }
}

/// A unified interface over one remote client: both execution paths through
/// one call site.
#[derive(Debug, Clone, Copy, PartialEq, Eq)]
pub struct LlmProvider<T> {
    pub inner: T,
}

impl<T: LlmClient> LlmProvider<T> {
    /// Wraps a client.
    pub fn new(inner: T) -> (r: Self)
        ensures
            r.inner == inner,
    {
        Self { inner }
    }

    /// Performs one exchange, buffered or streaming as `stream` says.
    ///
    /// On success the variant follows the flag exactly: `stream` yields
    /// `Stream` and holds the untouched sequence handle, `!stream` yields
    /// `Static` and holds the untouched output; the two paths never cross.
    /// A failure of the chosen capability passes through unchanged.
    pub fn generate(&self, input: T::Input, stream: bool) -> (r: Result<
        MaybeStream<T::Output, T::ResponseStream>,
        T::Error,
    >)
        ensures
            r matches Ok(m) ==> (m is Stream <==> stream),
            r matches Ok(m) ==> (m is Static <==> !stream),
    {
        if stream {
            wrap_stream(self.inner.stream_chat_completion(input))
        } else {
            wrap_static(self.inner.chat_completion(input))
        }
    }
}

} // verus!
