//! The domain message types a caller hands to a provider: role-tagged
//! messages whose parts are text, images, audio or raw blobs.

use vstd::prelude::*;

verus! {

/// A typed binary payload, base64-encoded with a MIME type.
#[derive(Debug, Clone, PartialEq, Eq)]
pub struct Blob {
    pub mime_type: String,
    pub data: String,
}

/// One part of a detailed message.
#[derive(Debug, Clone, PartialEq, Eq)]
pub enum LlmMessagePart {
    Text { text: String },
    Image(ImageMessagePart),
    Audio { data: String, format: MediaFormat },
    Blob(Blob),
}

/// An image, either inline as base64 data or by reference to a URL.
#[derive(Debug, Clone, PartialEq, Eq)]
pub enum ImageMessagePart {
    Base64 { data: String, media_type: String },
    Url { url: String },
}

/// The audio formats a message may carry.
#[derive(Debug, Clone, Copy, PartialEq, Eq)]
pub enum MediaFormat {
    Wav,
    Mp3,
}

impl MediaFormat {
    /// The MIME type of this format.
    pub fn as_str(&self) -> (r: &'static str)
        ensures
            *self is Wav ==> r@ == "audio/wav"@,
            *self is Mp3 ==> r@ == "audio/mpeg"@,
    {
        match self {
            MediaFormat::Wav => "audio/wav",
            MediaFormat::Mp3 => "audio/mpeg",
        }
    }
}

/// Who a message is attributed to.
#[derive(Debug, Clone, Copy, PartialEq, Eq)]
pub enum Role {
    User,
    Model,
}

impl Role {
    /// The wire name of the role.
    pub fn as_str(&self) -> (r: &'static str)
        ensures
            *self is User ==> r@ == "user"@,
            *self is Model ==> r@ == "model"@,
    {
        match self {
            Role::User => "user",
            Role::Model => "model",
        }
    }
}

/// One message: either plain text or a list of typed parts.
#[derive(Debug, Clone, PartialEq, Eq)]
pub enum LlmMessage {
    Text { role: Role, text: String },
    Detailed { role: Role, parts: Vec<LlmMessagePart> },
}

/// An ordered conversation of messages.
#[derive(Debug, Clone, PartialEq, Eq)]
pub struct LlmMessages(pub Vec<LlmMessage>);

impl Default for LlmMessages {
    /// An empty conversation.
    fn default() -> (r: Self)
        ensures
            r.0@ == Seq::<LlmMessage>::empty(),
    {
        LlmMessages(Vec::new())
    }
}

} // verus!
