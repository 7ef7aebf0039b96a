//! The request shapes the Gemini API accepts.

use vstd::prelude::*;
use crate::types::Role;
use crate::utils::SingleOrMultiple;

verus! {

/// Who a Gemini message is attributed to.
#[derive(Debug, Clone, Copy, PartialEq, Eq)]
pub enum GeminiRole {
    User,
    Model,
}

impl GeminiRole {
    /// The wire name of the role.
    pub fn as_str(&self) -> (r: &'static str)
        ensures
            *self is User ==> r@ == "user"@,
            *self is Model ==> r@ == "model"@,
    {
        match self {
            GeminiRole::User => "user",
            GeminiRole::Model => "model",
        }
    }
}

/// One generate-content request: the ordered conversation so far.
#[derive(Debug, Clone, PartialEq, Eq)]
pub struct GeminiRequest {
    pub contents: Vec<GeminiContent>,
}

/// One conversation turn: an optional role and its parts.
#[derive(Debug, Clone, PartialEq, Eq)]
pub struct GeminiContent {
    pub role: Option<Role>,
    pub parts: Vec<GeminiPart>,
}

impl GeminiContent {
    /// A turn holding exactly one part.
    pub fn new(role: Option<Role>, part: GeminiPart) -> (r: Self)
        ensures
            r.role == role,
            r.parts@ == seq![part],
    {
        let mut parts = Vec::new();
        parts.push(part);
        Self { role, parts }
    }

    /// A turn holding the given parts in order.
    pub fn from_iter(role: Option<Role>, parts: Vec<GeminiPart>) -> (r: Self)
        ensures
            r.role == role,
            r.parts == parts,
    {
        Self { role, parts }
    }

    /// A roleless turn from one part or many.
    pub fn from_parts(value: SingleOrMultiple<GeminiPart>) -> (r: Self)
        ensures
            r.role is None,
            r.parts@ == value.as_seq(),
    {
        match value {
            SingleOrMultiple::Single(item) => Self::new(None, item),
            SingleOrMultiple::Multiple(items) => Self::from_iter(None, items),
        }
    }
}

/// One part of a conversation turn.
#[derive(Debug, Clone, PartialEq, Eq)]
pub enum GeminiPart {
    Text { text: String },
    InlineData { inline_data: GeminiBlob },
    FileData { file_data: GeminiFileData },
    ExecutableCode { executable_code: ExecutableCode },
    CodeExecutionResult { code_execution_result: CodeExecutionResult },
}

/// Inline binary data: a MIME type and base64url-encoded bytes.
#[derive(Debug, Clone, PartialEq, Eq)]
pub struct GeminiBlob {
    pub mime_type: String,
    pub data: String,
}

/// Data referenced by URL rather than carried inline.
#[derive(Debug, Clone, PartialEq, Eq)]
pub struct GeminiFileData {
    pub mime_type: String,
    pub data: String,
}

/// Code the model asks to run.
#[derive(Debug, Clone, PartialEq, Eq)]
pub struct ExecutableCode {
    pub language: GeminiCodeLanguage,
    pub code: String,
}

/// What running requested code produced.
#[derive(Debug, Clone, PartialEq, Eq)]
pub struct CodeExecutionResult {
    pub outcome: GeminiCodeOutcome,
    pub output: String,
}

/// How a code execution ended.
#[derive(Debug, Clone, Copy, PartialEq, Eq)]
pub enum GeminiCodeOutcome {
    OutcomeUnspecified,
    OutcomeOk,
    OutcomeFailed,
    OutcomeDeadlineExceeded,
}

/// The languages executable code may be written in.
#[derive(Debug, Clone, Copy, PartialEq, Eq)]
pub enum GeminiCodeLanguage {
    Python,
}

} // verus!
