//! Conversions from the domain message types into the Gemini request shapes.

use vstd::prelude::*;
use vstd::string::StringExecFns;
use crate::gemini::types::{GeminiBlob, GeminiContent, GeminiFileData, GeminiPart, GeminiRequest};
use crate::types::{ImageMessagePart, LlmMessage, LlmMessagePart, LlmMessages, MediaFormat};

verus! {

/// How one domain message part maps to a Gemini part: text stays text, a
/// blob and an inline image become inline data, a URL image becomes a file
/// reference with a wildcard image MIME type, and audio becomes inline data
/// under its format's MIME type.
pub open spec fn part_maps_to(part: LlmMessagePart, r: GeminiPart) -> bool {
    match part {
        LlmMessagePart::Text { text } => r == (GeminiPart::Text { text }),
        LlmMessagePart::Blob(blob) => r == (GeminiPart::InlineData {
            inline_data: GeminiBlob { mime_type: blob.mime_type, data: blob.data },
        }),
        LlmMessagePart::Image(img) => match img {
            ImageMessagePart::Base64 { data, media_type } => r == (GeminiPart::InlineData {
                inline_data: GeminiBlob { mime_type: media_type, data },
            }),
            ImageMessagePart::Url { url } => {
                &&& r matches GeminiPart::FileData { file_data }
                &&& file_data.mime_type@ == "image/*"@
                &&& file_data.data == url
            },
        },
        LlmMessagePart::Audio { data, format } => {
            &&& r matches GeminiPart::InlineData { inline_data }
            &&& inline_data.data == data
            &&& inline_data.mime_type@ == (if format is Wav {
                "audio/wav"@
            } else {
                "audio/mpeg"@
            })
        },
    }
}

/// How one domain message maps to a conversation turn: the role is kept, a
/// text message becomes one text part, and a detailed message maps its parts
/// in order.
pub open spec fn message_maps_to(msg: LlmMessage, r: GeminiContent) -> bool {
    match msg {
        LlmMessage::Text { role, text } => {
            &&& r.role == Some(role)
            &&& r.parts@ == seq![GeminiPart::Text { text }]
        },
        LlmMessage::Detailed { role, parts } => {
            &&& r.role == Some(role)
            &&& r.parts@.len() == parts@.len()
            &&& forall|i: int|
                0 <= i < parts@.len() ==> part_maps_to(parts@[i], #[trigger] r.parts@[i])
        },
    }
}

/// How a conversation maps to the request's turns: element by element, in
/// order.
pub open spec fn messages_map_to(msgs: Seq<LlmMessage>, r: Seq<GeminiContent>) -> bool {
    &&& r.len() == msgs.len()
    &&& forall|i: int| 0 <= i < msgs.len() ==> message_maps_to(msgs[i], #[trigger] r[i])
}

impl GeminiPart {
    /// Converts one domain message part.
    pub fn from_part(part: LlmMessagePart) -> (r: GeminiPart)
        ensures
            part_maps_to(part, r),
    {
        match part {
            LlmMessagePart::Text { text } => GeminiPart::Text { text },
            LlmMessagePart::Blob(blob) => GeminiPart::InlineData {
                inline_data: GeminiBlob { mime_type: blob.mime_type, data: blob.data },
            },
            LlmMessagePart::Image(img) => match img {
                ImageMessagePart::Base64 { data, media_type } => GeminiPart::InlineData {
                    inline_data: GeminiBlob { mime_type: media_type, data },
                },
                ImageMessagePart::Url { url } => GeminiPart::FileData {
                    file_data: GeminiFileData {
                        mime_type: String::from_str("image/*"),
                        data: url,
                    },
                },
            },
            LlmMessagePart::Audio { data, format } => GeminiPart::InlineData {
                inline_data: GeminiBlob {
                    mime_type: String::from_str(format.as_str()),
                    data,
                },
            },
        }
    }
}

impl GeminiContent {
    /// Converts one domain message into a conversation turn.
    pub fn from_message(msg: LlmMessage) -> (r: GeminiContent)
        ensures
            message_maps_to(msg, r),
    {
        match msg {
            LlmMessage::Text { role, text } => {
                GeminiContent::new(Some(role), GeminiPart::Text { text })
            },
            LlmMessage::Detailed { role, parts } => {
                let ghost orig = parts@;
                let mut remaining = parts;
                let mut converted: Vec<GeminiPart> = Vec::new();
                while remaining.len() > 0
                    invariant
                        converted@.len() + remaining@.len() == orig.len(),
                        remaining@ == orig.skip(converted@.len() as int),
                        forall|i: int|
                            0 <= i < converted@.len() ==> part_maps_to(
                                orig[i],
                                #[trigger] converted@[i],
                            ),
                    decreases remaining.len(),
                {
                    let part = remaining.remove(0);
                    proof {
                        assert(orig.skip(converted@.len() as int)[0] == orig[converted@.len() as int]);
                        assert(remaining@ =~= orig.skip(converted@.len() + 1 as int));
                    }
                    converted.push(GeminiPart::from_part(part));
                }
                GeminiContent::from_iter(Some(role), converted)
            },
        }
    }
}

/// Converts a conversation into the request's ordered turns.
pub fn contents_from_messages(msgs: LlmMessages) -> (r: Vec<GeminiContent>)
    ensures
        messages_map_to(msgs.0@, r@),
{
    let ghost orig = msgs.0@;
    let mut remaining = msgs.0;
    let mut converted: Vec<GeminiContent> = Vec::new();
    while remaining.len() > 0
        invariant
            converted@.len() + remaining@.len() == orig.len(),
            remaining@ == orig.skip(converted@.len() as int),
            forall|i: int|
                0 <= i < converted@.len() ==> message_maps_to(orig[i], #[trigger] converted@[i]),
        decreases remaining.len(),
    {
        let msg = remaining.remove(0);
        proof {
            assert(orig.skip(converted@.len() as int)[0] == orig[converted@.len() as int]);
            assert(remaining@ =~= orig.skip(converted@.len() + 1 as int));
        }
        converted.push(GeminiContent::from_message(msg));
    }
    converted
}

impl GeminiRequest {
    /// Builds one request from a conversation.
    pub fn from_messages(msgs: LlmMessages) -> (r: GeminiRequest)
        ensures
            messages_map_to(msgs.0@, r.contents@),
    {
        GeminiRequest { contents: contents_from_messages(msgs) }
    }
}

} // verus!
