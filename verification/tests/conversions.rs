use tosic_llm::gemini::types::{GeminiBlob, GeminiContent, GeminiFileData, GeminiPart, GeminiRequest};
use tosic_llm::gemini::{GeminiClient, GeminiModel};
use tosic_llm::types::{
    Blob, ImageMessagePart, LlmMessage, LlmMessagePart, LlmMessages, MediaFormat, Role,
};
use tosic_llm::utils::SingleOrMultiple;

#[test]
fn text_part_stays_text() {
    let part = LlmMessagePart::Text { text: "hi".to_string() };
    assert_eq!(
        GeminiPart::from_part(part),
        GeminiPart::Text { text: "hi".to_string() }
    );
}

#[test]
fn blob_part_becomes_inline_data() {
    let part = LlmMessagePart::Blob(Blob {
        mime_type: "application/pdf".to_string(),
        data: "AAAA".to_string(),
    });
    assert_eq!(
        GeminiPart::from_part(part),
        GeminiPart::InlineData {
            inline_data: GeminiBlob {
                mime_type: "application/pdf".to_string(),
                data: "AAAA".to_string(),
            }
        }
    );
}

#[test]
fn inline_image_keeps_media_type() {
    let part = LlmMessagePart::Image(ImageMessagePart::Base64 {
        data: "QUJD".to_string(),
        media_type: "image/png".to_string(),
    });
    assert_eq!(
        GeminiPart::from_part(part),
        GeminiPart::InlineData {
            inline_data: GeminiBlob {
                mime_type: "image/png".to_string(),
                data: "QUJD".to_string(),
            }
        }
    );
}

#[test]
fn url_image_becomes_file_reference() {
    let part = LlmMessagePart::Image(ImageMessagePart::Url {
        url: "https://example.com/cat.png".to_string(),
    });
    assert_eq!(
        GeminiPart::from_part(part),
        GeminiPart::FileData {
            file_data: GeminiFileData {
                mime_type: "image/*".to_string(),
                data: "https://example.com/cat.png".to_string(),
            }
        }
    );
}

#[test]
fn audio_part_uses_format_mime_type() {
    let wav = LlmMessagePart::Audio { data: "UklGRg".to_string(), format: MediaFormat::Wav };
    assert_eq!(
        GeminiPart::from_part(wav),
        GeminiPart::InlineData {
            inline_data: GeminiBlob {
                mime_type: "audio/wav".to_string(),
                data: "UklGRg".to_string(),
            }
        }
    );
    let mp3 = LlmMessagePart::Audio { data: "SUQz".to_string(), format: MediaFormat::Mp3 };
    assert_eq!(
        GeminiPart::from_part(mp3),
        GeminiPart::InlineData {
            inline_data: GeminiBlob {
                mime_type: "audio/mpeg".to_string(),
                data: "SUQz".to_string(),
            }
        }
    );
}

#[test]
fn messages_convert_in_order() {
    let msgs = LlmMessages(vec![
        LlmMessage::Text { role: Role::User, text: "question".to_string() },
        LlmMessage::Detailed {
            role: Role::Model,
            parts: vec![
                LlmMessagePart::Text { text: "answer".to_string() },
                LlmMessagePart::Image(ImageMessagePart::Url {
                    url: "https://example.com/a.png".to_string(),
                }),
            ],
        },
    ]);
    let request = GeminiRequest::from_messages(msgs);
    assert_eq!(request.contents.len(), 2);
    assert_eq!(request.contents[0].role, Some(Role::User));
    assert_eq!(
        request.contents[0].parts,
        vec![GeminiPart::Text { text: "question".to_string() }]
    );
    assert_eq!(request.contents[1].role, Some(Role::Model));
    assert_eq!(request.contents[1].parts.len(), 2);
    assert_eq!(
        request.contents[1].parts[1],
        GeminiPart::FileData {
            file_data: GeminiFileData {
                mime_type: "image/*".to_string(),
                data: "https://example.com/a.png".to_string(),
            }
        }
    );
}

#[test]
fn content_constructors_keep_fields() {
    let c = GeminiContent::new(Some(Role::User), GeminiPart::Text { text: "x".to_string() });
    assert_eq!(c.role, Some(Role::User));
    assert_eq!(c.parts, vec![GeminiPart::Text { text: "x".to_string() }]);

    let c = GeminiContent::from_iter(None, vec![]);
    assert_eq!(c.role, None);
    assert!(c.parts.is_empty());

    let c = GeminiContent::from_parts(SingleOrMultiple::Single(GeminiPart::Text {
        text: "y".to_string(),
    }));
    assert_eq!(c.role, None);
    assert_eq!(c.parts.len(), 1);
}

#[test]
fn single_or_multiple_round_trip() {
    let one: SingleOrMultiple<u32> = SingleOrMultiple::from_single(3);
    assert_eq!(one.into_vec(), vec![3]);
    let many = SingleOrMultiple::from_iter(vec![1, 2, 3]);
    assert_eq!(many, SingleOrMultiple::Multiple(vec![1, 2, 3]));
    assert_eq!(many.into_vec(), vec![1, 2, 3]);
    let from_one: SingleOrMultiple<u32> = SingleOrMultiple::from(9);
    assert_eq!(from_one, SingleOrMultiple::Single(9));
}

#[test]
fn default_conversation_is_empty() {
    let msgs = LlmMessages::default();
    assert!(msgs.0.is_empty());
}

#[test]
fn model_and_role_wire_names() {
    assert_eq!(GeminiModel::Gemini2Flash.as_str(), "models/gemini-2.0-flash");
    assert_eq!(
        GeminiModel::Gemini2FlashLite.as_str(),
        "models/gemini-2.0-flash-lite-preview-02-05"
    );
    assert_eq!(Role::User.as_str(), "user");
    assert_eq!(Role::Model.as_str(), "model");
    assert_eq!(MediaFormat::Wav.as_str(), "audio/wav");
    assert_eq!(MediaFormat::Mp3.as_str(), "audio/mpeg");
}

#[test]
fn client_requires_a_key() {
    let err = GeminiClient::new(GeminiModel::Gemini2Flash, None).unwrap_err();
    assert!(err.render().contains("GEMINI_API_KEY"));
}

#[test]
fn endpoint_url_assembles_all_parts() {
    let client =
        GeminiClient::new(GeminiModel::Gemini2Flash, Some("secret123".to_string())).unwrap();
    let url = client.endpoint_url(":generateContent", None).unwrap();
    assert_eq!(
        url.as_str(),
        "https://generativelanguage.googleapis.com/v1beta/models/gemini-2.0-flash:generateContent?key=secret123"
    );
    let url = client
        .endpoint_url(":streamGenerateContent", Some("alt=sse"))
        .unwrap();
    assert_eq!(
        url.as_str(),
        "https://generativelanguage.googleapis.com/v1beta/models/gemini-2.0-flash:streamGenerateContent?alt=sse&key=secret123"
    );
}
