use tosic_llm::error::LlmError;
use tosic_llm::traits::LlmClient;
use tosic_llm::{LlmProvider, MaybeStream};

/// A client whose exchanges succeed with fixed values.
struct FixedClient;

impl LlmClient for FixedClient {
    type Error = LlmError;
    type Input = String;
    type Output = String;
    type StreamedOutput = Vec<u8>;
    type ResponseStream = Vec<Result<Vec<u8>, LlmError>>;
    type Config = ();

    fn chat_completion(&self, messages: String) -> Result<String, LlmError> {
        Ok(format!("echo: {}", messages))
    }

    fn stream_chat_completion(
        &self,
        messages: String,
    ) -> Result<Vec<Result<Vec<u8>, LlmError>>, LlmError> {
        Ok(vec![Ok(messages.into_bytes())])
    }
}

/// A client whose exchanges always fail.
struct FailingClient;

impl LlmClient for FailingClient {
    type Error = String;
    type Input = u32;
    type Output = u32;
    type StreamedOutput = u32;
    type ResponseStream = Vec<u32>;
    type Config = ();

    fn chat_completion(&self, _messages: u32) -> Result<u32, String> {
        Err("buffered failed".to_string())
    }

    fn stream_chat_completion(&self, _messages: u32) -> Result<Vec<u32>, String> {
        Err("stream failed".to_string())
    }
}

#[test]
fn buffered_flag_yields_static() {
    let provider = LlmProvider::new(FixedClient);
    let r = provider.generate("hi".to_string(), false).unwrap();
    assert!(r.is_static());
    assert!(!r.is_stream());
    assert_eq!(r.unwrap_static(), "echo: hi");
}

#[test]
fn streaming_flag_yields_stream() {
    let provider = LlmProvider::new(FixedClient);
    let r = provider.generate("hi".to_string(), true).unwrap();
    assert!(r.is_stream());
    assert!(!r.is_static());
    let chunks = r.unwrap_stream();
    assert_eq!(chunks.len(), 1);
    assert_eq!(chunks[0].as_ref().unwrap(), b"hi");
}

#[test]
fn failures_pass_through_unchanged() {
    let provider = LlmProvider::new(FailingClient);
    assert_eq!(provider.generate(1, false).unwrap_err(), "buffered failed");
    assert_eq!(provider.generate(1, true).unwrap_err(), "stream failed");
}

#[test]
fn maybe_stream_observers_agree() {
    let m: MaybeStream<u32, Vec<u32>> = MaybeStream::Static(5);
    assert!(m.is_static());
    assert_eq!(m.unwrap_static(), 5);
    let m: MaybeStream<u32, Vec<u32>> = MaybeStream::Stream(vec![1, 2]);
    assert!(m.is_stream());
    assert_eq!(m.unwrap_stream(), vec![1, 2]);
}
