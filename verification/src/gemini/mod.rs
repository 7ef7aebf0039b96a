//! The Gemini side of the library: request shapes, the streamed-response
//! decoder, and endpoint construction.

pub mod decode;
pub mod impls;
pub mod types;

use vstd::prelude::*;
use vstd::string::StringExecFns;
use crate::error::{LlmError, LlmErrorType};
use crate::LlmResult;

verus! {

/// The base of every Gemini endpoint.
pub const GEMINI_BASE_URL: &'static str = "https://generativelanguage.googleapis.com/v1beta";

/// The path suffix of the streaming endpoint.
pub const GEMINI_STREAM_ENDPOINT: &'static str = ":streamGenerateContent";

/// The path suffix of the buffered endpoint.
pub const GEMINI_ENDPOINT: &'static str = ":generateContent";

/// The models a client can be pointed at.
#[derive(Debug, Clone, Copy, PartialEq, Eq)]
pub enum GeminiModel {
    Gemini2Flash,
    Gemini2FlashLite,
}

impl GeminiModel {
    /// The model's path segment in an endpoint URL.
    pub fn as_str(&self) -> (r: &'static str)
        ensures
            *self is Gemini2Flash ==> r@ == "models/gemini-2.0-flash"@,
            *self is Gemini2FlashLite ==> r@ == "models/gemini-2.0-flash-lite-preview-02-05"@,
    {
        match self {
            GeminiModel::Gemini2Flash => "models/gemini-2.0-flash",
            GeminiModel::Gemini2FlashLite => "models/gemini-2.0-flash-lite-preview-02-05",
        }
    }

    /// The model's path segment, as the contracts speak of it.
    pub open spec fn spec_str(self) -> Seq<char> {
        if self is Gemini2Flash {
            "models/gemini-2.0-flash"@
        } else {
            "models/gemini-2.0-flash-lite-preview-02-05"@
        }
    }
}

#[verifier::external_type_specification]
#[verifier::external_body]
pub struct ExUrl(url::Url);

/// Whether a text parses as a URL; a function of the text alone.
pub uninterp spec fn url_ok(text: Seq<char>) -> bool;

/// Relies on `url::Url::parse`: it returns `Ok` exactly when the text parses
/// as a URL, and whether it does depends on the text alone.
#[verifier::external_body]
fn parse_url(text: &str) -> (r: Result<url::Url, String>)
    ensures
        r is Ok <==> url_ok(text@),
{
    url::Url::parse(text).map_err(|error| error.to_string())
}

/// The query string appended to an endpoint URL: the caller's extra query
/// parameters, when there are any, then the API key.
pub open spec fn query_text(key: Seq<char>, extra_query: Option<&str>) -> Seq<char> {
    match extra_query {
        Some(extra) => "?"@ + extra@ + "&key="@ + key,
        None => "?key="@ + key,
    }
}

/// The full text of an endpoint URL for a model, an endpoint suffix and a
/// query.
pub open spec fn endpoint_text(
    model: GeminiModel,
    key: Seq<char>,
    endpoint: Seq<char>,
    extra_query: Option<&str>,
) -> Seq<char> {
    GEMINI_BASE_URL@ + "/"@ + model.spec_str() + endpoint + query_text(key, extra_query)
}

/// A client bound to one model and one API key.
///
/// The key is handed in at construction; a client is never built from
/// ambient process state.
#[derive(Debug, Clone, PartialEq, Eq)]
pub struct GeminiClient {
    pub model: GeminiModel,
    pub api_key: String,
}

impl GeminiClient {
    /// Builds a client for `model` from a configuration value that may be
    /// absent. An absent key is a configuration error, not a panic.
    pub fn new(model: GeminiModel, api_key: Option<String>) -> (r: LlmResult<Self>)
        ensures
            match api_key {
                Some(key) => r matches Ok(c) && c == (GeminiClient { model, api_key: key }),
                None => {
                    &&& r matches Err(e)
                    &&& e.error_type matches LlmErrorType::Empty { value, expected }
                    &&& value@ == "GEMINI_API_KEY"@
                    &&& expected@ == Seq::<String>::empty()
                },
            },
    {
        match api_key {
            Some(key) => Ok(Self { model, api_key: key }),
            None => Err(LlmError::new(LlmErrorType::Empty {
                value: String::from_str("GEMINI_API_KEY"),
                expected: Vec::new(),
            })),
        }
    }

    /// Builds the URL of one endpoint: the base, the model's path segment,
    /// the endpoint suffix, then the query with the client's key. The URL
    /// parses exactly when the assembled text does; a failure is reported as
    /// a parse error.
    pub fn endpoint_url(&self, endpoint: &str, extra_query: Option<&str>) -> (r: LlmResult<
        url::Url,
    >)
        ensures
            r is Ok <==> url_ok(endpoint_text(self.model, self.api_key@, endpoint@, extra_query)),
            r matches Err(e) ==> e.error_type is Parse,
    {
        let mut text = String::from_str(GEMINI_BASE_URL);
        text.append("/");
        text.append(self.model.as_str());
        text.append(endpoint);
        match extra_query {
            Some(extra) => {
                text.append("?");
                text.append(extra);
                text.append("&key=");
            },
            None => {
                text.append("?key=");
            },
        }
        text.append(self.api_key.as_str());
        proof {
            assert(text@ =~= endpoint_text(self.model, self.api_key@, endpoint@, extra_query));
        }
        match parse_url(text.as_str()) {
            Ok(url) => Ok(url),
            Err(message) => Err(LlmError::new(LlmErrorType::Parse(message))),
        }
    }
}

} // verus!
