//! The streamed-response decoder: reconstructs text fragments from the byte
//! chunks of one streamed JSON array.
//!
//! The wire framing is a single top-level JSON array delivered chunk by
//! chunk: the first chunk is the opening marker `[`, the last is the closing
//! marker `]` or an empty chunk, and every interior chunk is one complete
//! JSON object, optionally prefixed by a `,` separator and whitespace. One
//! text fragment sits at a fixed path inside each interior object.

use vstd::prelude::*;
use vstd::string::StrSliceExecFns;
use crate::error::{LlmError, LlmErrorType};
use crate::json::{parse_json, json_doc, JsonValue};
use crate::text::{from_utf8_lossy, lossy_utf8};

verus! {

/// Whether the text is the opening-array marker.
pub open spec fn is_start_marker(s: Seq<char>) -> bool {
    s == seq!['[']
}

/// Whether the text is the closing-array marker or an empty chunk.
pub open spec fn is_end_marker(s: Seq<char>) -> bool {
    s == seq![']'] || s.len() == 0
}

/// The whitespace the framing may put after an element separator.
pub open spec fn is_json_ws(c: char) -> bool {
    c == ' ' || c == '\t' || c == '\n' || c == '\r'
}

/// The text with its leading whitespace removed.
pub open spec fn skip_ws(s: Seq<char>) -> Seq<char>
    decreases s.len(),
{
    if s.len() > 0 && is_json_ws(s[0]) {
        skip_ws(s.drop_first())
    } else {
        s
    }
}

/// The text with exactly one leading element separator, and the whitespace
/// after it, removed — when a separator is there at all.
pub open spec fn strip_separator(s: Seq<char>) -> Seq<char> {
    if s.len() > 0 && s[0] == ',' {
        skip_ws(s.drop_first())
    } else {
        s
    }
}

/// The text fragment at the fixed structural path inside one interior
/// object; `None` when any step of the path is missing or of the wrong kind.
pub open spec fn fragment_of(doc: JsonValue) -> Option<Seq<char>> {
    match doc.spec_get("candidates"@) {
        Some(candidates) => match candidates.spec_index(0) {
            Some(candidate) => match candidate.spec_get("content"@) {
                Some(content) => match content.spec_get("parts"@) {
                    Some(parts) => match parts.spec_index(0) {
                        Some(part) => match part.spec_get("text"@) {
                            Some(text) => match text.spec_as_str() {
                                Some(s) => Some(s@),
                                None => None,
                            },
                            None => None,
                        },
                        None => None,
                    },
                    None => None,
                },
                None => None,
            },
            None => None,
        },
        None => None,
    }
}

/// Walks the fixed structural path and hands back the fragment, when there
/// is one. A missing key or a wrong kind at any step is a valid
/// "no fragment" outcome, not an error.
pub fn extract_fragment(doc: &JsonValue) -> (r: Option<String>)
    ensures
        match r {
            Some(s) => fragment_of(*doc) == Some(s@),
            None => fragment_of(*doc) is None,
        },
{
    let candidates = match doc.get_key("candidates") {
        Some(v) => v,
        None => { return None },
    };
    let candidate = match candidates.get_index(0) {
        Some(v) => v,
        None => { return None },
    };
    let content = match candidate.get_key("content") {
        Some(v) => v,
        None => { return None },
    };
    let parts = match content.get_key("parts") {
        Some(v) => v,
        None => { return None },
    };
    let part = match parts.get_index(0) {
        Some(v) => v,
        None => { return None },
    };
    let text = match part.get_key("text") {
        Some(v) => v,
        None => { return None },
    };
    match text.as_text() {
        Some(s) => Some(s.clone()),
        None => None,
    }
}

/// Tests a character for the whitespace the framing allows after a
/// separator.
fn ws_char(c: char) -> (r: bool)
    ensures
        r == is_json_ws(c),
{
    c == ' ' || c == '\t' || c == '\n' || c == '\r'
}

/// The stateful decoder for one streamed response.
///
/// It records only whether the opening marker and the closing marker have
/// been seen; it does not police that data chunks arrive between them — a
/// caller that cares about out-of-protocol chunks checks the two flags.
#[derive(Debug)]
pub struct GeminiResponseParser {
    pub has_started: bool,
    pub has_finished: bool,
}

/// How one decode step relates the decoder's state, the chunk's text and the
/// step's outcome.
///
/// A marker only flips the matching flag and yields no fragment. Any other
/// chunk leaves the state alone; after separator stripping it must parse as
/// one JSON document — a parse failure surfaces as a
/// [`LlmErrorType::Json`] error — and the fragment at the fixed path, when
/// present, is the step's output.
pub open spec fn decode_step(
    pre: GeminiResponseParser,
    post: GeminiResponseParser,
    text: Seq<char>,
    r: Result<Option<String>, LlmError>,
) -> bool {
    &&& is_start_marker(text) ==> {
        &&& post == (GeminiResponseParser { has_started: true, has_finished: pre.has_finished })
        &&& r matches Ok(f) && f is None
    }
    &&& is_end_marker(text) ==> {
        &&& post == (GeminiResponseParser { has_started: pre.has_started, has_finished: true })
        &&& r matches Ok(f) && f is None
    }
    &&& !is_start_marker(text) && !is_end_marker(text) ==> {
        &&& post == pre
        &&& match json_doc(strip_separator(text)) {
            Ok(doc) => r matches Ok(f) && match f {
                Some(s) => fragment_of(doc) == Some(s@),
                None => fragment_of(doc) is None,
            },
            Err(m) => r matches Err(e) && e.error_type matches LlmErrorType::Json(d) && d@ == m,
        }
    }
}

/// Skipping runs past leading whitespace: in front of a text that does not
/// itself begin with whitespace, a whitespace run vanishes entirely.
proof fn lemma_skip_ws_run(w: Seq<char>, u: Seq<char>)
    requires
        forall|i: int| 0 <= i < w.len() ==> is_json_ws(#[trigger] w[i]),
        u.len() == 0 || !is_json_ws(u[0]),
    ensures
        skip_ws(w + u) == u,
    decreases w.len(),
{
    if w.len() == 0 {
        assert(w + u =~= u);
    } else {
        assert((w + u).drop_first() =~= w.drop_first() + u);
        lemma_skip_ws_run(w.drop_first(), u);
    }
}

/// Separator stripping recovers the bare chunk: one separator followed by
/// any whitespace run in front of a chunk that starts with neither strips
/// away exactly.
pub proof fn lemma_strip_separator_prefix(w: Seq<char>, u: Seq<char>)
    requires
        forall|i: int| 0 <= i < w.len() ==> is_json_ws(#[trigger] w[i]),
        u.len() == 0 || !is_json_ws(u[0]),
    ensures
        strip_separator(seq![','] + w + u) == u,
{
    let t = seq![','] + w + u;
    assert(t[0] == ',');
    assert(t.drop_first() =~= w + u);
    lemma_skip_ws_run(w, u);
}

/// Separator stripping loses no information: a data chunk prefixed by one
/// separator and a whitespace run takes exactly the decode step the bare
/// chunk takes.
pub proof fn lemma_separator_prefix_same_step(
    pre: GeminiResponseParser,
    post: GeminiResponseParser,
    w: Seq<char>,
    u: Seq<char>,
    r: Result<Option<String>, LlmError>,
)
    requires
        forall|i: int| 0 <= i < w.len() ==> is_json_ws(#[trigger] w[i]),
        u.len() > 0,
        !is_json_ws(u[0]),
        u[0] != ',',
        !is_start_marker(u),
        !is_end_marker(u),
        decode_step(pre, post, seq![','] + w + u, r),
    ensures
        decode_step(pre, post, u, r),
{
    let t = seq![','] + w + u;
    assert(t[0] == ',');
    assert(!is_start_marker(t)) by {
        if t == seq!['['] {
            assert(t[0] == '[');
        }
    }
    assert(!is_end_marker(t)) by {
        if t == seq![']'] {
            assert(t[0] == ']');
        }
    }
    lemma_strip_separator_prefix(w, u);
    assert(strip_separator(u) == u);
}

/// The decoder's flags never reset: once a marker has been seen, every later
/// chunk — marker, data or garbage — leaves the flag set. The decoder is
/// thus terminal once finished, and a caller that enforces the framing does
/// so by reading the flags.
pub proof fn lemma_flags_monotone(
    pre: GeminiResponseParser,
    post: GeminiResponseParser,
    text: Seq<char>,
    r: Result<Option<String>, LlmError>,
)
    requires
        decode_step(pre, post, text, r),
    ensures
        pre.has_started ==> post.has_started,
        pre.has_finished ==> post.has_finished,
{
}

impl GeminiResponseParser {
    /// A fresh decoder: no marker seen yet.
    pub fn new() -> (r: Self)
        ensures
            !r.has_started,
            !r.has_finished,
    {
        Self { has_started: false, has_finished: false }
    }

    /// Decodes one chunk, already decoded as text.
    pub fn parse_chunk_str(&mut self, text: &str) -> (r: Result<Option<String>, LlmError>)
        ensures
            decode_step(*old(self), *final(self), text@, r),
    {
        let len = text.unicode_len();

        if len == 1 && text.get_char(0) == '[' {
            self.has_started = true;
            proof {
                assert(text@ =~= seq!['[']);
            }
            return Ok(None);
        }
        if len == 0 || (len == 1 && text.get_char(0) == ']') {
            self.has_finished = true;
            proof {
                if len != 0 {
                    assert(text@ =~= seq![']']);
                }
            }
            return Ok(None);
        }
        proof {
            assert(!is_start_marker(text@)) by {
                if text@ == seq!['['] {
                    assert(text@[0] == '[');
                }
            }
            assert(!is_end_marker(text@)) by {
                if text@ == seq![']'] {
                    assert(text@[0] == ']');
                }
            }
        }

        let cleaned: &str = if text.get_char(0) == ',' {
            let mut i: usize = 1;
            while i < len && ws_char(text.get_char(i))
                invariant
                    1 <= i <= len,
                    len == text@.len(),
                    text@[0] == ',',
                    skip_ws(text@.skip(1)) == skip_ws(text@.skip(i as int)),
                decreases len - i,
            {
                proof {
                    assert(text@.skip(i as int)[0] == text@[i as int]);
                    assert(text@.skip(i as int).drop_first() =~= text@.skip(i + 1));
                }
                i += 1;
            }
            proof {
                if i < len {
                    assert(!is_json_ws(text@.skip(i as int)[0]));
                } else {
                    assert(text@.skip(i as int) =~= Seq::empty());
                }
                assert(skip_ws(text@.skip(i as int)) == text@.skip(i as int));
            }
            let rest = text.substring_char(i, len);
            proof {
                assert(rest@ =~= text@.skip(i as int));
                assert(text@.drop_first() =~= text@.skip(1));
                assert(rest@ == strip_separator(text@));
            }
            rest
        } else {
            proof {
                assert(text@.len() > 0);
                assert(text@ == strip_separator(text@));
            }
            text
        };

        match parse_json(cleaned) {
            Ok(doc) => Ok(extract_fragment(&doc)),
            Err(message) => Err(LlmError::new(LlmErrorType::Json(message))),
        }
    }

    /// Decodes one raw byte chunk: the bytes are first decoded as UTF-8 with
    /// lossy replacement — which never fails — and the text is then decoded
    /// as [`GeminiResponseParser::parse_chunk_str`] says.
    pub fn parse_chunk(&mut self, chunk: &[u8]) -> (r: Result<Option<String>, LlmError>)
        ensures
            decode_step(*old(self), *final(self), lossy_utf8(chunk@), r),
    {
        let text = from_utf8_lossy(chunk);
        self.parse_chunk_str(text.as_str())
    }
}

} // verus!
