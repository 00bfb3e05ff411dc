//! HTTP error shapes and URL joining for the JSON APIs.
//!
//! Bearer keys are passed per call and never appear in errors. The calls
//! themselves are made outside this library.
use vstd::prelude::*;
use vstd::string::*;
use crate::text::{decimal, decimal_text, trim_end, trim_end_len, trim_start, trim_start_index};

verus! {

/// HTTP failure without leaking the bearer key.
#[derive(Debug, Clone, PartialEq, Eq)]
pub enum HttpError {
    /// Transport failure (DNS, TLS, timeout, connection).
    Transport(String),
    /// Non-2xx status with body preview (key never included).
    Status(u16, String),
    /// Response body was not valid JSON.
    Json(String),
}

impl HttpError {
    /// The text the error displays.
    pub open spec fn text(self) -> Seq<char> {
        match self {
            HttpError::Transport(msg) => "transport error: "@ + msg@,
            HttpError::Status(code, body) => "http "@ + decimal(code as nat) + ": "@ + body@,
            HttpError::Json(msg) => "invalid json: "@ + msg@,
        }
    }

    /// The display text of the error.
    pub fn message(&self) -> (r: String)
        ensures
            r@ == self.text(),
    {
        match self {
            HttpError::Transport(msg) => String::from_str("transport error: ").concat(msg.as_str()),
            HttpError::Status(code, body) => {
                let mut s = String::from_str("http ");
                let digits = decimal_text(*code as u64);
                s.append(digits.as_str());
                s.append(": ");
                s.append(body.as_str());
                s
            },
            HttpError::Json(msg) => String::from_str("invalid json: ").concat(msg.as_str()),
        }
    }
}

/// How many characters of an error body a `Status` error keeps.
pub const BODY_PREVIEW_CHARS: usize = 300;

/// The `Status` error for a non-2xx reply: the code and the first 300
/// characters of the body.
pub fn status_error(code: u16, body: &str) -> (e: HttpError)
    ensures
        e matches HttpError::Status(c, preview) && c == code && preview@ == body@.take(
            if body@.len() < 300 {
                body@.len() as int
            } else {
                300
            },
        ),
{
    let n = body.unicode_len();
    let keep = if n < BODY_PREVIEW_CHARS {
        n
    } else {
        BODY_PREVIEW_CHARS
    };
    let preview = String::from_str(body.substring_char(0, keep));
    assert(body@.subrange(0, keep as int) =~= body@.take(keep as int));
    HttpError::Status(code, preview)
}

/// `base` and `path` joined by exactly one `/`: trailing slashes of the base
/// and leading slashes of the path are dropped first.
pub open spec fn joined(base: Seq<char>, path: Seq<char>) -> Seq<char> {
    trim_end(base, '/') + seq!['/'] + trim_start(path, '/')
}

/// Join a base URL and path without doubling slashes.
pub fn join(base: &str, path: &str) -> (r: String)
    ensures
        r@ == joined(base@, path@),
{
    let e = trim_end_len(base, '/');
    let b = trim_start_index(path, '/');
    let n = path.unicode_len();
    let mut r = String::from_str(base.substring_char(0, e));
    r.append("/");
    r.append(path.substring_char(b, n));
    proof {
        reveal_strlit("/");
        assert(base@.subrange(0, e as int) =~= base@.take(e as int));
        assert(path@.subrange(b as int, n as int) =~= path@.skip(b as int));
    }
    r
}

proof fn lemma_trim_end_clean(s: Seq<char>, c: char)
    ensures
        trim_end(s, c).len() == 0 || trim_end(s, c).last() != c,
    decreases s.len(),
{
    if s.len() > 0 && s.last() == c {
        lemma_trim_end_clean(s.drop_last(), c);
    }
}

proof fn lemma_trim_start_clean(s: Seq<char>, c: char)
    ensures
        trim_start(s, c).len() == 0 || trim_start(s, c)[0] != c,
    decreases s.len(),
{
    if s.len() > 0 && s[0] == c {
        lemma_trim_start_clean(s.drop_first(), c);
    }
}

/// Joining never doubles the slash at the seam: extra slashes on either
/// side change nothing, and the seam holds exactly one `/`.
pub proof fn law_join_single_slash(base: Seq<char>, path: Seq<char>)
    ensures
        joined(base.push('/'), path) == joined(base, path),
        joined(base, seq!['/'] + path) == joined(base, path),
        joined(base, path)[trim_end(base, '/').len() as int] == '/',
        trim_end(base, '/').len() == 0 || trim_end(base, '/').last() != '/',
        trim_start(path, '/').len() == 0 || trim_start(path, '/')[0] != '/',
{
    assert(base.push('/').drop_last() =~= base);
    assert((seq!['/'] + path).drop_first() =~= path);
    lemma_trim_end_clean(base, '/');
    lemma_trim_start_clean(path, '/');
}

} // verus!
