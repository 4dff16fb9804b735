//! Wrappers around the outside crates the host layer leans on: URL parsing
//! and joining, filesystem-path conversion, MD5, and the HTTP lookups used
//! while shaping a fetch response. Each wrapper's contract names what the
//! outside function yields; Verus believes the contract and the callers are
//! verified against it.

use vstd::prelude::*;

verus! {

/// What `url::Url::parse` makes of one input string: `Ok` holds the
/// canonical serialization of the parsed URL; `Err(None)` stands for a
/// relative reference that needs a base; `Err(Some(m))` for any other
/// parse failure, with the parser's message `m`.
pub uninterp spec fn url_parse_of(s: Seq<char>) -> Result<Seq<char>, Option<Seq<char>>>;

/// Outcome of parsing one string as an absolute URL.
pub enum UrlParseOutcome {
    /// The canonical serialization of the parsed URL.
    Parsed(String),
    /// The input is a relative reference and needs a base.
    NeedsBase,
    /// Any other parse failure, with the parser's message.
    Invalid(String),
}

/// Relies on `url::Url::parse`: the outcome is a function of the input alone.
#[verifier::external_body]
pub(crate) fn url_parse(s: &str) -> (r: UrlParseOutcome)
    ensures
        (r is Parsed) == (url_parse_of(s@) is Ok),
        (r matches UrlParseOutcome::Parsed(c) ==> c@ == url_parse_of(s@)->Ok_0),
        (r is NeedsBase) == (url_parse_of(s@) is Err && url_parse_of(s@)->Err_0 is None),
        (r is Invalid) == (url_parse_of(s@) is Err && url_parse_of(s@)->Err_0 is Some),
        (r matches UrlParseOutcome::Invalid(m) ==> url_parse_of(s@)->Err_0 == Some(m@)),
{
    match url::Url::parse(s) {
        Ok(u) => UrlParseOutcome::Parsed(u.as_str().to_string()),
        Err(url::ParseError::RelativeUrlWithoutBase) => UrlParseOutcome::NeedsBase,
        Err(e) => UrlParseOutcome::Invalid(e.to_string()),
    }
}

/// What `url::Url::join` yields when resolving `rel` against the URL parsed
/// from `base`: `Ok` holds the canonical serialization of the joined URL;
/// `Err` stands for any failure (unparsable base or failing join) and
/// carries the parser's message.
pub uninterp spec fn url_join_of(base: Seq<char>, rel: Seq<char>) -> Result<Seq<char>, Seq<char>>;

/// Relies on `url::Url::parse` (on the base) and `url::Url::join`: resolves
/// a relative reference against a base URL; the outcome is a function of the
/// two strings alone.
#[verifier::external_body]
pub(crate) fn url_join(base: &str, rel: &str) -> (r: Result<String, String>)
    ensures
        (r is Ok) == (url_join_of(base@, rel@) is Ok),
        (r matches Ok(c) ==> c@ == url_join_of(base@, rel@)->Ok_0),
        (r matches Err(m) ==> m@ == url_join_of(base@, rel@)->Err_0),
{
    match url::Url::parse(base) {
        Ok(b) => match b.join(rel) {
            Ok(u) => Ok(u.as_str().to_string()),
            Err(e) => Err(e.to_string()),
        },
        Err(e) => Err(e.to_string()),
    }
}

/// What `url::Url::to_file_path` makes of the URL parsed from `u`: the local
/// filesystem path the URL denotes, or `None` where the string is not a URL,
/// the URL denotes no local path, or the path is not valid text.
pub uninterp spec fn file_path_of(u: Seq<char>) -> Option<Seq<char>>;

/// Relies on `url::Url::to_file_path` (after `url::Url::parse`): within one
/// compiled library the outcome is a function of the input string alone
/// (the conversion differs between build targets).
#[verifier::external_body]
pub(crate) fn url_to_file_path(u: &str) -> (r: Option<String>)
    ensures
        (r is Some) == (file_path_of(u@) is Some),
        (r matches Some(p) ==> p@ == file_path_of(u@)->Some_0),
{
    match url::Url::parse(u) {
        Ok(parsed) => match parsed.to_file_path() {
            Ok(path) => match path.to_str() {
                Some(s) => Some(s.to_string()),
                None => None,
            },
            Err(()) => None,
        },
        Err(_) => None,
    }
}

/// What `url::Url::from_file_path` makes of `path` taken relative to the
/// directory `cwd`: the `file:` URL denoting that filesystem location, or
/// `None` where the joined path is not absolute.
pub uninterp spec fn file_url_of(path: Seq<char>, cwd: Seq<char>) -> Option<Seq<char>>;

/// Relies on `std::path::Path::join` and `url::Url::from_file_path`: turns a
/// path, taken relative to the directory `cwd`, into a `file:` URL; within
/// one compiled library the outcome is a function of the two strings alone
/// (the conversion differs between build targets).
#[verifier::external_body]
pub(crate) fn path_to_file_url(path: &str, cwd: &str) -> (r: Option<String>)
    ensures
        (r is Some) == (file_url_of(path@, cwd@) is Some),
        (r matches Some(u) ==> u@ == file_url_of(path@, cwd@)->Some_0),
{
    let joined = std::path::Path::new(cwd).join(path);
    match url::Url::from_file_path(&joined) {
        Ok(u) => Some(u.as_str().to_string()),
        Err(()) => None,
    }
}

/// The MD5 digest (16 bytes) of the UTF-8 encoding of a text.
pub uninterp spec fn md5_digest_of(s: Seq<char>) -> Seq<u8>;

/// Relies on `md5::compute`: a 128-bit digest of the argument's UTF-8 bytes,
/// a function of the text alone.
#[verifier::external_body]
pub(crate) fn md5_compute(data: &str) -> (r: Vec<u8>)
    ensures
        r@ == md5_digest_of(data@),
        r@.len() == 16,
{
    md5::compute(data.as_bytes()).0.to_vec()
}

/// The canonical reason phrase of one HTTP status code; empty where the code
/// is out of range or has no registered phrase.
pub uninterp spec fn reason_phrase_of(status: u16) -> Seq<char>;

/// Relies on `http::StatusCode::canonical_reason` (after
/// `http::StatusCode::from_u16`): the phrase is a fixed table lookup, a
/// function of the code alone; codes the table does not know give the empty
/// string.
#[verifier::external_body]
pub(crate) fn canonical_reason(status: u16) -> (r: String)
    ensures
        r@ == reason_phrase_of(status),
{
    match http::StatusCode::from_u16(status) {
        Ok(code) => code.canonical_reason().unwrap_or("").to_string(),
        Err(_) => String::new(),
    }
}

/// What the string parse of `http::Method` makes of one method name: the
/// method's canonical text, or `None` where the name is not a valid HTTP
/// method token.
pub uninterp spec fn method_parse_of(m: Seq<char>) -> Option<Seq<char>>;

/// Relies on `http::Method`'s `FromStr` impl: accepts exactly the valid HTTP
/// method tokens; the outcome is a function of the name alone. The `Err`
/// message is the parser's own text.
#[verifier::external_body]
pub(crate) fn parse_method(m: &str) -> (r: Result<String, String>)
    ensures
        (r is Ok) == (method_parse_of(m@) is Some),
        (r matches Ok(c) ==> c@ == method_parse_of(m@)->Some_0),
{
    match m.parse::<http::Method>() {
        Ok(method) => Ok(method.as_str().to_string()),
        Err(e) => Err(e.to_string()),
    }
}

/// The text of one HTTP header value: `Some` where the bytes form a valid
/// header value that decodes as text, `None` otherwise.
pub uninterp spec fn header_text_of(v: Seq<u8>) -> Option<Seq<char>>;

/// Relies on `http::HeaderValue::from_bytes` and `http::HeaderValue::to_str`:
/// whether a header value decodes as text, and to what, is a function of its
/// bytes alone.
#[verifier::external_body]
pub(crate) fn header_value_text(v: &[u8]) -> (r: Option<String>)
    ensures
        (r is Some) == (header_text_of(v@) is Some),
        (r matches Some(t) ==> t@ == header_text_of(v@)->Some_0),
{
    match http::HeaderValue::from_bytes(v) {
        Ok(hv) => match hv.to_str() {
            Ok(s) => Some(s.to_string()),
            Err(_) => None,
        },
        Err(_) => None,
    }
}

} // verus!
