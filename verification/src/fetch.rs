//! The compute half of the fetch operation: turning a call's options into
//! one request for the transport to perform, and shaping the transport's
//! raw answer into the response record handed back to script. The transport
//! itself lives with the embedder.

use vstd::prelude::*;
use crate::strutil::str_eq;
use crate::trusted::method_parse_of;
use crate::trusted::parse_method;
use crate::trusted::reason_phrase_of;
use crate::trusted::canonical_reason;
use crate::trusted::header_text_of;
use crate::trusted::header_value_text;

verus! {

/// One header, as text.
#[derive(Debug, PartialEq, Eq, Clone)]
pub struct HeaderEntry {
    pub name: String,
    pub value: String,
}

/// One received header, its value still undecoded bytes.
#[derive(Debug, PartialEq, Eq, Clone)]
pub struct RawHeader {
    pub name: String,
    pub value: Vec<u8>,
}

/// The options recognised on a fetch call.
#[derive(Debug, PartialEq, Eq, Clone)]
pub struct RequestInit {
    pub method: Option<String>,
    pub headers: Option<Vec<HeaderEntry>>,
    pub body: Option<String>,
}

/// What the transport is asked to perform.
#[derive(Debug, PartialEq, Eq, Clone)]
pub struct RequestPlan {
    pub method: String,
    pub url: String,
    pub headers: Vec<HeaderEntry>,
    pub body: Option<String>,
}

/// Why a fetch failed.
#[derive(Debug, PartialEq, Eq, Clone)]
pub enum FetchError {
    /// The configured method is not a valid HTTP method token; carries the
    /// parser's message.
    InvalidMethod(String),
    /// Any network or protocol failure, with the underlying error's text.
    Transport(String),
}

/// The human-readable message of one fetch failure.
pub open spec fn fetch_error_message_spec(e: FetchError) -> Seq<char> {
    match e {
        FetchError::InvalidMethod(m) => "Invalid method: "@ + m@,
        FetchError::Transport(m) => m@,
    }
}

impl FetchError {
    /// Renders the failure as the one generic, human-readable error text
    /// script sees; transport failures of every kind carry only their text.
    pub fn message(&self) -> (r: String)
        ensures
            r@ == fetch_error_message_spec(*self),
    {
        match self {
            FetchError::InvalidMethod(m) => crate::strutil::str_concat(
                "Invalid method: ",
                m.as_str(),
            ),
            FetchError::Transport(m) => m.clone(),
        }
    }
}

/// The method name a call configures, if any.
pub open spec fn init_method(init: Option<RequestInit>) -> Option<Seq<char>> {
    match init {
        Some(i) => match i.method {
            Some(m) => Some(m@),
            None => None,
        },
        None => None,
    }
}

/// The headers a call configures, or none.
pub open spec fn init_headers(init: Option<RequestInit>) -> Seq<HeaderEntry> {
    match init {
        Some(i) => match i.headers {
            Some(h) => h@,
            None => Seq::empty(),
        },
        None => Seq::empty(),
    }
}

/// The body a call configures, if any.
pub open spec fn init_body(init: Option<RequestInit>) -> Option<Seq<char>> {
    match init {
        Some(i) => match i.body {
            Some(b) => Some(b@),
            None => None,
        },
        None => None,
    }
}

/// Turns a fetch call's arguments into the request the transport performs:
/// the configured method (GET when none is given), the configured headers
/// and body, against the given URL. Fails exactly when a configured method
/// is no valid HTTP method token.
pub fn build_request(url: &str, init: Option<RequestInit>) -> (r: Result<
    RequestPlan,
    FetchError,
>)
    ensures
        (r is Ok) == (match init_method(init) {
            Some(m) => method_parse_of(m) is Some,
            None => true,
        }),
        (r matches Ok(p) ==> p.url@ == url@),
        (r matches Ok(p) ==> p.method@ == (match init_method(init) {
            Some(m) => method_parse_of(m)->Some_0,
            None => "GET"@,
        })),
        (r matches Ok(p) ==> p.headers@ == init_headers(init)),
        (r matches Ok(p) ==> (match p.body {
            Some(b) => init_body(init) == Some(b@),
            None => init_body(init) is None,
        })),
        (r matches Err(e) ==> e is InvalidMethod),
{
    match init {
        None => Ok(
            RequestPlan {
                method: String::from_str("GET"),
                url: String::from_str(url),
                headers: Vec::new(),
                body: None,
            },
        ),
        Some(i) => {
            let RequestInit { method, headers, body } = i;
            let method_text = match method {
                None => String::from_str("GET"),
                Some(name) => match parse_method(name.as_str()) {
                    Ok(canon) => canon,
                    Err(e) => {
                        return Err(FetchError::InvalidMethod(e));
                    },
                },
            };
            let header_list = match headers {
                Some(h) => h,
                None => Vec::new(),
            };
            Ok(
                RequestPlan {
                    method: method_text,
                    url: String::from_str(url),
                    headers: header_list,
                    body,
                },
            )
        },
    }
}

/// The response record handed back to script.
#[derive(Debug, PartialEq, Eq, Clone)]
pub struct FetchResponse {
    pub url: String,
    pub status: u16,
    pub status_text: String,
    pub headers: Vec<HeaderEntry>,
    pub redirected: bool,
    pub body: String,
}

/// A status code in the redirection range.
pub open spec fn is_redirect_status(status: u16) -> bool {
    300 <= status < 400
}

/// The pair views of a header list.
pub open spec fn header_views(hs: Seq<HeaderEntry>) -> Seq<(Seq<char>, Seq<char>)> {
    hs.map_values(|h: HeaderEntry| (h.name@, h.value@))
}

/// The received headers whose values decode as text, in arrival order;
/// a value that does not decode drops its header from the mapping.
pub open spec fn decoded_headers(raw: Seq<RawHeader>) -> Seq<(Seq<char>, Seq<char>)>
    decreases raw.len(),
{
    if raw.len() == 0 {
        Seq::empty()
    } else {
        let rest = decoded_headers(raw.drop_last());
        match header_text_of(raw.last().value@) {
            Some(t) => rest + seq![(raw.last().name@, t)],
            None => rest,
        }
    }
}

/// Shapes the transport's raw answer into the response record: the final
/// URL and body verbatim, the code's canonical reason phrase, the
/// redirection flag from the final status's range, and the headers that
/// decode as text. A non-2xx status is not a failure.
pub fn make_response(final_url: String, status: u16, raw_headers: Vec<RawHeader>, body: String)
    -> (r: FetchResponse)
    ensures
        r.url == final_url,
        r.status == status,
        r.status_text@ == reason_phrase_of(status),
        r.redirected == is_redirect_status(status),
        r.body == body,
        header_views(r.headers@) == decoded_headers(raw_headers@),
{
    let status_text = canonical_reason(status);
    let redirected = 300 <= status && status < 400;
    let mut headers: Vec<HeaderEntry> = Vec::new();
    let mut i: usize = 0;
    while i < raw_headers.len()
        invariant
            i <= raw_headers@.len(),
            header_views(headers@) == decoded_headers(raw_headers@.take(i as int)),
        decreases raw_headers@.len() - i,
    {
        let rh = &raw_headers[i];
        match header_value_text(rh.value.as_slice()) {
            Some(text) => {
                headers.push(HeaderEntry { name: rh.name.clone(), value: text });
            },
            None => {},
        }
        proof {
            let pre = raw_headers@.take(i as int);
            let post = raw_headers@.take(i + 1 as int);
            assert(post.drop_last() =~= pre);
            assert(post.last() == raw_headers@[i as int]);
            assert(header_views(headers@) =~= decoded_headers(post));
        }
        i += 1;
    }
    proof {
        assert(raw_headers@.take(raw_headers@.len() as int) =~= raw_headers@);
    }
    FetchResponse { url: final_url, status, status_text, headers, redirected, body }
}

/// The value of a header name in a mapping read last-write-wins: the value
/// of the last entry whose name matches.
pub open spec fn lookup_spec(hs: Seq<(Seq<char>, Seq<char>)>, name: Seq<char>) -> Option<
    Seq<char>,
>
    decreases hs.len(),
{
    if hs.len() == 0 {
        None
    } else if hs.last().0 == name {
        Some(hs.last().1)
    } else {
        lookup_spec(hs.drop_last(), name)
    }
}

/// Reads one header from a response; where a name was received more than
/// once, the last write wins.
pub fn header_lookup(resp: &FetchResponse, name: &str) -> (r: Option<String>)
    ensures
        (r matches Some(v) ==> lookup_spec(header_views(resp.headers@), name@) == Some(v@)),
        (r is Some) == (lookup_spec(header_views(resp.headers@), name@) is Some),
{
    let ghost full = header_views(resp.headers@);
    let mut i: usize = resp.headers.len();
    proof {
        assert(full.take(full.len() as int) =~= full);
    }
    while i > 0
        invariant
            i <= resp.headers@.len(),
            full == header_views(resp.headers@),
            lookup_spec(full, name@) == lookup_spec(full.take(i as int), name@),
        decreases i,
    {
        i -= 1;
        let entry = &resp.headers[i];
        proof {
            assert(full.take(i + 1 as int).drop_last() =~= full.take(i as int));
            assert(full.take(i + 1 as int).last() == full[i as int]);
        }
        if str_eq(entry.name.as_str(), name) {
            return Some(entry.value.clone());
        }
    }
    None
}

} // verus!
