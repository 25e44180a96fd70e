//! The unit of work and its validation before any network traffic.
use actix_http::header::{HeaderName, HeaderValue};
use actix_http::{Method, Uri};
use vstd::prelude::*;

verus! {

/// A request that a caller wants delivered at least once.
pub struct RetryPayload {
    /// Caller-chosen identifier, for correlation only.
    pub reference: String,
    /// How many more attempts may follow a failed one.
    pub retries: u32,
    pub method: String,
    /// Header pairs in the order they are sent; a name may repeat.
    pub headers: Vec<(String, String)>,
    pub request_url: String,
    pub payload: String,
}

/// A character allowed in a request method.
pub open spec fn is_method_char(c: char) -> bool {
    let v = c as u32;
    v == 33 || v == 42 || v == 43 || v == 45 || v == 46 || (48 <= v && v <= 57) || (65 <= v
        && v <= 90) || (94 <= v && v <= 122) || v == 124 || v == 126
}

/// A character allowed in a header name (upper case is folded by the client).
pub open spec fn is_header_name_char(c: char) -> bool {
    let v = c as u32;
    (33 <= v && v <= 39) || v == 42 || v == 43 || v == 45 || v == 46 || (48 <= v && v <= 57) || (
    65 <= v && v <= 90) || (94 <= v && v <= 122) || v == 124 || v == 126
}

/// A character allowed in a header value: a tab, or anything but a control character.
pub open spec fn is_header_value_char(c: char) -> bool {
    let v = c as u32;
    v == 9 || (32 <= v && v != 127)
}

pub open spec fn is_method_token(s: Seq<char>) -> bool {
    s.len() > 0 && forall|i: int| 0 <= i < s.len() ==> is_method_char(#[trigger] s[i])
}

pub open spec fn is_header_name(s: Seq<char>) -> bool {
    0 < s.len() <= 65535 && forall|i: int| 0 <= i < s.len() ==> is_header_name_char(#[trigger] s[i])
}

pub open spec fn is_header_value(s: Seq<char>) -> bool {
    forall|i: int| 0 <= i < s.len() ==> is_header_value_char(#[trigger] s[i])
}

/// What the HTTP client's URI parser makes of the text: `None` when it refuses it,
/// else the scheme and the host it finds, if any.
pub uninterp spec fn uri_parts(s: Seq<char>) -> Option<(Option<Seq<char>>, Option<Seq<char>>)>;

pub open spec fn opt_text(o: Option<String>) -> Option<Seq<char>> {
    match o {
        Some(t) => Some(t@),
        None => None,
    }
}

pub open spec fn parts_view(p: Option<(Option<String>, Option<String>)>) -> Option<
    (Option<Seq<char>>, Option<Seq<char>>),
> {
    match p {
        Some((scheme, host)) => Some((opt_text(scheme), opt_text(host))),
        None => None,
    }
}

/// An absolute target: the URI parses, has a host, and its scheme is http or https.
pub open spec fn is_absolute_http(p: Option<(Option<Seq<char>>, Option<Seq<char>>)>) -> bool {
    match p {
        Some((Some(scheme), Some(_))) => scheme == "http"@ || scheme == "https"@,
        _ => false,
    }
}

pub open spec fn headers_valid(h: Seq<(String, String)>) -> bool {
    forall|i: int|
        0 <= i < h.len() ==> is_header_name((#[trigger] h[i]).0@) && is_header_value(h[i].1@)
}

/// Every part of the request can be handed to the HTTP client, `url` being what the
/// URI parser made of the target.
pub open spec fn well_formed_given_url(
    req: RetryPayload,
    url: Option<(Option<Seq<char>>, Option<Seq<char>>)>,
) -> bool {
    is_absolute_http(url) && is_method_token(req.method@) && headers_valid(req.headers@)
}

pub open spec fn well_formed(req: RetryPayload) -> bool {
    well_formed_given_url(req, uri_parts(req.request_url@))
}

/// Relies on http's `Method::from_bytes`: it accepts exactly the non-empty byte
/// strings of method characters.
#[verifier::external_body]
fn method_accepted(s: &str) -> (r: bool)
    ensures
        r == is_method_token(s@),
{
    Method::from_bytes(s.as_bytes()).is_ok()
}

/// Relies on http's `HeaderName::from_bytes`: it accepts names of 1 to 65535 bytes
/// made of header name characters.
#[verifier::external_body]
fn header_name_accepted(s: &str) -> (r: bool)
    ensures
        r == is_header_name(s@),
{
    HeaderName::from_bytes(s.as_bytes()).is_ok()
}

/// Relies on http's `HeaderValue::from_bytes`: it refuses exactly the values that
/// hold an ASCII control character (below 32, or 127) other than a tab.
#[verifier::external_body]
fn header_value_accepted(s: &str) -> (r: bool)
    ensures
        r == is_header_value(s@),
{
    HeaderValue::from_bytes(s.as_bytes()).is_ok()
}

/// Relies on http's `Uri` parser, the one the HTTP client applies to the target, and
/// on `Uri::scheme_str` and `Uri::host` for the parts it found.
#[verifier::external_body]
fn url_parts(s: &str) -> (r: Option<(Option<String>, Option<String>)>)
    ensures
        parts_view(r) == uri_parts(s@),
{
    s.parse::<Uri>().ok().map(
        |u| (u.scheme_str().map(|x| x.to_string()), u.host().map(|x| x.to_string())),
    )
}

fn is_absolute_http_target(url: &Option<(Option<String>, Option<String>)>) -> (r: bool)
    ensures
        r == is_absolute_http(parts_view(*url)),
{
    match url {
        Some((Some(scheme), Some(_))) => {
            let http = String::from_str("http");
            let https = String::from_str("https");
            *scheme == http || *scheme == https
        },
        _ => false,
    }
}

/// Whether the request is valid, given what the URI parser made of its target.
pub fn parts_well_formed(req: &RetryPayload, url: &Option<(Option<String>, Option<String>)>) -> (r: bool)
    ensures
        r == well_formed_given_url(*req, parts_view(*url)),
{
    if !is_absolute_http_target(url) || !method_accepted(req.method.as_str()) {
        return false;
    }
    let n = req.headers.len();
    let mut i: usize = 0;
    while i < n
        invariant
            n == req.headers@.len(),
            i <= n,
            forall|j: int|
                0 <= j < i ==> is_header_name((#[trigger] req.headers@[j]).0@) && is_header_value(
                    req.headers@[j].1@,
                ),
        decreases n - i,
    {
        let (name, value) = (&req.headers[i].0, &req.headers[i].1);
        if !header_name_accepted(name.as_str()) || !header_value_accepted(value.as_str()) {
            return false;
        }
        i += 1;
    }
    true
}

/// Whether the request can be built as given. A request that fails here is a
/// caller error and is never retried.
pub fn is_well_formed(req: &RetryPayload) -> (r: bool)
    ensures
        r == well_formed(*req),
{
    let url = url_parts(req.request_url.as_str());
    parts_well_formed(req, &url)
}

} // verus!
