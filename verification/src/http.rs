//! Outbound HTTP calls as plain values, and the reducer that makes their
//! responses reproducible.

use vstd::prelude::*;
use crate::natural::Natural;

verus! {

/// One header of a request or response.
#[derive(Debug, PartialEq)]
pub struct HttpHeader {
    pub name: String,
    pub value: String,
}

/// The method of an outbound call.
#[derive(Clone, Copy, Debug, PartialEq, Eq, Structural)]
pub enum HttpMethod {
    GET,
    POST,
    HEAD,
}

/// A response as the transport delivers it, or as the sanitizer leaves it.
#[derive(Debug, PartialEq)]
pub struct HttpResponse {
    pub status: Natural,
    pub headers: Vec<HttpHeader>,
    pub body: Vec<u8>,
}

/// What the host hands to the sanitizer: the raw response and the context
/// bytes that the request named.
#[derive(Debug, PartialEq)]
pub struct TransformArgs {
    pub response: HttpResponse,
    pub context: Vec<u8>,
}

/// The sanitizer that the host is to run on a response, by name, with the
/// context bytes to hand to it.
#[derive(Debug, PartialEq)]
pub struct TransformContext {
    pub function: String,
    pub context: Vec<u8>,
}

/// An outbound call, ready for the host's transport.
#[derive(Debug, PartialEq)]
pub struct CanisterHttpRequestArgument {
    pub url: String,
    pub max_response_bytes: Option<u64>,
    pub method: HttpMethod,
    pub headers: Vec<HttpHeader>,
    pub body: Option<Vec<u8>>,
    pub transform: Option<TransformContext>,
}

/// Why an HTTP call has no answer to hand over.
#[derive(Debug, PartialEq)]
pub enum HttpFailure {
    /// The call did not come back. Carries the transport's message.
    Transport(String),
    /// The body could not be read. Carries what was wrong with it.
    Malformed(String),
}

/// Headers as pairs of name and value.
pub open spec fn headers_view(headers: Seq<HttpHeader>) -> Seq<(Seq<char>, Seq<char>)> {
    Seq::new(headers.len(), |i: int| (headers[i].name@, headers[i].value@))
}

/// The headers of every sanitized response.
pub open spec fn security_headers() -> Seq<(Seq<char>, Seq<char>)> {
    seq![
        ("Content-Security-Policy"@, "default-src 'self'"@),
        ("Referrer-Policy"@, "strict-origin"@),
        ("Permissions-Policy"@, "geolocation=(self)"@),
        ("Strict-Transport-Security"@, "max-age=63072000"@),
        ("X-Frame-Options"@, "DENY"@),
        ("X-Content-Type-Options"@, "nosniff"@),
    ]
}

/// What a response amounts to: the decimal print of its status, its headers
/// and its body.
pub struct ResponseView {
    pub status: Seq<char>,
    pub headers: Seq<(Seq<char>, Seq<char>)>,
    pub body: Seq<u8>,
}

impl View for HttpResponse {
    type V = ResponseView;

    open spec fn view(&self) -> ResponseView {
        ResponseView {
            status: self.status.text(),
            headers: headers_view(self.headers@),
            body: self.body@,
        }
    }
}

/// The sanitized form of a response with the given status and body.
pub open spec fn sanitized(status: Seq<char>, body: Seq<u8>) -> ResponseView {
    ResponseView { status, headers: security_headers(), body }
}

/// Whether a status is the success status, 200.
pub open spec fn is_success(status: nat) -> bool {
    status == 200
}

fn header(name: &str, value: &str) -> (h: HttpHeader)
    ensures
        h.name@ == name@,
        h.value@ == value@,
{
    HttpHeader { name: name.to_owned(), value: value.to_owned() }
}

/// Reduces a raw response to what every replica agrees on: the status, the
/// body, and a fixed set of security headers in place of the ones it came with.
pub fn cleanup_response(raw: &TransformArgs) -> (clean: HttpResponse)
    ensures
        clean@ == sanitized(raw.response.status.text(), raw.response.body@),
        clean.status.value() == raw.response.status.value(),
{
    let mut headers: Vec<HttpHeader> = Vec::new();
    headers.push(header("Content-Security-Policy", "default-src 'self'"));
    headers.push(header("Referrer-Policy", "strict-origin"));
    headers.push(header("Permissions-Policy", "geolocation=(self)"));
    headers.push(header("Strict-Transport-Security", "max-age=63072000"));
    headers.push(header("X-Frame-Options", "DENY"));
    headers.push(header("X-Content-Type-Options", "nosniff"));
    assert(headers_view(headers@) =~= security_headers());
    HttpResponse {
        status: raw.response.status.clone(),
        headers,
        body: raw.response.body.clone(),
    }
}

/// Whether a raw response calls for a diagnostic record: it does unless its
/// status is 200.
pub fn needs_diagnostic(raw: &TransformArgs) -> (failed: bool)
    ensures
        failed == !is_success(raw.response.status.value()),
{
    !raw.response.status.is_u64(200)
}

/// Two raw responses with the same status and body are sanitized to the same
/// response, whatever their headers and context.
pub proof fn sanitizer_is_deterministic(
    first: TransformArgs,
    second: TransformArgs,
    first_clean: HttpResponse,
    second_clean: HttpResponse,
)
    requires
        first.response.status.text() == second.response.status.text(),
        first.response.body@ == second.response.body@,
        first_clean@ == sanitized(first.response.status.text(), first.response.body@),
        second_clean@ == sanitized(second.response.status.text(), second.response.body@),
    ensures
        first_clean@ == second_clean@,
{
}

} // verus!
