use vstd::prelude::*;
use vstd::string::*;

use crate::captures::Captures;
use crate::dispatch::Outcome;
use crate::dispatch::OutcomeModel;

verus! {

/// A response as the router describes it: a status code, a content type,
/// the body's declared length, and the body text itself.  The transport
/// layer turns it into wire bytes.  Every body the router itself produces
/// is ASCII, so its length in characters is its length in bytes.
pub struct HttpResponse {
    /// Numeric HTTP status code.
    pub status: u16,
    /// Value of the `Content-Type` header.
    pub content_type: String,
    /// Value of the `Content-Length` header: the body's exact length.
    pub content_length: usize,
    /// The response body.
    pub body: String,
}

/// Whether `r` is the canned plain-text response with this status and body.
pub open spec fn is_plain_response(r: HttpResponse, status: int, body: Seq<char>) -> bool {
    r.status == status && r.body@ == body && r.content_type@ == "text/plain"@
        && r.content_length == body.len()
}

/// Builds a plain-text response with the exact length of its body declared.
fn make_response(body: &str, status: u16) -> (r: HttpResponse)
    ensures
        is_plain_response(r, status as int, body@),
{
    HttpResponse {
        status,
        content_type: String::from_str("text/plain"),
        content_length: body.unicode_len(),
        body: String::from_str(body),
    }
}

/// The not-found fallback: no route's pattern matched the request's path.
pub fn default_404_handler() -> (r: HttpResponse)
    ensures
        is_plain_response(r, 404, "page not found"@),
{
    let body = "page not found";
    make_response(body, 404)
}

/// The method-not-allowed fallback: some route's pattern matched the
/// path, but none of those routes was declared for the request's method.
pub fn method_not_supported_handler() -> (r: HttpResponse)
    ensures
        is_plain_response(r, 405, "method not supported"@),
{
    let body = "method not supported";
    make_response(body, 405)
}

/// The server-error fallback, substituted by the caller when a matched
/// handler's invocation faults.
pub fn internal_server_error_handler() -> (r: HttpResponse)
    ensures
        is_plain_response(r, 500, "internal server error"@),
{
    let body = "internal server error";
    make_response(body, 500)
}

/// The not-implemented fallback: the matched route was intentionally left
/// at its unreplaced default handler.
pub fn not_implemented_handler() -> (r: HttpResponse)
    ensures
        is_plain_response(r, 501, "not implemented"@),
{
    let body = "not implemented";
    make_response(body, 501)
}

/// The not-found fallback in the capture-aware call shape; the captures
/// are ignored.
pub fn default_404_handler_captures(_captures: Captures) -> (r: HttpResponse)
    ensures
        is_plain_response(r, 404, "page not found"@),
{
    default_404_handler()
}

/// The method-not-allowed fallback in the capture-aware call shape; the
/// captures are ignored.
pub fn method_not_supported_handler_captures(_captures: Captures) -> (r: HttpResponse)
    ensures
        is_plain_response(r, 405, "method not supported"@),
{
    method_not_supported_handler()
}

/// The server-error fallback in the capture-aware call shape; the
/// captures are ignored.
pub fn internal_server_error_handler_captures(_captures: Captures) -> (r: HttpResponse)
    ensures
        is_plain_response(r, 500, "internal server error"@),
{
    internal_server_error_handler()
}

/// The not-implemented fallback in the capture-aware call shape; the
/// captures are ignored.
pub fn not_implemented_handler_captures(_captures: Captures) -> (r: HttpResponse)
    ensures
        is_plain_response(r, 501, "not implemented"@),
{
    not_implemented_handler()
}

/// Maps a dispatch outcome to the fallback response it calls for, if any:
/// no path match to the 404, a method mismatch to the 405, and a match
/// that selected only the unreplaced default handler to the 501.  An
/// outcome that selected a real handler needs no fallback — invoking the
/// handler, and substituting the 500 should that invocation fault, is the
/// caller's job.
pub fn fallback_response<H, C>(outcome: &Outcome<H, C>) -> (r: Option<HttpResponse>)
    ensures
        match outcome@ {
            OutcomeModel::Matched(sel, _) => if sel is NotImplemented {
                r matches Some(resp) && is_plain_response(resp, 501, "not implemented"@)
            } else {
                r is None
            },
            OutcomeModel::NoPathMatch => (r matches Some(resp) && is_plain_response(
                resp,
                404,
                "page not found"@,
            )),
            OutcomeModel::PathMatchedWrongMethod => (r matches Some(resp) && is_plain_response(
                resp,
                405,
                "method not supported"@,
            )),
        },
{
    match outcome {
        Outcome::Matched(sel, _) => match sel {
            crate::dispatch::SelectedHandler::NotImplemented => Some(not_implemented_handler()),
            _ => None,
        },
        Outcome::NoPathMatch => Some(default_404_handler()),
        Outcome::PathMatchedWrongMethod => Some(method_not_supported_handler()),
    }
}

} // verus!
