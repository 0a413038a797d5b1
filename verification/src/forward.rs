//! Reconstruction of an outbound request from an inbound one.
//!
//! Given an inbound request and the backend that the selector picked for it,
//! the forwarder builds the outbound request: the target is the backend base
//! address with the inbound path and query appended verbatim, the method is
//! unchanged, the headers are copied in order with duplicates kept, and the
//! body is handed over untouched. A target that does not form a valid URI is
//! a per-request construction error; a network failure during dispatch is a
//! per-request dispatch error. Neither is retried against another backend.

use vstd::prelude::*;

use crate::selector::BackendSelector;
use crate::selector::slot_of;
use crate::selector::wrap_add_one;

verus! {

/// An inbound request, reduced to what forwarding reads: the method name,
/// the path together with the query string (empty when the request carries
/// neither), the headers in arrival order, and the body bytes.
pub struct InboundRequest {
    pub method: String,
    pub path_and_query: String,
    pub headers: Vec<(String, String)>,
    pub body: Vec<u8>,
}

/// The outbound request derived from one inbound request and one selected
/// backend.
pub struct ForwardedRequest {
    pub method: String,
    pub target: String,
    pub headers: Vec<(String, String)>,
    pub body: Vec<u8>,
}

/// A backend's answer: status code, headers in arrival order, body bytes.
pub struct BackendResponse {
    pub status: u16,
    pub headers: Vec<(String, String)>,
    pub body: Vec<u8>,
}

/// Why a request could not be forwarded.
#[derive(PartialEq, Eq, Structural, Clone, Copy, Debug)]
pub enum ForwardError {
    /// The backend address and the inbound path and query do not form a
    /// valid target URI.
    Target,
    /// The backend could not be reached, or sending the request or reading
    /// its response failed.
    Dispatch,
}

/// What came back from one dispatch attempt against the selected backend.
pub enum DispatchOutcome {
    /// The backend answered; the response is carried through unmodified.
    Delivered(BackendResponse),
    /// The backend could not be reached or the exchange broke off.
    Failed,
}

/// The character sequences of a header list, in order, duplicates kept.
pub open spec fn header_views(hs: Seq<(String, String)>) -> Seq<(Seq<char>, Seq<char>)> {
    hs.map_values(|h: (String, String)| (h.0@, h.1@))
}

/// The outbound target for a backend base address and an inbound
/// path-and-query string: their plain concatenation.
pub open spec fn target_of(backend: Seq<char>, path_and_query: Seq<char>) -> Seq<char> {
    backend + path_and_query
}

/// Whether a string is accepted by the URI parser of the `http` crate.
pub uninterp spec fn uri_well_formed(s: Seq<char>) -> bool;

/// Relies on the `FromStr` impl of `http::Uri` (re-exported as
/// `hyper::Uri`): whether a string parses as a URI is a function of its
/// characters alone.
#[verifier::external_body]
fn uri_parses(s: &str) -> (r: bool)
    ensures
        r == uri_well_formed(s@),
{
    s.parse::<hyper::Uri>().is_ok()
}

/// Concatenates a backend base address with the inbound request's
/// path-and-query string to form the outbound target.
pub fn build_target(backend: &str, path_and_query: &str) -> (r: String)
    ensures
        r@ == target_of(backend@, path_and_query@),
{
    let mut t = String::from_str(backend);
    t.append(path_and_query);
    t
}

/// Builds the outbound request for one inbound request and one selected
/// backend. The target is the backend address with the inbound path and
/// query appended verbatim; it is accepted exactly when it forms a valid
/// URI. Method, headers (order and duplicates included) and body are taken
/// over unchanged. Nothing is dispatched here and nothing is retried.
pub fn build_forwarded(req: InboundRequest, backend: &str) -> (r: Result<
    ForwardedRequest,
    ForwardError,
>)
    ensures
        r is Ok <==> uri_well_formed(target_of(backend@, req.path_and_query@)),
        r matches Ok(f) ==> {
            &&& f.method@ == req.method@
            &&& f.target@ == target_of(backend@, req.path_and_query@)
            &&& header_views(f.headers@) == header_views(req.headers@)
            &&& f.body@ == req.body@
        },
        r matches Err(e) ==> e == ForwardError::Target,
{
    let target = build_target(backend, req.path_and_query.as_str());
    if !uri_parses(target.as_str()) {
        return Err(ForwardError::Target);
    }
    Ok(
        ForwardedRequest {
            method: req.method,
            target,
            headers: req.headers,
            body: req.body,
        },
    )
}

/// The whole pre-dispatch path for one inbound request: ask the selector
/// for the next backend — exactly once — and build the outbound request
/// against it. The selected backend is the one the rotation owes this call;
/// failure to form a valid target does not advance the rotation a second
/// time nor fall back to another backend.
pub fn prepare(selector: &mut BackendSelector, req: InboundRequest) -> (r: Result<
    ForwardedRequest,
    ForwardError,
>)
    requires
        old(selector).well_formed(),
    ensures
        final(selector).backends() == old(selector).backends(),
        final(selector).cursor() == wrap_add_one(old(selector).cursor()),
        ({
            let backend = old(selector).backends()[slot_of(
                old(selector).cursor(),
                old(selector).backends().len(),
            ) as int];
            &&& (r is Ok <==> uri_well_formed(target_of(backend, req.path_and_query@)))
            &&& (r matches Ok(f) ==> {
                &&& f.method@ == req.method@
                &&& f.target@ == target_of(backend, req.path_and_query@)
                &&& header_views(f.headers@) == header_views(req.headers@)
                &&& f.body@ == req.body@
            })
            &&& (r matches Err(e) ==> e == ForwardError::Target)
        }),
{
    let backend = selector.next();
    build_forwarded(req, backend.as_str())
}

/// Turns the outcome of one dispatch attempt into the forwarder's result:
/// a delivered response is passed through unmodified — status, headers and
/// body as the backend sent them — and a failed exchange becomes a dispatch
/// error. No retry, no fallback.
pub fn complete(outcome: DispatchOutcome) -> (r: Result<BackendResponse, ForwardError>)
    ensures
        outcome matches DispatchOutcome::Delivered(resp) ==> r matches Ok(out) && out == resp,
        outcome matches DispatchOutcome::Failed ==> r matches Err(e) && e
            == ForwardError::Dispatch,
{
    match outcome {
        DispatchOutcome::Delivered(resp) => Ok(resp),
        DispatchOutcome::Failed => Err(ForwardError::Dispatch),
    }
}

} // verus!
