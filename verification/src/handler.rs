//! Per-request decisions of the forwarding handler.
//!
//! One inbound request is handled in two decision steps, with the actual
//! network work between them done by the unverified server around this
//! crate: [`plan_request`] turns the inbound query parameter and headers
//! into either an immediate rejection or an outbound GET, and [`respond`]
//! turns the outcome of that outbound call into the response head sent
//! downstream. [`relay_step`] decides what to do with each event of the
//! upstream body stream.
//!
//! Every failure to establish the upstream request — missing `url`,
//! malformed URL, DNS or connection failure — collapses to one status,
//! [`FAILURE_STATUS`], with an empty body; the upstream status is never
//! rewritten on success.

use vstd::prelude::*;

use crate::headers::HeaderField;
use crate::headers::fields_view;
use crate::headers::filter_request_headers;
use crate::headers::filter_response_headers;
use crate::headers::name_allow_origin;
use crate::headers::name_allow_origin_vec;
use crate::headers::request_forwarded;
use crate::headers::response_forwarded;
use crate::headers::spec_filter_request;
use crate::headers::spec_filter_response;
use crate::headers::star_value;
use crate::headers::star_value_vec;

verus! {

/// Status sent downstream when the upstream request cannot be issued or
/// fails to connect, whatever the cause.
pub const FAILURE_STATUS: u16 = 500;

/// Whether a status code reports success (2xx).
pub open spec fn status_is_success(status: u16) -> bool {
    200 <= status < 300
}

/// The header pair `Access-Control-Allow-Origin: *` added to every
/// response.
pub open spec fn allow_origin_pair() -> (Seq<u8>, Seq<u8>) {
    (name_allow_origin(), star_value())
}

/// The headers of a relayed response: the safelisted upstream headers in
/// order, then `Access-Control-Allow-Origin: *`.
pub open spec fn spec_relayed_headers(upstream: Seq<(Seq<u8>, Seq<u8>)>) -> Seq<
    (Seq<u8>, Seq<u8>),
> {
    spec_filter_response(upstream).push(allow_origin_pair())
}

/// The headers of a failure response: `Access-Control-Allow-Origin: *`
/// alone.
pub open spec fn spec_failure_headers() -> Seq<(Seq<u8>, Seq<u8>)> {
    seq![allow_origin_pair()]
}

/// How the body of a downstream response is produced.
pub enum BodyPlan {
    /// No body at all.
    Empty,
    /// Relay the upstream body chunk by chunk as it arrives, never
    /// buffering it whole.
    StreamUpstream,
}

/// Status, headers and body directive of the response sent downstream.
pub struct ResponseHead {
    pub status: u16,
    pub headers: Vec<HeaderField>,
    pub body: BodyPlan,
}

/// What the server does with one inbound request after validation.
pub enum RequestPlan {
    /// Answer immediately with this head; no network call is made.
    Reject(ResponseHead),
    /// Issue a GET to `url` with exactly `headers` attached.
    Forward { url: String, headers: Vec<HeaderField> },
}

/// The outcome of attempting the outbound call, as the unverified client
/// reports it.
pub enum UpstreamOutcome {
    /// The upstream connection was established and answered with this
    /// status and these headers; any status counts, 4xx and 5xx included.
    Connected { status: u16, headers: Vec<HeaderField> },
    /// The upstream request could not be established at all.
    Failed,
}

/// The response head for every failure to reach upstream: the failure
/// status, an empty body, and the permissive cross-origin header alone.
pub fn failure_response() -> (r: ResponseHead)
    ensures
        r.status == FAILURE_STATUS,
        !status_is_success(r.status),
        fields_view(r.headers@) == spec_failure_headers(),
        r.body is Empty,
{
    let mut headers: Vec<HeaderField> = Vec::new();
    headers.push(HeaderField { name: name_allow_origin_vec(), value: star_value_vec() });
    proof {
        assert(fields_view(headers@) =~= spec_failure_headers());
    }
    ResponseHead { status: FAILURE_STATUS, headers, body: BodyPlan::Empty }
}

/// The response head for a connected upstream: its status verbatim, the
/// safelisted subset of its headers, the cross-origin header, and the
/// body streamed through.
pub fn relayed_response(status: u16, upstream: &Vec<HeaderField>) -> (r: ResponseHead)
    ensures
        r.status == status,
        fields_view(r.headers@) == spec_relayed_headers(fields_view(upstream@)),
        r.body is StreamUpstream,
{
    let mut headers = filter_response_headers(upstream);
    let ghost kept = headers@;
    headers.push(HeaderField { name: name_allow_origin_vec(), value: star_value_vec() });
    proof {
        assert(fields_view(headers@) =~= fields_view(kept).push(allow_origin_pair()));
    }
    ResponseHead { status, headers, body: BodyPlan::StreamUpstream }
}

/// Decide what to do with one inbound request: reject it on the spot
/// when the `url` query parameter is missing — no network call is ever
/// planned for such a request — and otherwise forward a GET to that URL
/// with exactly the safelisted inbound headers attached.
pub fn plan_request(url: Option<String>, inbound: &Vec<HeaderField>) -> (p: RequestPlan)
    ensures
        url is None ==> (p matches RequestPlan::Reject(h) && h.status == FAILURE_STATUS
            && !status_is_success(h.status) && fields_view(h.headers@) == spec_failure_headers()
            && h.body is Empty),
        url matches Some(u) ==> (p matches RequestPlan::Forward { url: fu, headers: fh }
            && fu@ == u@ && fields_view(fh@) == spec_filter_request(fields_view(inbound@))),
{
    match url {
        None => RequestPlan::Reject(failure_response()),
        Some(u) => RequestPlan::Forward { url: u, headers: filter_request_headers(inbound) },
    }
}

/// Turn the outcome of the outbound call into the downstream response
/// head: the upstream status verbatim with a streamed body when the
/// connection was established, the failure status with an empty body
/// when it was not.
pub fn respond(outcome: UpstreamOutcome) -> (r: ResponseHead)
    ensures
        outcome matches UpstreamOutcome::Connected { status, headers } ==> (r.status == status
            && fields_view(r.headers@) == spec_relayed_headers(fields_view(headers@))
            && r.body is StreamUpstream),
        outcome is Failed ==> (r.status == FAILURE_STATUS && !status_is_success(r.status)
            && fields_view(r.headers@) == spec_failure_headers() && r.body is Empty),
{
    match outcome {
        UpstreamOutcome::Connected { status, headers } => relayed_response(status, &headers),
        UpstreamOutcome::Failed => failure_response(),
    }
}

/// One event of the upstream body stream, as the unverified client
/// reports it.
pub enum StreamEvent {
    /// One chunk of body bytes arrived.
    Chunk(Vec<u8>),
    /// The upstream body ended normally.
    End,
    /// The upstream transport failed mid-stream.
    TransportError,
}

/// What the relay does next with the downstream connection.
pub enum StreamAction {
    /// Write these bytes downstream now.
    Relay(Vec<u8>),
    /// Close the downstream body normally.
    Finish,
    /// Abort the downstream stream; the status line is already
    /// committed, so the failure is not rewritten into another status.
    Abort,
}

/// Decide how to relay one upstream body event: each chunk is passed
/// through unmodified the moment it arrives — never accumulated — the
/// normal end closes the stream, and a mid-stream transport failure
/// aborts it.
pub fn relay_step(event: StreamEvent) -> (a: StreamAction)
    ensures
        event matches StreamEvent::Chunk(c) ==> (a matches StreamAction::Relay(d) && d@ == c@),
        event is End ==> a is Finish,
        event is TransportError ==> a is Abort,
{
    match event {
        StreamEvent::Chunk(c) => StreamAction::Relay(c),
        StreamEvent::End => StreamAction::Finish,
        StreamEvent::TransportError => StreamAction::Abort,
    }
}

/// Law: every response head the proxy produces — relayed or failure —
/// carries the header `Access-Control-Allow-Origin: *`, whatever the
/// upstream sent.
pub proof fn lemma_cors_always_present(upstream: Seq<(Seq<u8>, Seq<u8>)>)
    ensures
        spec_relayed_headers(upstream).contains(allow_origin_pair()),
        spec_failure_headers().contains(allow_origin_pair()),
{
    let relayed = spec_relayed_headers(upstream);
    assert(relayed[relayed.len() - 1] == allow_origin_pair());
    assert(spec_failure_headers()[0] == allow_origin_pair());
}

/// Law: an inbound header whose name is on the request safelist — a
/// `Range` header in particular — is forwarded upstream as the very same
/// (name, value) pair, unmodified.
pub proof fn lemma_safelisted_request_header_forwarded(hs: Seq<(Seq<u8>, Seq<u8>)>, i: int)
    requires
        0 <= i < hs.len(),
        request_forwarded(hs[i].0),
    ensures
        spec_filter_request(hs).contains(hs[i]),
{
    hs.lemma_filter_contains(|p: (Seq<u8>, Seq<u8>)| request_forwarded(p.0), i);
}

/// Law: an upstream header whose name is on the response safelist — a
/// `Content-Range`/`Accept-Ranges` pair in particular — is relayed
/// downstream as the very same (name, value) pair, unmodified.
pub proof fn lemma_safelisted_response_header_relayed(hs: Seq<(Seq<u8>, Seq<u8>)>, i: int)
    requires
        0 <= i < hs.len(),
        response_forwarded(hs[i].0),
    ensures
        spec_relayed_headers(hs).contains(hs[i]),
{
    hs.lemma_filter_contains(|p: (Seq<u8>, Seq<u8>)| response_forwarded(p.0), i);
    let kept = spec_filter_response(hs);
    let j = choose|j: int| 0 <= j < kept.len() && kept[j] == hs[i];
    assert(spec_relayed_headers(hs)[j] == hs[i]);
}

/// Law: an inbound header whose name is not on the request safelist —
/// `Authorization` or `Cookie`, say — never appears on the outbound
/// request, whatever its value.
pub proof fn lemma_unsafelisted_request_header_dropped(
    hs: Seq<(Seq<u8>, Seq<u8>)>,
    p: (Seq<u8>, Seq<u8>),
)
    requires
        !request_forwarded(p.0),
    ensures
        !spec_filter_request(hs).contains(p),
{
    let kept = spec_filter_request(hs);
    assert forall|j: int| 0 <= j < kept.len() implies kept[j] != p by {
        hs.lemma_filter_pred(|q: (Seq<u8>, Seq<u8>)| request_forwarded(q.0), j);
    }
}

/// Law: an upstream header whose name is not on the response safelist is
/// never relayed downstream; the only header added beyond the safelist
/// is `Access-Control-Allow-Origin: *` itself.
pub proof fn lemma_unsafelisted_response_header_dropped(
    hs: Seq<(Seq<u8>, Seq<u8>)>,
    p: (Seq<u8>, Seq<u8>),
)
    requires
        !response_forwarded(p.0),
        p != allow_origin_pair(),
    ensures
        !spec_relayed_headers(hs).contains(p),
{
    let kept = spec_filter_response(hs);
    let relayed = spec_relayed_headers(hs);
    assert forall|j: int| 0 <= j < relayed.len() implies relayed[j] != p by {
        if j < kept.len() {
            hs.lemma_filter_pred(|q: (Seq<u8>, Seq<u8>)| response_forwarded(q.0), j);
            assert(relayed[j] == kept[j]);
        } else {
            assert(relayed[j] == allow_origin_pair());
        }
    }
}

} // verus!
