//! The way out: from what came of the upstream exchange to the answer that
//! the caller gets.

use crate::model::{HitView, SearchResult};
use vstd::prelude::*;

verus! {

/// The status of an answer that carries the hits.
pub const STATUS_OK: u16 = 200;

/// The status of the answer to a query that is not in order.
pub const STATUS_BAD_REQUEST: u16 = 400;

/// The status of the answer when the exchange with the engine failed.
pub const STATUS_SERVER_ERROR: u16 = 500;

/// How the exchange with the search engine went.
#[derive(Debug, PartialEq, Eq)]
pub enum UpstreamReply {
    /// No response came: the connection, the name lookup or the transfer
    /// failed, or time ran out.
    TransportFailed,
    /// A response came, but its body does not hold hits in the expected form.
    Unparseable,
    /// A response came, and these are the hits it holds.
    Parsed(SearchResult),
}

/// What an `UpstreamReply` holds, as text.
pub enum UpstreamReplyView {
    TransportFailed,
    Unparseable,
    Parsed(Seq<HitView>),
}

impl View for UpstreamReply {
    type V = UpstreamReplyView;

    open spec fn view(&self) -> UpstreamReplyView {
        match self {
            UpstreamReply::TransportFailed => UpstreamReplyView::TransportFailed,
            UpstreamReply::Unparseable => UpstreamReplyView::Unparseable,
            UpstreamReply::Parsed(result) => UpstreamReplyView::Parsed(result@),
        }
    }
}

/// How the handling of a search ended.
#[derive(Debug, PartialEq, Eq)]
pub enum Outcome {
    /// The engine answered with these hits.
    Success(SearchResult),
    /// The query was not in order; the text says why.
    BadRequest(String),
    /// The engine could not be reached.
    UpstreamTransportError,
    /// The engine's answer was not in the expected form.
    UpstreamFormatError,
}

/// What an `Outcome` holds, as text.
pub enum OutcomeView {
    Success(Seq<HitView>),
    BadRequest(Seq<char>),
    UpstreamTransportError,
    UpstreamFormatError,
}

impl View for Outcome {
    type V = OutcomeView;

    open spec fn view(&self) -> OutcomeView {
        match self {
            Outcome::Success(result) => OutcomeView::Success(result@),
            Outcome::BadRequest(message) => OutcomeView::BadRequest(message@),
            Outcome::UpstreamTransportError => OutcomeView::UpstreamTransportError,
            Outcome::UpstreamFormatError => OutcomeView::UpstreamFormatError,
        }
    }
}

/// The body of an answer.
#[derive(Debug, PartialEq, Eq)]
pub enum Body {
    /// Plain text.
    Text(String),
    /// The hits, to be written as JSON.
    Json(SearchResult),
}

/// What a `Body` holds, as text.
pub enum BodyView {
    Text(Seq<char>),
    Json(Seq<HitView>),
}

impl View for Body {
    type V = BodyView;

    open spec fn view(&self) -> BodyView {
        match self {
            Body::Text(text) => BodyView::Text(text@),
            Body::Json(result) => BodyView::Json(result@),
        }
    }
}

/// The answer that the caller gets: an HTTP status and a body.
#[derive(Debug, PartialEq, Eq)]
pub struct Response {
    pub status: u16,
    pub body: Body,
}

/// What a `Response` holds, as text.
pub struct ResponseView {
    pub status: u16,
    pub body: BodyView,
}

impl View for Response {
    type V = ResponseView;

    open spec fn view(&self) -> ResponseView {
        ResponseView { status: self.status, body: self.body@ }
    }
}

/// What the caller is told when the engine could not be reached.
pub open spec fn transport_error_message() -> Seq<char> {
    "Search server error"@
}

/// What the caller is told when the engine's answer was not in the expected
/// form.
pub open spec fn format_error_message() -> Seq<char> {
    "Invalid response format"@
}

/// How the handling ends, given how the exchange with the engine went: the
/// hits as they came, in their order, or the failure of its kind.
pub open spec fn resolved(reply: UpstreamReplyView) -> OutcomeView {
    match reply {
        UpstreamReplyView::TransportFailed => OutcomeView::UpstreamTransportError,
        UpstreamReplyView::Unparseable => OutcomeView::UpstreamFormatError,
        UpstreamReplyView::Parsed(hits) => OutcomeView::Success(hits),
    }
}

/// The answer that goes with each outcome.
pub open spec fn response_for(outcome: OutcomeView) -> ResponseView {
    match outcome {
        OutcomeView::Success(hits) => ResponseView {
            status: STATUS_OK,
            body: BodyView::Json(hits),
        },
        OutcomeView::BadRequest(message) => ResponseView {
            status: STATUS_BAD_REQUEST,
            body: BodyView::Text(message),
        },
        OutcomeView::UpstreamTransportError => ResponseView {
            status: STATUS_SERVER_ERROR,
            body: BodyView::Text(transport_error_message()),
        },
        OutcomeView::UpstreamFormatError => ResponseView {
            status: STATUS_SERVER_ERROR,
            body: BodyView::Text(format_error_message()),
        },
    }
}

/// Ends the handling of a forwarded search, given how the exchange with the
/// engine went. Hits are handed on as they came.
pub fn resolve(reply: UpstreamReply) -> (r: Outcome)
    ensures
        r@ == resolved(reply@),
        reply matches UpstreamReply::Parsed(result) ==> r == Outcome::Success(result),
{
    match reply {
        UpstreamReply::TransportFailed => Outcome::UpstreamTransportError,
        UpstreamReply::Unparseable => Outcome::UpstreamFormatError,
        UpstreamReply::Parsed(result) => Outcome::Success(result),
    }
}

/// Turns an outcome into the answer for the caller. No answer tells more of a
/// failure than its kind.
pub fn respond(outcome: Outcome) -> (r: Response)
    ensures
        r@ == response_for(outcome@),
        outcome matches Outcome::Success(result) ==> r.body == Body::Json(result),
{
    match outcome {
        Outcome::Success(result) => Response { status: STATUS_OK, body: Body::Json(result) },
        Outcome::BadRequest(message) => Response {
            status: STATUS_BAD_REQUEST,
            body: Body::Text(message),
        },
        Outcome::UpstreamTransportError => Response {
            status: STATUS_SERVER_ERROR,
            body: Body::Text(String::from_str("Search server error")),
        },
        Outcome::UpstreamFormatError => Response {
            status: STATUS_SERVER_ERROR,
            body: Body::Text(String::from_str("Invalid response format")),
        },
    }
}

/// Turns how the exchange with the engine went into the answer for the
/// caller.
pub fn answer(reply: UpstreamReply) -> (r: Response)
    ensures
        r@ == response_for(resolved(reply@)),
        reply matches UpstreamReply::Parsed(result) ==> r.body == Body::Json(result),
{
    respond(resolve(reply))
}

/// When the engine could not be reached, the caller gets status 500 and the
/// text "Search server error", and nothing of the cause.
pub proof fn lemma_transport_failure_answer()
    ensures
        response_for(resolved(UpstreamReplyView::TransportFailed)) == (ResponseView {
            status: 500,
            body: BodyView::Text("Search server error"@),
        }),
{
}

/// When the engine's answer was not in the expected form, the caller gets
/// status 500 and the text "Invalid response format".
pub proof fn lemma_format_failure_answer()
    ensures
        response_for(resolved(UpstreamReplyView::Unparseable)) == (ResponseView {
            status: 500,
            body: BodyView::Text("Invalid response format"@),
        }),
{
}

/// When the engine answered with hits, the caller gets status 200 and those
/// hits: as many, in the same order, each field as it came.
pub proof fn lemma_hits_pass_through(hits: Seq<HitView>)
    ensures
        response_for(resolved(UpstreamReplyView::Parsed(hits))) == (ResponseView {
            status: 200,
            body: BodyView::Json(hits),
        }),
{
}

/// A rejected query is answered with status 400 and the text of the
/// rejection.
pub proof fn lemma_bad_request_answer(message: Seq<char>)
    ensures
        response_for(OutcomeView::BadRequest(message)) == (ResponseView {
            status: 400,
            body: BodyView::Text(message),
        }),
{
}

/// Only hits are answered with a status below 400, and each failure with the
/// status of its kind.
pub proof fn lemma_status_tells_the_outcome(outcome: OutcomeView)
    ensures
        response_for(outcome).status == 200 <==> outcome is Success,
        response_for(outcome).status == 400 <==> outcome is BadRequest,
        response_for(outcome).status == 500 <==> outcome is UpstreamTransportError
            || outcome is UpstreamFormatError,
        response_for(outcome).body is Json <==> outcome is Success,
{
}

} // verus!
