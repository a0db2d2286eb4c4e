//! The way in: from an inbound query to the request that goes upstream, or
//! to its rejection.

use crate::config::{bearer, search_url, MeiliConfig, MeiliConfigView};
use crate::model::{SearchQuery, SearchRequest};
use crate::outcome::{Outcome, OutcomeView};
use crate::whitespace::{is_blank, is_whitespace, lemma_trimmed_empty_iff_blank,
    lemma_trimmed_shape, trim, trimmed};
use vstd::prelude::*;

verus! {

/// The method of every upstream request.
pub const METHOD: &'static str = "POST";

/// The name of the header that carries the key.
pub const AUTHORIZATION_HEADER: &'static str = "Authorization";

/// A request to the search engine: where it goes, the value of its
/// `Authorization` header, and its body.
#[derive(Debug, PartialEq, Eq)]
pub struct UpstreamRequest {
    pub url: String,
    pub authorization: String,
    pub body: SearchRequest,
}

/// An `UpstreamRequest` as it goes out: the method, the address, the one
/// header that is set, by name and value, and `q`, the one field of the body.
pub struct UpstreamRequestView {
    pub method: Seq<char>,
    pub url: Seq<char>,
    pub header: (Seq<char>, Seq<char>),
    pub q: Seq<char>,
}

impl View for UpstreamRequest {
    type V = UpstreamRequestView;

    open spec fn view(&self) -> UpstreamRequestView {
        UpstreamRequestView {
            method: METHOD@,
            url: self.url@,
            header: (AUTHORIZATION_HEADER@, self.authorization@),
            q: self.body@,
        }
    }
}

/// Where a request stands once its query has been looked at.
#[derive(Debug, PartialEq, Eq)]
pub enum Progress {
    /// The query is in order: this request is to be sent upstream.
    Forward(UpstreamRequest),
    /// The request is over, with nothing sent.
    Done(Outcome),
}

/// What a `Progress` holds, as text.
pub enum ProgressView {
    Forward(UpstreamRequestView),
    Done(OutcomeView),
}

impl View for Progress {
    type V = ProgressView;

    open spec fn view(&self) -> ProgressView {
        match self {
            Progress::Forward(request) => ProgressView::Forward(request@),
            Progress::Done(outcome) => ProgressView::Done(outcome@),
        }
    }
}

/// What the caller is told of a query that is empty once trimmed.
pub open spec fn empty_query_message() -> Seq<char> {
    "Query cannot be empty"@
}

/// The request that carries the search for `q` to the engine of `config`: a
/// POST to the search over the index of posts, with the key in the
/// `Authorization` header.
pub open spec fn upstream_request(config: MeiliConfigView, q: Seq<char>) -> UpstreamRequestView {
    UpstreamRequestView {
        method: "POST"@,
        url: search_url(config.url),
        header: ("Authorization"@, bearer(config.api_key)),
        q,
    }
}

/// What becomes of the query `q`: rejected where nothing is left of it once
/// trimmed, else forwarded, trimmed, to the engine of `config`.
pub open spec fn received(config: MeiliConfigView, q: Seq<char>) -> ProgressView {
    if trimmed(q).len() == 0 {
        ProgressView::Done(OutcomeView::BadRequest(empty_query_message()))
    } else {
        ProgressView::Forward(upstream_request(config, trimmed(q)))
    }
}

/// Looks at an inbound query and decides what is to be done: it is rejected
/// where nothing is left of it once trimmed, and else put, trimmed, into a
/// request to the engine of `config`.
pub fn receive(config: &MeiliConfig, query: &SearchQuery) -> (r: Progress)
    ensures
        r@ == received(config@, query@),
{
    let q = trim(query.q.as_str());
    if q.is_empty() {
        Progress::Done(Outcome::BadRequest(String::from_str("Query cannot be empty")))
    } else {
        Progress::Forward(
            UpstreamRequest {
                url: config.search_url(),
                authorization: config.authorization(),
                body: SearchRequest { q: String::from_str(q) },
            },
        )
    }
}

/// A query that holds a character other than white space is forwarded, and
/// the request's `q` is the query without the white space at its ends: a
/// stretch of the query that neither begins nor ends with white space.
pub proof fn lemma_query_forwarded_trimmed(config: MeiliConfigView, q: Seq<char>)
    requires
        !is_blank(q),
    ensures
        received(config, q) is Forward,
        received(config, q)->Forward_0.q == trimmed(q),
        trimmed(q).len() > 0,
        !is_whitespace(trimmed(q).first()),
        !is_whitespace(trimmed(q).last()),
        received(config, q)->Forward_0 == upstream_request(config, trimmed(q)),
{
    lemma_trimmed_empty_iff_blank(q);
    lemma_trimmed_shape(q);
}

/// A query that is empty or all white space is rejected as a bad request,
/// and no request to the engine comes of it.
pub proof fn lemma_blank_query_rejected(config: MeiliConfigView, q: Seq<char>)
    requires
        is_blank(q),
    ensures
        received(config, q) == ProgressView::Done(
            OutcomeView::BadRequest(empty_query_message()),
        ),
        !(received(config, q) is Forward),
{
    lemma_trimmed_empty_iff_blank(q);
}

/// Two queries are forwarded as the same request only where they trim to the
/// same text: a request carries its own query and no other.
pub proof fn lemma_request_carries_its_query(
    config: MeiliConfigView,
    q1: Seq<char>,
    q2: Seq<char>,
)
    requires
        !is_blank(q1),
        !is_blank(q2),
    ensures
        received(config, q1) == received(config, q2) <==> trimmed(q1) == trimmed(q2),
{
    lemma_trimmed_empty_iff_blank(q1);
    lemma_trimmed_empty_iff_blank(q2);
}

} // verus!
