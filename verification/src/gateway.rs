//! The handling of one search from end to end, over an exchange with the
//! engine that the caller supplies.

use crate::config::{MeiliConfig, MeiliConfigView};
use crate::forward::{empty_query_message, receive, received, upstream_request, Progress,
    ProgressView, UpstreamRequest};
use crate::model::SearchQuery;
use crate::outcome::{answer, resolved, respond, response_for, BodyView, Response, ResponseView,
    UpstreamReply, UpstreamReplyView};
use crate::whitespace::{is_blank, lemma_trimmed_empty_iff_blank, trimmed};
use vstd::prelude::*;

verus! {

/// What the caller gets for the query `q`, where `reply` is how the exchange
/// with the engine goes if the query is forwarded.
pub open spec fn served(
    config: MeiliConfigView,
    q: Seq<char>,
    reply: UpstreamReplyView,
) -> ResponseView {
    match received(config, q) {
        ProgressView::Done(outcome) => response_for(outcome),
        ProgressView::Forward(_) => response_for(resolved(reply)),
    }
}

/// Handles one search. A query that is empty once trimmed is answered at
/// once and `exchange` is not called. Any other is put, trimmed, into a
/// request to the engine of `config`; `exchange` is called once, with that
/// request, and what it reports decides the answer.
pub fn search_handler<F: FnOnce(UpstreamRequest) -> UpstreamReply>(
    config: &MeiliConfig,
    query: &SearchQuery,
    exchange: F,
) -> (r: Response)
    requires
        !is_blank(query@) ==> forall|request: UpstreamRequest|
            request@ == upstream_request(config@, trimmed(query@)) ==> exchange.requires(
                (request,),
            ),
    ensures
        is_blank(query@) ==> r@ == (ResponseView {
            status: 400,
            body: BodyView::Text(empty_query_message()),
        }),
        !is_blank(query@) ==> exists|request: UpstreamRequest, reply: UpstreamReply|
            {
                &&& request@ == upstream_request(config@, trimmed(query@))
                &&& exchange.ensures((request,), reply)
                &&& r@ == response_for(resolved(reply@))
                &&& r@ == served(config@, query@, reply@)
            },
{
    proof {
        lemma_trimmed_empty_iff_blank(query@);
    }
    match receive(config, query) {
        Progress::Done(outcome) => respond(outcome),
        Progress::Forward(request) => {
            let ghost sent = request;
            let reply = exchange(request);
            let ghost got = reply;
            let r = answer(reply);
            assert(sent@ == upstream_request(config@, trimmed(query@)) && exchange.ensures(
                (sent,),
                got,
            ) && r@ == response_for(resolved(got@)) && r@ == served(config@, query@, got@));
            r
        },
    }
}

/// The answer to a query that is empty or all white space does not depend on
/// the engine: it is the rejection, whatever the exchange would have given.
pub proof fn lemma_blank_query_never_reaches_the_engine(
    config: MeiliConfigView,
    q: Seq<char>,
    reply: UpstreamReplyView,
)
    requires
        is_blank(q),
    ensures
        served(config, q, reply) == (ResponseView {
            status: 400,
            body: BodyView::Text("Query cannot be empty"@),
        }),
{
    lemma_trimmed_empty_iff_blank(q);
}

/// The answer to a forwarded query is the answer to its own reply: it holds
/// nothing of the query, of the configuration, or of any other search.
pub proof fn lemma_answer_is_that_of_the_reply(
    config: MeiliConfigView,
    q: Seq<char>,
    reply: UpstreamReplyView,
)
    requires
        !is_blank(q),
    ensures
        served(config, q, reply) == response_for(resolved(reply)),
        reply matches UpstreamReplyView::Parsed(hits) ==> served(config, q, reply) == (
        ResponseView { status: 200, body: BodyView::Json(hits) }),
        reply is TransportFailed ==> served(config, q, reply) == (ResponseView {
            status: 500,
            body: BodyView::Text("Search server error"@),
        }),
        reply is Unparseable ==> served(config, q, reply) == (ResponseView {
            status: 500,
            body: BodyView::Text("Invalid response format"@),
        }),
{
    lemma_trimmed_empty_iff_blank(q);
}

} // verus!
