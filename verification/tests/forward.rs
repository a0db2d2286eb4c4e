use search_forwarder::config::MeiliConfig;
use search_forwarder::forward::{receive, Progress, UpstreamRequest, AUTHORIZATION_HEADER, METHOD};
use search_forwarder::model::{SearchQuery, SearchRequest};
use search_forwarder::outcome::{respond, Body, Outcome, Response};

fn engine() -> MeiliConfig {
    MeiliConfig::new("http://localhost:7700".to_string(), "masterKey".to_string())
}

fn query(q: &str) -> SearchQuery {
    SearchQuery { q: q.to_string() }
}

fn request_for(q: &str) -> Progress {
    Progress::Forward(UpstreamRequest {
        url: "http://localhost:7700/indexes/posts/search".to_string(),
        authorization: "Bearer masterKey".to_string(),
        body: SearchRequest { q: q.to_string() },
    })
}

fn rejection() -> Progress {
    Progress::Done(Outcome::BadRequest("Query cannot be empty".to_string()))
}

#[test]
fn upstream_requests_are_posts_with_an_authorization_header() {
    assert_eq!(METHOD, "POST");
    assert_eq!(AUTHORIZATION_HEADER, "Authorization");
}

#[test]
fn plain_query_is_forwarded_as_it_is() {
    assert_eq!(receive(&engine(), &query("rust")), request_for("rust"));
}

#[test]
fn query_is_forwarded_trimmed() {
    assert_eq!(receive(&engine(), &query("  rust  ")), request_for("rust"));
    assert_eq!(receive(&engine(), &query("\trust async\n")), request_for("rust async"));
    assert_eq!(receive(&engine(), &query("\u{3000}rust")), request_for("rust"));
}

#[test]
fn white_space_inside_the_query_stays() {
    assert_eq!(receive(&engine(), &query(" a  b ")), request_for("a  b"));
}

#[test]
fn empty_query_is_rejected() {
    assert_eq!(receive(&engine(), &query("")), rejection());
}

#[test]
fn blank_query_is_rejected() {
    assert_eq!(receive(&engine(), &query("   ")), rejection());
    assert_eq!(receive(&engine(), &query(" \t\r\n")), rejection());
}

#[test]
fn absent_query_is_rejected() {
    assert_eq!(receive(&engine(), &SearchQuery::from_param(None)), rejection());
}

#[test]
fn rejected_query_is_answered_with_400_and_no_request() {
    for q in [None, Some("".to_string()), Some("   ".to_string())] {
        match receive(&engine(), &SearchQuery::from_param(q)) {
            Progress::Forward(request) => panic!("a request was made: {:?}", request),
            Progress::Done(outcome) => assert_eq!(
                respond(outcome),
                Response { status: 400, body: Body::Text("Query cannot be empty".to_string()) }
            ),
        }
    }
}

#[test]
fn request_goes_to_the_configured_engine_with_its_key() {
    let config = MeiliConfig::new("https://search.example.org".to_string(), "abc".to_string());
    assert_eq!(
        receive(&config, &query("q")),
        Progress::Forward(UpstreamRequest {
            url: "https://search.example.org/indexes/posts/search".to_string(),
            authorization: "Bearer abc".to_string(),
            body: SearchRequest { q: "q".to_string() },
        })
    );
}

#[test]
fn many_queries_each_get_their_own_request() {
    let config = engine();
    let queries: Vec<SearchQuery> = (0..50).map(|i| query(&format!(" query {} ", i))).collect();
    let requests: Vec<Progress> = queries.iter().map(|q| receive(&config, q)).collect();
    for (i, request) in requests.iter().enumerate().rev() {
        assert_eq!(*request, request_for(&format!("query {}", i)));
    }
}

#[test]
fn the_same_query_gives_the_same_request() {
    assert_eq!(receive(&engine(), &query(" x ")), receive(&engine(), &query("x")));
}

#[test]
fn present_parameter_is_the_query() {
    assert_eq!(SearchQuery::from_param(Some(" a ".to_string())), query(" a "));
}

#[test]
fn absent_parameter_is_the_empty_query() {
    assert_eq!(SearchQuery::from_param(None), query(""));
}
