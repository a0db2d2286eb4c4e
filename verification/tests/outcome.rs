use search_forwarder::model::{Hit, SearchResult};
use search_forwarder::outcome::{
    answer, resolve, respond, Body, Outcome, Response, UpstreamReply, STATUS_BAD_REQUEST,
    STATUS_OK, STATUS_SERVER_ERROR,
};

fn hit(id: &str, title: &str) -> Hit {
    Hit {
        id: id.to_string(),
        title: title.to_string(),
        date: "2024-01-01".to_string(),
        description: "D".to_string(),
        reading_time: "3 min".to_string(),
        slug: "t".to_string(),
    }
}

fn text(status: u16, body: &str) -> Response {
    Response { status, body: Body::Text(body.to_string()) }
}

fn member<'a>(object: &'a serde_json::Value, name: &str) -> &'a str {
    object.get(name).and_then(|v| v.as_str()).expect("a text field")
}

fn read_hits(body: &str) -> Option<SearchResult> {
    let value: serde_json::Value = serde_json::from_str(body).ok()?;
    let mut hits = Vec::new();
    for entry in value.get("hits")?.as_array()? {
        hits.push(Hit {
            id: member(entry, "id").to_string(),
            title: member(entry, "title").to_string(),
            date: member(entry, "date").to_string(),
            description: member(entry, "description").to_string(),
            reading_time: member(entry, "reading_time").to_string(),
            slug: member(entry, "slug").to_string(),
        });
    }
    Some(SearchResult { hits })
}

fn write_hits(result: &SearchResult) -> serde_json::Value {
    let mut hits = Vec::new();
    for hit in &result.hits {
        let mut entry = serde_json::Map::new();
        entry.insert("id".to_string(), serde_json::Value::String(hit.id.clone()));
        entry.insert("title".to_string(), serde_json::Value::String(hit.title.clone()));
        entry.insert("date".to_string(), serde_json::Value::String(hit.date.clone()));
        entry.insert("description".to_string(), serde_json::Value::String(hit.description.clone()));
        entry.insert(
            "reading_time".to_string(),
            serde_json::Value::String(hit.reading_time.clone()),
        );
        entry.insert("slug".to_string(), serde_json::Value::String(hit.slug.clone()));
        hits.push(serde_json::Value::Object(entry));
    }
    let mut body = serde_json::Map::new();
    body.insert("hits".to_string(), serde_json::Value::Array(hits));
    serde_json::Value::Object(body)
}

fn reply_to(body: &str) -> UpstreamReply {
    match read_hits(body) {
        Some(result) => UpstreamReply::Parsed(result),
        None => UpstreamReply::Unparseable,
    }
}

#[test]
fn status_codes() {
    assert_eq!(STATUS_OK, 200);
    assert_eq!(STATUS_BAD_REQUEST, 400);
    assert_eq!(STATUS_SERVER_ERROR, 500);
}

#[test]
fn transport_failure_is_a_transport_error() {
    assert_eq!(resolve(UpstreamReply::TransportFailed), Outcome::UpstreamTransportError);
}

#[test]
fn unparseable_reply_is_a_format_error() {
    assert_eq!(resolve(UpstreamReply::Unparseable), Outcome::UpstreamFormatError);
}

#[test]
fn parsed_reply_is_a_success_with_its_hits() {
    let outcome = resolve(UpstreamReply::Parsed(SearchResult { hits: vec![hit("1", "T")] }));
    assert_eq!(outcome, Outcome::Success(SearchResult { hits: vec![hit("1", "T")] }));
}

#[test]
fn success_is_answered_with_200_and_the_hits() {
    let response = respond(Outcome::Success(SearchResult { hits: vec![hit("1", "T")] }));
    assert_eq!(
        response,
        Response { status: 200, body: Body::Json(SearchResult { hits: vec![hit("1", "T")] }) }
    );
}

#[test]
fn bad_request_is_answered_with_400_and_its_text() {
    assert_eq!(
        respond(Outcome::BadRequest("Query cannot be empty".to_string())),
        text(400, "Query cannot be empty")
    );
}

#[test]
fn transport_error_is_answered_with_500() {
    assert_eq!(respond(Outcome::UpstreamTransportError), text(500, "Search server error"));
}

#[test]
fn format_error_is_answered_with_500() {
    assert_eq!(respond(Outcome::UpstreamFormatError), text(500, "Invalid response format"));
}

#[test]
fn connection_refused_is_answered_with_search_server_error() {
    assert_eq!(answer(UpstreamReply::TransportFailed), text(500, "Search server error"));
}

#[test]
fn body_that_is_no_json_is_answered_with_invalid_response_format() {
    assert_eq!(answer(reply_to("<html>not json</html>")), text(500, "Invalid response format"));
    assert_eq!(answer(reply_to("")), text(500, "Invalid response format"));
}

#[test]
fn body_without_hits_is_answered_with_invalid_response_format() {
    assert_eq!(answer(reply_to("{}")), text(500, "Invalid response format"));
    assert_eq!(answer(reply_to("{\"results\":[]}")), text(500, "Invalid response format"));
    assert_eq!(answer(reply_to("{\"hits\":3}")), text(500, "Invalid response format"));
}

#[test]
fn one_hit_comes_back_field_for_field() {
    let body = "{\"hits\":[{\"id\":\"1\",\"title\":\"T\",\"date\":\"2024-01-01\",\
        \"description\":\"D\",\"reading_time\":\"3 min\",\"slug\":\"t\"}]}";
    let response = answer(reply_to(body));
    assert_eq!(response.status, 200);
    match response.body {
        Body::Json(result) => {
            assert_eq!(result, SearchResult { hits: vec![hit("1", "T")] });
            let sent: serde_json::Value = serde_json::from_str(body).unwrap();
            assert_eq!(write_hits(&result), sent);
        }
        Body::Text(text) => panic!("text in place of hits: {}", text),
    }
}

#[test]
fn no_hits_come_back_as_no_hits() {
    assert_eq!(
        answer(reply_to("{\"hits\":[]}")),
        Response { status: 200, body: Body::Json(SearchResult { hits: vec![] }) }
    );
}

#[test]
fn hits_come_back_in_their_order() {
    let hits = || vec![hit("3", "c"), hit("1", "a"), hit("2", "b"), hit("1", "a")];
    assert_eq!(
        answer(UpstreamReply::Parsed(SearchResult { hits: hits() })),
        Response { status: 200, body: Body::Json(SearchResult { hits: hits() }) }
    );
}

#[test]
fn replies_handled_in_any_order_keep_their_own_hits() {
    let replies: Vec<UpstreamReply> = (0..50)
        .map(|i| UpstreamReply::Parsed(SearchResult { hits: vec![hit(&i.to_string(), "T")] }))
        .collect();
    let mut answers: Vec<(usize, Response)> = Vec::new();
    for (i, reply) in replies.into_iter().enumerate().rev() {
        answers.push((i, answer(reply)));
    }
    for (i, response) in answers {
        assert_eq!(
            response,
            Response {
                status: 200,
                body: Body::Json(SearchResult { hits: vec![hit(&i.to_string(), "T")] }),
            }
        );
    }
}
