use hrdrift::http::{bearer_header_value, AuthenticatedHttpClient, NullClient};

#[test]
fn the_bearer_header_prefixes_the_token() {
    assert_eq!(bearer_header_value("irrelevant"), "Bearer irrelevant");
}

#[test]
fn null_http_client_returns_unauthenticated_response_by_default() {
    let mut client = NullClient::create_null();

    let response = client
        .get("http://www.example.com", "token")
        .expect("the double never fails on transport");

    assert_eq!(response.status, 401);
}

#[test]
fn null_client_can_map_unauthenticated_url_to_response_body() {
    let mut client = NullClient::create_null().map_url(
        "http://example.com/test".to_owned(),
        "stored response".to_owned(),
    );

    let response = client
        .get("http://example.com/test", "doesnt matter")
        .expect("the double never fails on transport");

    assert_eq!(response.body, "stored response");
}

#[test]
fn null_client_can_create_authenticated_urls() {
    let mut client = NullClient::create_null().map_authenticated_url(
        "token".to_owned(),
        "http://example.com/test".to_owned(),
        "stored response".to_owned(),
    );

    let response = client
        .get("http://example.com/test", "token")
        .expect("the double never fails on transport");
    assert_eq!(response.status, 200);
    assert_eq!(response.body, "stored response");

    let response = client
        .get("http://example.com/test", "bad liar")
        .expect("the double never fails on transport");
    assert_eq!(response.status, 401);
}

#[test]
fn unregistered_token_gets_an_authorization_failure_not_a_transport_error() {
    let mut client = NullClient::create_null().map_authenticated_url(
        "registered".to_owned(),
        "http://example.com/guarded".to_owned(),
        "secret body".to_owned(),
    );

    let result = client.get("http://example.com/guarded", "unregistered");

    // The miss comes back as a response, not as an error.
    let response = result.expect("an authorization failure is not a transport failure");
    assert_eq!(response.status, 401);
    assert_eq!(response.body, "");
}

#[test]
fn a_later_mapping_for_the_same_url_overrides_an_earlier_one() {
    let mut client = NullClient::create_null()
        .map_url("http://example.com/x".to_owned(), "first".to_owned())
        .map_url("http://example.com/x".to_owned(), "second".to_owned());

    let response = client
        .get("http://example.com/x", "any")
        .expect("the double never fails on transport");
    assert_eq!(response.body, "second");
}

#[test]
fn null_client_post_form_returns_the_canned_response_and_records_the_call() {
    let mut client =
        NullClient::create_null().map_post_response(200, "{\"ok\":true}".to_owned());

    let fields = vec![
        ("a".to_owned(), "1".to_owned()),
        ("b".to_owned(), "2".to_owned()),
    ];
    let response = client
        .post_form("http://example.com/submit", &fields)
        .expect("the double never fails on transport");

    assert_eq!(response.status, 200);
    assert_eq!(response.body, "{\"ok\":true}");
    assert_eq!(client.post_call_count(), 1);
    let recorded = client.recorded_post(0);
    assert_eq!(recorded.0, "http://example.com/submit");
    assert_eq!(recorded.1, fields);
}

#[test]
fn null_client_post_form_without_a_mapping_is_an_authorization_failure() {
    let mut client = NullClient::create_null();

    let fields: Vec<(String, String)> = vec![];
    let response = client
        .post_form("http://example.com/submit", &fields)
        .expect("the double never fails on transport");

    assert_eq!(response.status, 401);
    assert_eq!(client.post_call_count(), 1);
}
