use sendout::api::ApiRequest;
use sendout::config::ServiceConfig;
use sendout::email::message::{Body, EmailMessage, Recipients};
use sendout::postmark::client::PostmarkClient;
use sendout::postmark::request::PostmarkEmailRequest;

fn test_client() -> PostmarkClient<()> {
    PostmarkClient::new(
        (),
        ServiceConfig {
            base_url: "http://localhost:6666".into(),
            server_token: "test-token".into(),
            account_token: Some("test-account-token".into()),
            from_email: "from@test.com".into(),
        },
    )
}

fn test_request() -> PostmarkEmailRequest {
    PostmarkEmailRequest::from(EmailMessage::new(
        "wangari.maathai@example.africa".into(),
        Recipients(vec!["kwame.nkrumah@example.africa".into()]),
        "Green Belt Movement Monthly Update".into(),
        Body::Text("We planted 10,000 trees across Kenya this month.".into()),
    ))
}

#[test]
fn api_request_method_is_post() {
    assert_eq!(test_request().method(), "POST");
}

#[test]
fn api_request_endpoint_is_email() {
    assert_eq!(test_request().endpoint(), "/email");
}

#[test]
fn wire_request_lays_the_request_out() {
    let client = test_client();
    let request = test_request();
    let wire = client.wire_request(&request);

    assert_eq!(wire.method, "POST");
    assert_eq!(wire.uri, "http://localhost:6666/email");
    assert_eq!(wire.body, request.to_json());
    assert_eq!(
        wire.headers,
        vec![
            ("content-type".to_owned(), "application/json".to_owned()),
            ("X-Postmark-Server-Token".to_owned(), "test-token".to_owned()),
            (
                "X-Postmark-Account-Token".to_owned(),
                "test-account-token".to_owned()
            ),
        ]
    );
}

#[test]
fn wire_request_omits_the_account_header_without_a_token() {
    let mut client = test_client();
    client.config.account_token = None;
    let request = test_request();
    let wire = client.wire_request(&request);

    assert_eq!(wire.headers.len(), 2);
    assert!(!wire
        .headers
        .iter()
        .any(|(name, _)| name == "X-Postmark-Account-Token"));
}

#[test]
fn new_http_request_builds_an_authenticated_post() {
    let client = test_client();
    let request = test_request();
    let http_request = client
        .new_http_request(&request)
        .expect("request to build");

    assert_eq!(http_request.method(), http::Method::POST);
    assert_eq!(http_request.uri(), "http://localhost:6666/email");
    assert_eq!(
        http_request
            .headers()
            .get("X-Postmark-Server-Token")
            .and_then(|v| v.to_str().ok()),
        Some("test-token")
    );
    assert_eq!(
        http_request
            .headers()
            .get("content-type")
            .and_then(|v| v.to_str().ok()),
        Some("application/json")
    );
    assert_eq!(
        http_request.body(),
        &bytes::Bytes::from(request.to_json())
    );
}

#[test]
fn new_http_request_reports_an_unusable_base_url() {
    let mut client = test_client();
    client.config.base_url = "not a url".into();
    let request = test_request();
    let result = client.new_http_request(&request);

    assert!(matches!(
        result,
        Err(sendout::error::Error::SendFailed(m))
            if m.starts_with("failed to build HTTP request: ")
    ));
}
