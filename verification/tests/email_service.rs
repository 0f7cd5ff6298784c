use sendout::config::ServiceConfig;
use sendout::email::message::{Body, EmailMessage, Recipients};
use sendout::error::Error;
use sendout::execute::{Execute, HttpReply, WireRequest};
use sendout::postmark::client::PostmarkClient;
use sendout::service::EmailService;

/// A transport that checks the request and answers with a canned reply.
struct CannedTransport {
    expected_method: String,
    expected_uri: String,
    expected_header: (String, String),
    status: u16,
    body: &'static str,
}

impl Execute for CannedTransport {
    fn execute(&self, request: &WireRequest) -> Result<HttpReply, Error> {
        assert_eq!(request.method, self.expected_method);
        assert_eq!(request.uri, self.expected_uri);
        assert!(request.headers.contains(&self.expected_header));
        Ok(HttpReply {
            status: self.status,
            body: self.body.as_bytes().to_vec(),
        })
    }
}

fn test_config() -> ServiceConfig {
    ServiceConfig {
        base_url: "http://localhost:6666".into(),
        server_token: "test-server-token".into(),
        account_token: Some("test-account-token".into()),
        from_email: "test-user".into(),
    }
}

fn email_message() -> EmailMessage {
    EmailMessage::new(
        "wangari.maathai@example.africa".into(),
        Recipients(vec!["kwame.nkrumah@example.africa".into()]),
        "Green Belt Movement Monthly Update".into(),
        Body::Text("We planted 10,000 trees across Kenya this month.".into()),
    )
}

#[test]
fn send_mail_succeeds() {
    let transport = CannedTransport {
        expected_method: "POST".into(),
        expected_uri: "http://localhost:6666/email".into(),
        expected_header: (
            "X-Postmark-Server-Token".into(),
            "test-server-token".into(),
        ),
        status: 200,
        body: "{\"To\": \"kwame.nkrumah@example.africa\", \"SubmittedAt\": \"2026-02-15T10:00:00Z\", \"MessageID\": \"msg-abc-123\", \"ErrorCode\": 0, \"Message\": \"Ok\"}",
    };
    let email_client = PostmarkClient::new(transport, test_config());

    let delivery = email_client
        .send_email(email_message())
        .expect("email to be sent");
    assert_eq!(delivery.message_id, "msg-abc-123");
    assert_eq!(delivery.error_code, 0);
}

#[test]
fn send_email_hit_rate_limit() {
    let transport = CannedTransport {
        expected_method: "POST".into(),
        expected_uri: "http://localhost:6666/email".into(),
        expected_header: (
            "X-Postmark-Server-Token".into(),
            "test-server-token".into(),
        ),
        status: 429,
        body: "",
    };
    let email_client = PostmarkClient::new(transport, test_config());

    let result = email_client.send_email(email_message());
    assert!(matches!(result, Err(Error::RateLimitExceeded)));
}

/// A transport that always fails before reaching the provider.
struct FailingTransport;

impl Execute for FailingTransport {
    fn execute(&self, _request: &WireRequest) -> Result<HttpReply, Error> {
        Err(Error::SendFailed("connection failed".into()))
    }
}

#[test]
fn send_email_passes_transport_errors_through() {
    let email_client = PostmarkClient::new(FailingTransport, test_config());
    let result = email_client.send_email(email_message());
    assert!(matches!(result, Err(Error::SendFailed(m)) if m == "connection failed"));
}

#[test]
fn send_email_rejects_garbled_receipt() {
    let transport = CannedTransport {
        expected_method: "POST".into(),
        expected_uri: "http://localhost:6666/email".into(),
        expected_header: (
            "X-Postmark-Server-Token".into(),
            "test-server-token".into(),
        ),
        status: 200,
        body: "not json",
    };
    let email_client = PostmarkClient::new(transport, test_config());

    let result = email_client.send_email(email_message());
    assert!(matches!(
        result,
        Err(Error::SendFailed(m)) if m.starts_with("failed to parse response: ")
    ));
}

/// The trait object view of the client works the same way.
#[test]
fn email_service_trait_sends_through_the_client() {
    let transport = CannedTransport {
        expected_method: "POST".into(),
        expected_uri: "http://localhost:6666/email".into(),
        expected_header: (
            "X-Postmark-Account-Token".into(),
            "test-account-token".into(),
        ),
        status: 200,
        body: "{\"To\": \"kwame.nkrumah@example.africa\", \"SubmittedAt\": \"2026-02-15T10:00:00Z\", \"MessageID\": \"msg-abc-123\", \"ErrorCode\": 0, \"Message\": \"Ok\"}",
    };
    let email_client = PostmarkClient::new(transport, test_config());
    let service: &dyn EmailService<EmailMessage, sendout::email::EmailDelivery> = &email_client;

    let delivery = service
        .send_email(email_message())
        .expect("email to be sent");
    assert_eq!(delivery.to, "kwame.nkrumah@example.africa");
    assert_eq!(delivery.submitted_at, "2026-02-15T10:00:00Z");
    assert_eq!(delivery.message, "Ok");
}
