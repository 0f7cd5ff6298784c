use sendout::email::EmailDelivery;
use sendout::error::Error;
use sendout::execute::HttpReply;
use sendout::postmark::response::PostmarkEmailResponse;

fn reply(body: &str) -> HttpReply {
    HttpReply {
        status: 200,
        body: body.as_bytes().to_vec(),
    }
}

fn make_json(
    to: &str,
    submitted_at: &str,
    message_id: &str,
    error_code: u16,
    message: &str,
) -> String {
    format!(
        "{{\"To\": \"{to}\", \"SubmittedAt\": \"{submitted_at}\", \"MessageID\": \"{message_id}\", \"ErrorCode\": {error_code}, \"Message\": \"{message}\"}}"
    )
}

#[test]
fn postmark_response_deserializes_all_fields() {
    let json = make_json(
        "kwame.nkrumah@example.africa",
        "2026-02-08T14:22:31Z",
        "sendout-msg-7f3a9b2c",
        0,
        "Pan-African unity message delivered to Ghana",
    );

    let response =
        PostmarkEmailResponse::try_from(&reply(&json)).expect("deserialization to succeed");

    assert_eq!(response.to, "kwame.nkrumah@example.africa");
    assert_eq!(response.submitted_at, "2026-02-08T14:22:31Z");
    assert_eq!(response.message_id, "sendout-msg-7f3a9b2c");
    assert_eq!(response.error_code, 0);
    assert_eq!(
        response.message,
        "Pan-African unity message delivered to Ghana"
    );
}

#[test]
fn postmark_response_missing_field_fails() {
    let json = "{\"To\": \"patrice.lumumba@example.africa\", \"SubmittedAt\": \"2026-02-08T16:00:00Z\", \"ErrorCode\": 0, \"Message\": \"Congo independence communique incomplete\"}";

    let result = PostmarkEmailResponse::try_from(&reply(json));

    assert!(matches!(result, Err(Error::SendFailed(_))));
}

#[test]
fn postmark_response_invalid_body_fails() {
    let result = PostmarkEmailResponse::try_from(&reply("not json"));
    assert!(
        matches!(result, Err(Error::SendFailed(m)) if m.starts_with("failed to parse response: "))
    );
}

#[test]
fn postmark_response_oversized_error_code_fails() {
    let json = make_json_with_code(70000);
    let result = PostmarkEmailResponse::try_from(&reply(&json));
    assert!(matches!(result, Err(Error::SendFailed(_))));
}

fn make_json_with_code(error_code: u64) -> String {
    format!(
        "{{\"To\": \"a@b.c\", \"SubmittedAt\": \"2026-02-08T16:00:00Z\", \"MessageID\": \"m\", \"ErrorCode\": {error_code}, \"Message\": \"x\"}}"
    )
}

#[test]
fn postmark_response_mistyped_error_code_fails() {
    let json = "{\"To\": \"a@b.c\", \"SubmittedAt\": \"2026-02-08T16:00:00Z\", \"MessageID\": \"m\", \"ErrorCode\": \"zero\", \"Message\": \"x\"}";
    let result = PostmarkEmailResponse::try_from(&reply(json));
    assert!(matches!(result, Err(Error::SendFailed(_))));
}

#[test]
fn postmark_response_converts_to_email_response() {
    let postmark = PostmarkEmailResponse {
        to: "wangari.maathai@example.africa".to_owned(),
        submitted_at: "2026-02-09T10:00:00Z".to_owned(),
        message_id: "sendout-msg-abc123".to_owned(),
        error_code: 0,
        message: "OK".to_owned(),
    };

    let response: EmailDelivery = postmark.into();

    assert_eq!(response.to, "wangari.maathai@example.africa");
    assert_eq!(response.submitted_at, "2026-02-09T10:00:00Z");
    assert_eq!(response.message_id, "sendout-msg-abc123");
    assert_eq!(response.error_code, 0);
    assert_eq!(response.message, "OK");
}

#[test]
fn email_response_deserializes_all_fields() {
    let json = "{\"to\": \"kwame.nkrumah@example.africa\", \"submitted_at\": \"2026-02-08T14:22:31Z\", \"message_id\": \"sendout-msg-7f3a9b2c\", \"error_code\": 0, \"message\": \"Pan-African unity message delivered to Ghana\"}";

    let response = EmailDelivery::try_from(&reply(json)).expect("deserialization to succeed");

    assert_eq!(response.to, "kwame.nkrumah@example.africa");
    assert_eq!(response.submitted_at, "2026-02-08T14:22:31Z");
    assert_eq!(response.message_id, "sendout-msg-7f3a9b2c");
    assert_eq!(response.error_code, 0);
    assert_eq!(
        response.message,
        "Pan-African unity message delivered to Ghana"
    );
}

#[test]
fn email_response_missing_field_fails() {
    let json = "{\"to\": \"patrice.lumumba@example.africa\", \"submitted_at\": \"2026-02-08T16:00:00Z\", \"error_code\": 0, \"message\": \"Congo independence communique incomplete\"}";

    let result = EmailDelivery::try_from(&reply(json));

    assert!(matches!(result, Err(Error::SendFailed(_))));
}
