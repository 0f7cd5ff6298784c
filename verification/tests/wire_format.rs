use sendout::email::message::{Attachment, Body, EmailMessage, Header, Recipients};
use sendout::postmark::request::{PostmarkBody, PostmarkEmailRequest};

fn minimal_email(body: Body) -> EmailMessage {
    EmailMessage::new(
        "wangari.maathai@example.africa".into(),
        Recipients(vec!["kwame.nkrumah@example.africa".into()]),
        "Green Belt Movement Monthly Update".into(),
        body,
    )
}

#[test]
fn wire_json_holds_the_required_members() {
    let email = minimal_email(Body::Text(
        "We planted 10,000 trees across Kenya this month.".into(),
    ));
    let request = PostmarkEmailRequest::from(email);
    let json = request.to_json();

    assert_eq!(
        json,
        "{\"From\":\"wangari.maathai@example.africa\",\
         \"To\":\"kwame.nkrumah@example.africa\",\
         \"Subject\":\"Green Belt Movement Monthly Update\",\
         \"TextBody\":\"We planted 10,000 trees across Kenya this month.\"}"
    );
}

#[test]
fn wire_json_names_the_html_body_after_its_variant() {
    let email = minimal_email(Body::Html("<h1>Pan-African Unity Conference</h1>".into()));
    let request = PostmarkEmailRequest::from(email);
    let json = request.to_json();

    assert!(json.contains("\"HtmlBody\":\"<h1>Pan-African Unity Conference</h1>\""));
    assert!(!json.contains("TextBody"));
}

#[test]
fn wire_json_joins_recipients_with_commas() {
    let mut email = minimal_email(Body::Text("body".into()));
    email.to = Recipients(vec![
        "wangari.maathai@example.africa".into(),
        "thomas.sankara@example.africa".into(),
        "miriam.makeba@example.africa".into(),
    ]);
    let request = PostmarkEmailRequest::from(email);
    let json = request.to_json();

    assert!(json.contains(
        "\"To\":\"wangari.maathai@example.africa,\
         thomas.sankara@example.africa,miriam.makeba@example.africa\""
    ));
}

#[test]
fn wire_json_omits_absent_optional_members() {
    let email = minimal_email(Body::Text("body".into()));
    let request = PostmarkEmailRequest::from(email);
    let json = request.to_json();

    assert!(!json.contains("\"Cc\""));
    assert!(!json.contains("\"Bcc\""));
    assert!(!json.contains("\"Tag\""));
    assert!(!json.contains("\"ReplyTo\""));
    assert!(!json.contains("\"Headers\""));
    assert!(!json.contains("\"Metadata\""));
    assert!(!json.contains("\"Attachments\""));
    assert!(!json.contains("\"MessageStream\""));
}

#[test]
fn wire_json_carries_every_optional_member_when_present() {
    let mut email = minimal_email(Body::Text("Body".into()));
    email.cc = Some(Recipients(vec!["steve.biko@example.africa".into()]));
    email.bcc = Some(Recipients(vec!["miriam.makeba@example.africa".into()]));
    email.tag = Some("tag-value".into());
    email.reply_to = Some(Recipients(vec!["gbehanzin@example.africa".into()]));
    email.headers = Some(vec![Header {
        name: "X-Custom".into(),
        value: "custom-value".into(),
    }]);
    email.metadata = Some(vec![("key".into(), "value".into())]);
    email.attachments = Some(vec![Attachment {
        name: "file.pdf".into(),
        content: "base64data".into(),
        content_type: "application/pdf".into(),
    }]);
    email.message_stream = Some("outbound".into());

    let request = PostmarkEmailRequest::from(email);
    let json = request.to_json();

    assert!(json.contains("\"Cc\":\"steve.biko@example.africa\""));
    assert!(json.contains("\"Bcc\":\"miriam.makeba@example.africa\""));
    assert!(json.contains("\"Tag\":\"tag-value\""));
    assert!(json.contains("\"ReplyTo\":\"gbehanzin@example.africa\""));
    assert!(json.contains("\"Headers\":[{\"Name\":\"X-Custom\",\"Value\":\"custom-value\"}]"));
    assert!(json.contains("\"Metadata\":{\"key\":\"value\"}"));
    assert!(json.contains(
        "\"Attachments\":[{\"Name\":\"file.pdf\",\
         \"Content\":\"base64data\",\"ContentType\":\"application/pdf\"}]"
    ));
    assert!(json.contains("\"MessageStream\":\"outbound\""));
}

#[test]
fn wire_json_escapes_quotes_backslashes_and_controls() {
    let mut email = minimal_email(Body::Text("line one\nline two".into()));
    email.subject = "a \"quoted\" back\\slash".into();
    let request = PostmarkEmailRequest::from(email);
    let json = request.to_json();

    assert!(json.contains("\"Subject\":\"a \\\"quoted\\\" back\\\\slash\""));
    assert!(json.contains("\"TextBody\":\"line one\\u000aline two\""));
}

#[test]
fn wire_json_parses_back_with_a_json_parser() {
    let mut email = minimal_email(Body::Text("tab\there".into()));
    email.subject = "subject with \"quotes\"".into();
    email.metadata = Some(vec![("literary_genre".into(), "african-fiction".into())]);
    let request = PostmarkEmailRequest::from(email);
    let json = request.to_json();

    let value: serde_json::Value =
        serde_json::from_str(&json).expect("emitted wire text to be valid JSON");
    assert_eq!(
        value.get("From").and_then(|v| v.as_str()),
        Some("wangari.maathai@example.africa")
    );
    assert_eq!(
        value.get("Subject").and_then(|v| v.as_str()),
        Some("subject with \"quotes\"")
    );
    assert_eq!(
        value.get("TextBody").and_then(|v| v.as_str()),
        Some("tab\there")
    );
    assert_eq!(
        value
            .get("Metadata")
            .and_then(|v| v.get("literary_genre"))
            .and_then(|v| v.as_str()),
        Some("african-fiction")
    );
    assert_eq!(value.get("body"), None);
}

#[test]
fn body_conversion_keeps_the_text() {
    let text: PostmarkBody = Body::Text("plain text".to_owned()).into();
    assert!(matches!(text, PostmarkBody::TextBody(ref body) if body == "plain text"));

    let html: PostmarkBody = Body::Html("<p>html</p>".to_owned()).into();
    assert!(matches!(html, PostmarkBody::HtmlBody(ref body) if body == "<p>html</p>"));
}
