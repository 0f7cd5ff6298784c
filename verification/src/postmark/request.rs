//! Postmark-specific request types
use vstd::prelude::*;

use crate::api::ApiRequest;
use crate::email::message::{
    all_addresses_ok, all_emails_ok, check_email, email_ok, metadata_keys_distinct,
    metadata_keys_unique, Attachment, Body, EmailMessage, Header, Recipients,
};
use crate::json::{
    append_member_str, append_quoted, chars_to_string, comma_joined, join_comma,
    lemma_comma_joined_push, member, push_ch, quoted,
};

verus! {

/// Postmark email request
#[derive(Debug, Clone, PartialEq, Eq)]
pub struct PostmarkEmailRequest {
    /// The sender email address
    pub from: String,
    /// Recipient email addresses
    pub to: Vec<String>,
    /// Email subject
    pub subject: String,
    /// Email body
    pub body: PostmarkBody,
    /// Cc recipient email addresses
    pub cc: Option<Vec<String>>,
    /// Bcc recipient email addresses
    pub bcc: Option<Vec<String>>,
    /// Email tag for categorization
    pub tag: Option<String>,
    /// Reply-To override
    pub reply_to: Option<Vec<String>>,
    /// Custom headers
    pub headers: Option<Vec<PostmarkHeader>>,
    /// Custom metadata key/value pairs, in insertion order
    pub metadata: Option<Vec<(String, String)>>,
    /// File attachments
    pub attachments: Option<Vec<PostmarkAttachment>>,
    /// Message stream ID
    pub message_stream: Option<String>,
}

/// Postmark email body
#[derive(Debug, Clone, PartialEq, Eq)]
pub enum PostmarkBody {
    /// Plain text email body
    TextBody(String),
    /// HTML email body
    HtmlBody(String),
}

/// Postmark custom header
#[derive(Debug, Clone, PartialEq, Eq)]
pub struct PostmarkHeader {
    /// Header name
    pub name: String,
    /// Header value
    pub value: String,
}

/// Postmark attachment
#[derive(Debug, Clone, PartialEq, Eq)]
pub struct PostmarkAttachment {
    /// File name
    pub name: String,
    /// Base64-encoded content
    pub content: String,
    /// MIME content type
    pub content_type: String,
}

/// How a message body maps onto the provider's body variants.
pub open spec fn body_from(b: Body) -> PostmarkBody {
    match b {
        Body::Text(text) => PostmarkBody::TextBody(text),
        Body::Html(html) => PostmarkBody::HtmlBody(html),
    }
}

/// How a custom header maps onto the provider's header shape.
pub open spec fn header_from(h: Header) -> PostmarkHeader {
    PostmarkHeader { name: h.name, value: h.value }
}

/// How an attachment maps onto the provider's attachment shape.
pub open spec fn attachment_from(a: Attachment) -> PostmarkAttachment {
    PostmarkAttachment { name: a.name, content: a.content, content_type: a.content_type }
}

/// The address list inside an optional recipient field.
pub open spec fn opt_addresses(v: Option<Recipients>) -> Option<Vec<String>> {
    match v {
        None => None,
        Some(r) => Some(r.0),
    }
}

impl From<Body> for PostmarkBody {
    fn from(body: Body) -> Self {
        match body {
            Body::Text(text) => PostmarkBody::TextBody(text),
            Body::Html(html) => PostmarkBody::HtmlBody(html),
        }
    }
}

impl vstd::std_specs::convert::FromSpecImpl<Body> for PostmarkBody {
    open spec fn obeys_from_spec() -> bool {
        true
    }

    open spec fn from_spec(v: Body) -> Self {
        body_from(v)
    }
}

impl From<Header> for PostmarkHeader {
    fn from(header: Header) -> Self {
        PostmarkHeader { name: header.name, value: header.value }
    }
}

impl vstd::std_specs::convert::FromSpecImpl<Header> for PostmarkHeader {
    open spec fn obeys_from_spec() -> bool {
        true
    }

    open spec fn from_spec(v: Header) -> Self {
        header_from(v)
    }
}

impl From<Attachment> for PostmarkAttachment {
    fn from(attachment: Attachment) -> Self {
        PostmarkAttachment {
            name: attachment.name,
            content: attachment.content,
            content_type: attachment.content_type,
        }
    }
}

impl vstd::std_specs::convert::FromSpecImpl<Attachment> for PostmarkAttachment {
    open spec fn obeys_from_spec() -> bool {
        true
    }

    open spec fn from_spec(v: Attachment) -> Self {
        attachment_from(v)
    }
}

impl From<Vec<String>> for Recipients {
    fn from(addresses: Vec<String>) -> Self {
        Recipients(addresses)
    }
}

impl vstd::std_specs::convert::FromSpecImpl<Vec<String>> for Recipients {
    open spec fn obeys_from_spec() -> bool {
        true
    }

    open spec fn from_spec(v: Vec<String>) -> Self {
        Recipients(v)
    }
}

impl PostmarkEmailRequest {
    /// Maps a provider-independent message onto the provider's request
    /// shape, field by field.
    pub fn from(email: EmailMessage) -> (r: PostmarkEmailRequest)
        ensures
            r.from == email.from,
            r.to == email.to.0,
            r.subject == email.subject,
            r.body == body_from(email.body),
            r.cc == opt_addresses(email.cc),
            r.bcc == opt_addresses(email.bcc),
            r.tag == email.tag,
            r.reply_to == opt_addresses(email.reply_to),
            match email.headers {
                None => r.headers is None,
                Some(hs) => r.headers matches Some(ps) && ps@ == hs@.map_values(
                    |h: Header| header_from(h),
                ),
            },
            r.metadata == email.metadata,
            match email.attachments {
                None => r.attachments is None,
                Some(ats) => r.attachments matches Some(ps) && ps@ == ats@.map_values(
                    |a: Attachment| attachment_from(a),
                ),
            },
            r.message_stream == email.message_stream,
    {
        let headers = match email.headers {
            None => None,
            Some(hs) => Some(map_headers(hs)),
        };
        let attachments = match email.attachments {
            None => None,
            Some(ats) => Some(map_attachments(ats)),
        };
        PostmarkEmailRequest {
            from: email.from,
            to: email.to.0,
            subject: email.subject,
            body: PostmarkBody::from(email.body),
            cc: match email.cc {
                None => None,
                Some(r) => Some(r.0),
            },
            bcc: match email.bcc {
                None => None,
                Some(r) => Some(r.0),
            },
            tag: email.tag,
            reply_to: match email.reply_to {
                None => None,
                Some(r) => Some(r.0),
            },
            headers,
            metadata: email.metadata,
            attachments,
            message_stream: email.message_stream,
        }
    }
}

/// The JSON member carrying the message body, named after its variant.
pub open spec fn body_member(b: PostmarkBody) -> Seq<char> {
    match b {
        PostmarkBody::TextBody(t) => member("TextBody"@, quoted(t@)),
        PostmarkBody::HtmlBody(t) => member("HtmlBody"@, quoted(t@)),
    }
}

/// The JSON object for one custom header.
pub open spec fn header_json(h: PostmarkHeader) -> Seq<char> {
    seq!['{'] + member("Name"@, quoted(h.name@)) + seq![','] + member("Value"@, quoted(h.value@))
        + seq!['}']
}

/// The JSON object for one attachment.
pub open spec fn attachment_json(a: PostmarkAttachment) -> Seq<char> {
    seq!['{'] + member("Name"@, quoted(a.name@)) + seq![','] + member(
        "Content"@,
        quoted(a.content@),
    ) + seq![','] + member("ContentType"@, quoted(a.content_type@)) + seq!['}']
}

/// The JSON array holding the custom headers.
pub open spec fn headers_json(hs: Seq<PostmarkHeader>) -> Seq<char> {
    seq!['['] + comma_joined(hs.map_values(|h: PostmarkHeader| header_json(h))) + seq![']']
}

/// The JSON array holding the attachments.
pub open spec fn attachments_json(ats: Seq<PostmarkAttachment>) -> Seq<char> {
    seq!['['] + comma_joined(ats.map_values(|a: PostmarkAttachment| attachment_json(a)))
        + seq![']']
}

/// The JSON object holding the metadata pairs, in their stored order.
pub open spec fn metadata_json(md: Seq<(String, String)>) -> Seq<char> {
    seq!['{'] + comma_joined(md.map_values(|kv: (String, String)| member(kv.0@, quoted(kv.1@))))
        + seq!['}']
}

/// An optional string member: nothing when absent, a comma and the
/// member when present.
pub open spec fn opt_text_member(key: Seq<char>, v: Option<String>) -> Seq<char> {
    match v {
        None => Seq::empty(),
        Some(s) => seq![','] + member(key, quoted(s@)),
    }
}

/// An optional recipient-list member: the addresses joined by commas
/// into one string, when present.
pub open spec fn opt_addresses_member(key: Seq<char>, v: Option<Vec<String>>) -> Seq<char> {
    match v {
        None => Seq::empty(),
        Some(l) => seq![','] + member(key, quoted(comma_joined(l.deep_view()))),
    }
}

/// The optional headers member.
pub open spec fn opt_headers_member(v: Option<Vec<PostmarkHeader>>) -> Seq<char> {
    match v {
        None => Seq::empty(),
        Some(hs) => seq![','] + member("Headers"@, headers_json(hs@)),
    }
}

/// The optional metadata member.
pub open spec fn opt_metadata_member(v: Option<Vec<(String, String)>>) -> Seq<char> {
    match v {
        None => Seq::empty(),
        Some(md) => seq![','] + member("Metadata"@, metadata_json(md@)),
    }
}

/// The optional attachments member.
pub open spec fn opt_attachments_member(v: Option<Vec<PostmarkAttachment>>) -> Seq<char> {
    match v {
        None => Seq::empty(),
        Some(ats) => seq![','] + member("Attachments"@, attachments_json(ats@)),
    }
}

/// The provider's wire format for the whole request: one JSON object
/// with the required members first and each optional member present
/// exactly when its field is.
pub open spec fn spec_wire_json(r: PostmarkEmailRequest) -> Seq<char> {
    seq!['{'] + member("From"@, quoted(r.from@)) + seq![','] + member(
        "To"@,
        quoted(comma_joined(r.to.deep_view())),
    ) + seq![','] + member("Subject"@, quoted(r.subject@)) + seq![','] + body_member(r.body)
        + opt_addresses_member("Cc"@, r.cc) + opt_addresses_member("Bcc"@, r.bcc)
        + opt_text_member("Tag"@, r.tag) + opt_addresses_member("ReplyTo"@, r.reply_to)
        + opt_headers_member(r.headers) + opt_metadata_member(r.metadata)
        + opt_attachments_member(r.attachments) + opt_text_member(
        "MessageStream"@,
        r.message_stream,
    ) + seq!['}']
}

impl PostmarkEmailRequest {
    /// Serializes the request into the provider's JSON wire format.
    pub fn to_json(&self) -> (j: String)
        ensures
            j@ == spec_wire_json(*self),
    {
        let mut out: Vec<char> = Vec::new();
        push_ch(&mut out, '{');
        proof {
            assert(out@ =~= seq!['{']);
        }
        append_member_str(&mut out, "From", self.from.as_str());
        let joined_to = join_comma(&self.to);
        append_sep_member_str(&mut out, "To", joined_to.as_str());
        append_sep_member_str(&mut out, "Subject", self.subject.as_str());
        append_body_member(&mut out, &self.body);
        append_opt_addresses_member(&mut out, "Cc", &self.cc);
        append_opt_addresses_member(&mut out, "Bcc", &self.bcc);
        append_opt_text_member(&mut out, "Tag", &self.tag);
        append_opt_addresses_member(&mut out, "ReplyTo", &self.reply_to);
        append_headers_member(&mut out, &self.headers);
        append_metadata_member(&mut out, &self.metadata);
        append_attachments_member(&mut out, &self.attachments);
        append_opt_text_member(&mut out, "MessageStream", &self.message_stream);
        push_ch(&mut out, '}');
        proof {
            assert(out@ =~= spec_wire_json(*self));
        }
        chars_to_string(&out)
    }
}

impl PostmarkEmailRequest {
    /// The request passes the provider's field rules: a well-formed
    /// sender address, one to fifty recipients, at most fifty
    /// addresses in each carbon-copy list, every address well formed,
    /// and a tag of at most a thousand bytes.
    pub open spec fn spec_valid(self) -> bool {
        &&& email_ok(self.from@)
        &&& 1 <= self.to@.len() <= 50
        &&& all_emails_ok(self.to@)
        &&& (self.cc matches Some(l) ==> l@.len() <= 50 && all_emails_ok(l@))
        &&& (self.bcc matches Some(l) ==> l@.len() <= 50 && all_emails_ok(l@))
        &&& (self.tag matches Some(t) ==> vstd::utf8::encode_utf8(t@).len() <= 1000)
        &&& (self.reply_to matches Some(l) ==> all_emails_ok(l@))
        &&& (self.metadata matches Some(m) ==> metadata_keys_unique(m@))
    }

    /// The first violated provider rule, in the order the fields are
    /// checked, as the message that reports it.
    pub open spec fn spec_first_violation(self) -> Option<Seq<char>> {
        if !email_ok(self.from@) {
            Some("from: not a valid email address"@)
        } else if !(1 <= self.to@.len() <= 50) {
            Some("to: must hold between 1 and 50 addresses"@)
        } else if !all_emails_ok(self.to@) {
            Some("to: not all addresses are valid"@)
        } else if (match self.cc {
            Some(l) => l@.len() > 50,
            None => false,
        }) {
            Some("cc: must hold at most 50 addresses"@)
        } else if !(match self.cc {
            Some(l) => all_emails_ok(l@),
            None => true,
        }) {
            Some("cc: not all addresses are valid"@)
        } else if (match self.bcc {
            Some(l) => l@.len() > 50,
            None => false,
        }) {
            Some("bcc: must hold at most 50 addresses"@)
        } else if !(match self.bcc {
            Some(l) => all_emails_ok(l@),
            None => true,
        }) {
            Some("bcc: not all addresses are valid"@)
        } else if !(match self.tag {
            Some(t) => vstd::utf8::encode_utf8(t@).len() <= 1000,
            None => true,
        }) {
            Some("tag: longer than 1000 bytes"@)
        } else if !(match self.reply_to {
            Some(l) => all_emails_ok(l@),
            None => true,
        }) {
            Some("reply_to: not all addresses are valid"@)
        } else if !(match self.metadata {
            Some(m) => metadata_keys_unique(m@),
            None => true,
        }) {
            Some("metadata: duplicate key"@)
        } else {
            None
        }
    }

    /// Checks the provider's field rules, reporting the first violated
    /// one.
    pub fn validate(&self) -> (r: Result<(), String>)
        ensures
            r is Ok <==> self.spec_valid(),
            r matches Err(m) ==> Some(m@) == self.spec_first_violation(),
    {
        if !check_email(self.from.as_str()) {
            return Err(String::from_str("from: not a valid email address"));
        }
        if self.to.len() < 1 || self.to.len() > 50 {
            return Err(String::from_str("to: must hold between 1 and 50 addresses"));
        }
        if !all_addresses_ok(&self.to) {
            return Err(String::from_str("to: not all addresses are valid"));
        }
        if let Some(cc) = &self.cc {
            if cc.len() > 50 {
                return Err(String::from_str("cc: must hold at most 50 addresses"));
            }
            if !all_addresses_ok(cc) {
                return Err(String::from_str("cc: not all addresses are valid"));
            }
        }
        if let Some(bcc) = &self.bcc {
            if bcc.len() > 50 {
                return Err(String::from_str("bcc: must hold at most 50 addresses"));
            }
            if !all_addresses_ok(bcc) {
                return Err(String::from_str("bcc: not all addresses are valid"));
            }
        }
        if let Some(tag) = &self.tag {
            if tag.as_str().as_bytes().len() > 1000 {
                return Err(String::from_str("tag: longer than 1000 bytes"));
            }
        }
        if let Some(reply_to) = &self.reply_to {
            if !all_addresses_ok(reply_to) {
                return Err(String::from_str("reply_to: not all addresses are valid"));
            }
        }
        if let Some(metadata) = &self.metadata {
            if !metadata_keys_distinct(metadata) {
                return Err(String::from_str("metadata: duplicate key"));
            }
        }
        Ok(())
    }
}

impl ApiRequest for PostmarkEmailRequest {
    open spec fn spec_method(&self) -> Seq<char> {
        "POST"@
    }

    open spec fn spec_endpoint(&self) -> Seq<char> {
        "/email"@
    }

    open spec fn spec_body_json(&self) -> Seq<char> {
        spec_wire_json(*self)
    }

    fn method(&self) -> (m: String) {
        String::from_str("POST")
    }

    fn endpoint(&self) -> (e: String) {
        String::from_str("/email")
    }

    fn body_json(&self) -> (b: String) {
        self.to_json()
    }
}

/// Appends a comma and then a string-valued member.
fn append_sep_member_str(out: &mut Vec<char>, key: &str, val: &str)
    ensures
        final(out)@ == old(out)@ + seq![','] + member(key@, quoted(val@)),
{
    push_ch(out, ',');
    append_member_str(out, key, val);
}

/// Appends a comma and the member carrying the message body.
fn append_body_member(out: &mut Vec<char>, b: &PostmarkBody)
    ensures
        final(out)@ == old(out)@ + seq![','] + body_member(*b),
{
    push_ch(out, ',');
    match b {
        PostmarkBody::TextBody(t) => {
            append_member_str(out, "TextBody", t.as_str());
        },
        PostmarkBody::HtmlBody(t) => {
            append_member_str(out, "HtmlBody", t.as_str());
        },
    }
}

/// Appends an optional string member.
fn append_opt_text_member(out: &mut Vec<char>, key: &str, v: &Option<String>)
    ensures
        final(out)@ == old(out)@ + opt_text_member(key@, *v),
{
    match v {
        None => {
            proof {
                assert(out@ =~= old(out)@ + opt_text_member(key@, *v));
            }
        },
        Some(s) => {
            push_ch(out, ',');
            append_member_str(out, key, s.as_str());
            proof {
                assert(out@ =~= old(out)@ + opt_text_member(key@, *v));
            }
        },
    }
}

/// Appends an optional recipient-list member.
fn append_opt_addresses_member(out: &mut Vec<char>, key: &str, v: &Option<Vec<String>>)
    ensures
        final(out)@ == old(out)@ + opt_addresses_member(key@, *v),
{
    match v {
        None => {
            proof {
                assert(out@ =~= old(out)@ + opt_addresses_member(key@, *v));
            }
        },
        Some(l) => {
            push_ch(out, ',');
            let joined = join_comma(l);
            append_member_str(out, key, joined.as_str());
            proof {
                assert(out@ =~= old(out)@ + opt_addresses_member(key@, *v));
            }
        },
    }
}

/// Appends the JSON object for one custom header.
fn append_header_obj(out: &mut Vec<char>, h: &PostmarkHeader)
    ensures
        final(out)@ == old(out)@ + header_json(*h),
{
    push_ch(out, '{');
    proof {
        assert(out@ =~= old(out)@ + seq!['{']);
    }
    append_member_str(out, "Name", h.name.as_str());
    push_ch(out, ',');
    append_member_str(out, "Value", h.value.as_str());
    push_ch(out, '}');
    proof {
        assert(out@ =~= old(out)@ + header_json(*h));
    }
}

/// Appends the JSON object for one attachment.
fn append_attachment_obj(out: &mut Vec<char>, a: &PostmarkAttachment)
    ensures
        final(out)@ == old(out)@ + attachment_json(*a),
{
    push_ch(out, '{');
    proof {
        assert(out@ =~= old(out)@ + seq!['{']);
    }
    append_member_str(out, "Name", a.name.as_str());
    push_ch(out, ',');
    append_member_str(out, "Content", a.content.as_str());
    push_ch(out, ',');
    append_member_str(out, "ContentType", a.content_type.as_str());
    push_ch(out, '}');
    proof {
        assert(out@ =~= old(out)@ + attachment_json(*a));
    }
}

/// Appends the optional headers member.
fn append_headers_member(out: &mut Vec<char>, v: &Option<Vec<PostmarkHeader>>)
    ensures
        final(out)@ == old(out)@ + opt_headers_member(*v),
{
    match v {
        None => {
            proof {
                assert(out@ =~= old(out)@ + opt_headers_member(*v));
            }
        },
        Some(hs) => {
            push_ch(out, ',');
            append_quoted(out, "Headers");
            push_ch(out, ':');
            push_ch(out, '[');
            let ghost base = out@;
            proof {
                assert(out@ =~= base + comma_joined(
                    hs@.take(0).map_values(|h: PostmarkHeader| header_json(h)),
                ));
            }
            let n = hs.len();
            let mut i: usize = 0;
            while i < n
                invariant
                    0 <= i <= n,
                    n == hs@.len(),
                    out@ == base + comma_joined(
                        hs@.take(i as int).map_values(|h: PostmarkHeader| header_json(h)),
                    ),
                decreases n - i,
            {
                if i > 0 {
                    push_ch(out, ',');
                }
                append_header_obj(out, &hs[i]);
                proof {
                    assert(hs@.take(i as int + 1).map_values(|h: PostmarkHeader| header_json(h))
                        =~= hs@.take(i as int).map_values(|h: PostmarkHeader| header_json(h)).push(
                        header_json(hs@[i as int]),
                    ));
                    lemma_comma_joined_push(
                        hs@.take(i as int).map_values(|h: PostmarkHeader| header_json(h)),
                        header_json(hs@[i as int]),
                    );
                    assert(out@ =~= base + comma_joined(
                        hs@.take(i as int + 1).map_values(|h: PostmarkHeader| header_json(h)),
                    ));
                }
                i += 1;
            }
            push_ch(out, ']');
            proof {
                assert(hs@.take(n as int) =~= hs@);
                assert(out@ =~= old(out)@ + opt_headers_member(*v));
            }
        },
    }
}

/// Appends the optional metadata member.
fn append_metadata_member(out: &mut Vec<char>, v: &Option<Vec<(String, String)>>)
    ensures
        final(out)@ == old(out)@ + opt_metadata_member(*v),
{
    match v {
        None => {
            proof {
                assert(out@ =~= old(out)@ + opt_metadata_member(*v));
            }
        },
        Some(md) => {
            push_ch(out, ',');
            append_quoted(out, "Metadata");
            push_ch(out, ':');
            push_ch(out, '{');
            let ghost base = out@;
            proof {
                assert(out@ =~= base + comma_joined(
                    md@.take(0).map_values(|kv: (String, String)| member(kv.0@, quoted(kv.1@))),
                ));
            }
            let n = md.len();
            let mut i: usize = 0;
            while i < n
                invariant
                    0 <= i <= n,
                    n == md@.len(),
                    out@ == base + comma_joined(
                        md@.take(i as int).map_values(
                            |kv: (String, String)| member(kv.0@, quoted(kv.1@)),
                        ),
                    ),
                decreases n - i,
            {
                if i > 0 {
                    push_ch(out, ',');
                }
                append_member_str(out, md[i].0.as_str(), md[i].1.as_str());
                proof {
                    assert(md@.take(i as int + 1).map_values(
                        |kv: (String, String)| member(kv.0@, quoted(kv.1@)),
                    ) =~= md@.take(i as int).map_values(
                        |kv: (String, String)| member(kv.0@, quoted(kv.1@)),
                    ).push(member(md@[i as int].0@, quoted(md@[i as int].1@))));
                    lemma_comma_joined_push(
                        md@.take(i as int).map_values(
                            |kv: (String, String)| member(kv.0@, quoted(kv.1@)),
                        ),
                        member(md@[i as int].0@, quoted(md@[i as int].1@)),
                    );
                    assert(out@ =~= base + comma_joined(
                        md@.take(i as int + 1).map_values(
                            |kv: (String, String)| member(kv.0@, quoted(kv.1@)),
                        ),
                    ));
                }
                i += 1;
            }
            push_ch(out, '}');
            proof {
                assert(md@.take(n as int) =~= md@);
                assert(out@ =~= old(out)@ + opt_metadata_member(*v));
            }
        },
    }
}

/// Appends the optional attachments member.
fn append_attachments_member(out: &mut Vec<char>, v: &Option<Vec<PostmarkAttachment>>)
    ensures
        final(out)@ == old(out)@ + opt_attachments_member(*v),
{
    match v {
        None => {
            proof {
                assert(out@ =~= old(out)@ + opt_attachments_member(*v));
            }
        },
        Some(ats) => {
            push_ch(out, ',');
            append_quoted(out, "Attachments");
            push_ch(out, ':');
            push_ch(out, '[');
            let ghost base = out@;
            proof {
                assert(out@ =~= base + comma_joined(
                    ats@.take(0).map_values(|a: PostmarkAttachment| attachment_json(a)),
                ));
            }
            let n = ats.len();
            let mut i: usize = 0;
            while i < n
                invariant
                    0 <= i <= n,
                    n == ats@.len(),
                    out@ == base + comma_joined(
                        ats@.take(i as int).map_values(|a: PostmarkAttachment| attachment_json(a)),
                    ),
                decreases n - i,
            {
                if i > 0 {
                    push_ch(out, ',');
                }
                append_attachment_obj(out, &ats[i]);
                proof {
                    assert(ats@.take(i as int + 1).map_values(
                        |a: PostmarkAttachment| attachment_json(a),
                    ) =~= ats@.take(i as int).map_values(
                        |a: PostmarkAttachment| attachment_json(a),
                    ).push(attachment_json(ats@[i as int])));
                    lemma_comma_joined_push(
                        ats@.take(i as int).map_values(|a: PostmarkAttachment| attachment_json(a)),
                        attachment_json(ats@[i as int]),
                    );
                    assert(out@ =~= base + comma_joined(
                        ats@.take(i as int + 1).map_values(
                            |a: PostmarkAttachment| attachment_json(a),
                        ),
                    ));
                }
                i += 1;
            }
            push_ch(out, ']');
            proof {
                assert(ats@.take(n as int) =~= ats@);
                assert(out@ =~= old(out)@ + opt_attachments_member(*v));
            }
        },
    }
}

/// Maps each custom header onto the provider's header shape.
fn map_headers(hs: Vec<Header>) -> (r: Vec<PostmarkHeader>)
    ensures
        r@ == hs@.map_values(|h: Header| header_from(h)),
{
    let ghost orig = hs@;
    let mut hs = hs;
    let mut r: Vec<PostmarkHeader> = Vec::new();
    while hs.len() > 0
        invariant
            r@.len() + hs@.len() == orig.len(),
            hs@ =~= orig.skip(r@.len() as int),
            r@ =~= orig.take(r@.len() as int).map_values(|h: Header| header_from(h)),
        decreases hs@.len(),
    {
        let ghost k = r@.len() as int;
        let h = hs.remove(0);
        r.push(PostmarkHeader::from(h));
        proof {
            assert(orig.skip(k).remove(0) =~= orig.skip(k + 1));
            assert(orig.take(k + 1).map_values(|h: Header| header_from(h)) =~= orig.take(
                k,
            ).map_values(|h: Header| header_from(h)).push(header_from(orig[k])));
        }
    }
    proof {
        assert(orig.take(orig.len() as int) =~= orig);
    }
    r
}

/// Maps each attachment onto the provider's attachment shape.
fn map_attachments(ats: Vec<Attachment>) -> (r: Vec<PostmarkAttachment>)
    ensures
        r@ == ats@.map_values(|a: Attachment| attachment_from(a)),
{
    let ghost orig = ats@;
    let mut ats = ats;
    let mut r: Vec<PostmarkAttachment> = Vec::new();
    while ats.len() > 0
        invariant
            r@.len() + ats@.len() == orig.len(),
            ats@ =~= orig.skip(r@.len() as int),
            r@ =~= orig.take(r@.len() as int).map_values(|a: Attachment| attachment_from(a)),
        decreases ats@.len(),
    {
        let ghost k = r@.len() as int;
        let a = ats.remove(0);
        r.push(PostmarkAttachment::from(a));
        proof {
            assert(orig.skip(k).remove(0) =~= orig.skip(k + 1));
            assert(orig.take(k + 1).map_values(|a: Attachment| attachment_from(a)) =~= orig.take(
                k,
            ).map_values(|a: Attachment| attachment_from(a)).push(attachment_from(orig[k])));
        }
    }
    proof {
        assert(orig.take(orig.len() as int) =~= orig);
    }
    r
}

} // verus!
