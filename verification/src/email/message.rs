//! Email data structure
use vstd::prelude::*;

verus! {

/// Request for sending an email
#[derive(Debug, Clone, PartialEq, Eq)]
pub struct EmailMessage {
    /// The sender email address
    pub from: String,
    /// Recipient email addresses
    pub to: Recipients,
    /// Email subject
    pub subject: String,
    /// Plain text or HTML email message
    pub body: Body,
    /// Cc recipient email addresses
    pub cc: Option<Recipients>,
    /// Bcc recipient email addresses
    pub bcc: Option<Recipients>,
    /// Email tag that allows you to categorize outgoing emails
    /// and get detailed statistics
    pub tag: Option<String>,
    /// Reply To override email address
    pub reply_to: Option<Recipients>,
    /// List of custom headers to include
    pub headers: Option<Vec<Header>>,
    /// Custom metadata key/value pairs, in insertion order
    pub metadata: Option<Vec<(String, String)>>,
    /// List of attachments
    pub attachments: Option<Vec<Attachment>>,
    /// Set message stream ID that's used for sending
    pub message_stream: Option<String>,
}

/// Email message body
#[derive(Debug, Clone, PartialEq, Eq)]
pub enum Body {
    /// Plain text email message
    Text(String),
    /// HTML email message
    Html(String),
}

/// Custom Header
#[derive(Debug, Clone, PartialEq, Eq)]
pub struct Header {
    /// Name of the header
    pub name: String,
    /// Value of the header
    pub value: String,
}

/// Email recipients
#[derive(Debug, Clone, PartialEq, Eq)]
pub struct Recipients(pub Vec<String>);

/// An attachment to the email
#[derive(Debug, Clone, PartialEq, Eq)]
pub struct Attachment {
    /// Name of the attached file
    pub name: String,
    /// The content of the attached file, base64-encoded
    pub content: String,
    /// The content type of the attached file
    pub content_type: String,
}

/// Whether the provider would accept `addr` as an email address.
///
/// The exact address grammar is the one that `garde` checks; this
/// names its verdict.
pub uninterp spec fn email_ok(addr: Seq<char>) -> bool;

/// Relies on garde::rules::email::parse_email: the verdict depends on
/// the characters of the address alone, and an empty string is never a
/// valid address.
#[verifier::external_body]
pub(crate) fn check_email(addr: &str) -> (r: bool)
    ensures
        r == email_ok(addr@),
        addr@.len() == 0 ==> !r,
{
    garde::rules::email::parse_email(addr).is_ok()
}

/// All addresses in the list pass the email address check.
pub open spec fn all_emails_ok(addrs: Seq<String>) -> bool {
    forall|i: int| 0 <= i < addrs.len() ==> #[trigger] email_ok(addrs[i]@)
}

/// Checks every address in the list against the email address check.
pub(crate) fn all_addresses_ok(addrs: &Vec<String>) -> (b: bool)
    ensures
        b == all_emails_ok(addrs@),
{
    let n = addrs.len();
    let mut i: usize = 0;
    while i < n
        invariant
            0 <= i <= n,
            n == addrs@.len(),
            forall|j: int| 0 <= j < i ==> #[trigger] email_ok(addrs@[j]@),
        decreases n - i,
    {
        if !check_email(addrs[i].as_str()) {
            proof {
                assert(!email_ok(addrs@[i as int]@));
            }
            return false;
        }
        i += 1;
    }
    true
}

/// No metadata key occurs twice.
pub open spec fn metadata_keys_unique(md: Seq<(String, String)>) -> bool {
    forall|i: int, j: int|
        #![trigger md[i].0, md[j].0]
        0 <= i < j < md.len() ==> md[i].0@ != md[j].0@
}

/// Checks that no metadata key occurs twice.
pub(crate) fn metadata_keys_distinct(md: &Vec<(String, String)>) -> (b: bool)
    ensures
        b == metadata_keys_unique(md@),
{
    let n = md.len();
    let mut i: usize = 0;
    while i < n
        invariant
            0 <= i <= n,
            n == md@.len(),
            forall|p: int, q: int|
                #![trigger md@[p].0, md@[q].0]
                0 <= p < q < n && p < i ==> md@[p].0@ != md@[q].0@,
        decreases n - i,
    {
        let mut j: usize = i + 1;
        while j < n
            invariant
                i < j <= n,
                i < n,
                n == md@.len(),
                forall|q: int|
                    #![trigger md@[q].0]
                    i < q < j ==> md@[i as int].0@ != md@[q].0@,
            decreases n - j,
        {
            if md[i].0 == md[j].0 {
                proof {
                    assert(md@[i as int].0@ == md@[j as int].0@);
                    assert(!metadata_keys_unique(md@));
                }
                return false;
            }
            j += 1;
        }
        i += 1;
    }
    true
}

impl Recipients {
    /// A recipient list is valid when it holds at least one address and
    /// every address passes the email address check.
    pub open spec fn spec_valid(self) -> bool {
        self.0@.len() >= 1 && all_emails_ok(self.0@)
    }

    /// Checks that the list holds at least one address and that every
    /// address is acceptable; reports the first address that is not.
    pub fn validate(&self) -> (r: Result<(), String>)
        ensures
            r is Ok <==> self.spec_valid(),
            self.0@.len() == 0 ==> (r matches Err(m) && m@ == "recipient list is empty"@),
            self.0@.len() >= 1 && !self.spec_valid() ==> (r matches Err(m) && exists|i: int|
                0 <= i < self.0@.len() && !(#[trigger] email_ok(self.0@[i]@)) && m@ == self.0@[i]@
                    && (forall|j: int| 0 <= j < i ==> #[trigger] email_ok(self.0@[j]@))),
    {
        if self.0.len() == 0 {
            return Err(String::from_str("recipient list is empty"));
        }
        let n = self.0.len();
        let mut i: usize = 0;
        while i < n
            invariant
                0 <= i <= n,
                n == self.0@.len(),
                forall|j: int| 0 <= j < i ==> #[trigger] email_ok(self.0@[j]@),
            decreases n - i,
        {
            if !check_email(self.0[i].as_str()) {
                return Err(self.0[i].clone());
            }
            i += 1;
        }
        Ok(())
    }
}

impl EmailMessage {
    /// Creates a message with the required fields; every optional field
    /// starts out absent.
    pub fn new(from: String, to: Recipients, subject: String, body: Body) -> (m: EmailMessage)
        ensures
            m.from == from,
            m.to == to,
            m.subject == subject,
            m.body == body,
            m.cc is None,
            m.bcc is None,
            m.tag is None,
            m.reply_to is None,
            m.headers is None,
            m.metadata is None,
            m.attachments is None,
            m.message_stream is None,
    {
        EmailMessage {
            from,
            to,
            subject,
            body,
            cc: None,
            bcc: None,
            tag: None,
            reply_to: None,
            headers: None,
            metadata: None,
            attachments: None,
            message_stream: None,
        }
    }

    /// Sets the Cc recipient list.
    pub fn with_cc(self, cc: Recipients) -> (m: EmailMessage)
        ensures
            m == (EmailMessage { cc: Some(cc), ..self }),
    {
        EmailMessage { cc: Some(cc), ..self }
    }

    /// Sets the Bcc recipient list.
    pub fn with_bcc(self, bcc: Recipients) -> (m: EmailMessage)
        ensures
            m == (EmailMessage { bcc: Some(bcc), ..self }),
    {
        EmailMessage { bcc: Some(bcc), ..self }
    }

    /// Sets the categorization tag.
    pub fn with_tag(self, tag: String) -> (m: EmailMessage)
        ensures
            m == (EmailMessage { tag: Some(tag), ..self }),
    {
        EmailMessage { tag: Some(tag), ..self }
    }

    /// Sets the Reply-To override.
    pub fn with_reply_to(self, reply_to: Recipients) -> (m: EmailMessage)
        ensures
            m == (EmailMessage { reply_to: Some(reply_to), ..self }),
    {
        EmailMessage { reply_to: Some(reply_to), ..self }
    }

    /// Sets the custom headers.
    pub fn with_headers(self, headers: Vec<Header>) -> (m: EmailMessage)
        ensures
            m == (EmailMessage { headers: Some(headers), ..self }),
    {
        EmailMessage { headers: Some(headers), ..self }
    }

    /// Sets the metadata pairs.
    pub fn with_metadata(self, metadata: Vec<(String, String)>) -> (m: EmailMessage)
        ensures
            m == (EmailMessage { metadata: Some(metadata), ..self }),
    {
        EmailMessage { metadata: Some(metadata), ..self }
    }

    /// Sets the attachments.
    pub fn with_attachments(self, attachments: Vec<Attachment>) -> (m: EmailMessage)
        ensures
            m == (EmailMessage { attachments: Some(attachments), ..self }),
    {
        EmailMessage { attachments: Some(attachments), ..self }
    }

    /// Sets the message stream ID.
    pub fn with_message_stream(self, message_stream: String) -> (m: EmailMessage)
        ensures
            m == (EmailMessage { message_stream: Some(message_stream), ..self }),
    {
        EmailMessage { message_stream: Some(message_stream), ..self }
    }

    /// The message passes the same field rules that are checked before a
    /// send: a well-formed sender address, valid recipient lists, and no
    /// optional field present but empty.
    pub open spec fn spec_valid(self) -> bool {
        &&& email_ok(self.from@)
        &&& self.to.spec_valid()
        &&& (self.cc matches Some(r) ==> r.spec_valid())
        &&& (self.bcc matches Some(r) ==> r.spec_valid())
        &&& (self.reply_to matches Some(r) ==> r.spec_valid())
        &&& (self.tag matches Some(t) ==> t@.len() >= 1)
        &&& (self.headers matches Some(h) ==> h@.len() >= 1)
        &&& (self.metadata matches Some(m) ==> m@.len() >= 1 && metadata_keys_unique(m@))
        &&& (self.message_stream matches Some(s) ==> s@.len() >= 1)
    }

    /// The first violated field rule, in the order the fields are
    /// checked, as the message that reports it.
    pub open spec fn spec_first_violation(self) -> Option<Seq<char>> {
        if !email_ok(self.from@) {
            Some("from: not a valid email address"@)
        } else if !self.to.spec_valid() {
            Some("to: invalid recipient list"@)
        } else if !(match self.cc {
            Some(c) => c.spec_valid(),
            None => true,
        }) {
            Some("cc: invalid recipient list"@)
        } else if !(match self.bcc {
            Some(c) => c.spec_valid(),
            None => true,
        }) {
            Some("bcc: invalid recipient list"@)
        } else if !(match self.reply_to {
            Some(c) => c.spec_valid(),
            None => true,
        }) {
            Some("reply_to: invalid recipient list"@)
        } else if !(match self.tag {
            Some(t) => t@.len() >= 1,
            None => true,
        }) {
            Some("tag: must not be empty"@)
        } else if !(match self.headers {
            Some(h) => h@.len() >= 1,
            None => true,
        }) {
            Some("headers: must not be empty"@)
        } else if !(match self.metadata {
            Some(m) => m@.len() >= 1,
            None => true,
        }) {
            Some("metadata: must not be empty"@)
        } else if !(match self.metadata {
            Some(m) => metadata_keys_unique(m@),
            None => true,
        }) {
            Some("metadata: duplicate key"@)
        } else if !(match self.message_stream {
            Some(s) => s@.len() >= 1,
            None => true,
        }) {
            Some("message_stream: must not be empty"@)
        } else {
            None
        }
    }

    /// Checks the field rules, reporting the first violated one.
    pub fn validate(&self) -> (r: Result<(), String>)
        ensures
            r is Ok <==> self.spec_valid(),
            r matches Err(m) ==> Some(m@) == self.spec_first_violation(),
    {
        if !check_email(self.from.as_str()) {
            return Err(String::from_str("from: not a valid email address"));
        }
        if let Err(_) = self.to.validate() {
            return Err(String::from_str("to: invalid recipient list"));
        }
        if let Some(cc) = &self.cc {
            if let Err(_) = cc.validate() {
                return Err(String::from_str("cc: invalid recipient list"));
            }
        }
        if let Some(bcc) = &self.bcc {
            if let Err(_) = bcc.validate() {
                return Err(String::from_str("bcc: invalid recipient list"));
            }
        }
        if let Some(reply_to) = &self.reply_to {
            if let Err(_) = reply_to.validate() {
                return Err(String::from_str("reply_to: invalid recipient list"));
            }
        }
        if let Some(tag) = &self.tag {
            if tag.as_str().unicode_len() == 0 {
                return Err(String::from_str("tag: must not be empty"));
            }
        }
        if let Some(headers) = &self.headers {
            if headers.len() == 0 {
                return Err(String::from_str("headers: must not be empty"));
            }
        }
        if let Some(metadata) = &self.metadata {
            if metadata.len() == 0 {
                return Err(String::from_str("metadata: must not be empty"));
            }
            if !metadata_keys_distinct(metadata) {
                return Err(String::from_str("metadata: duplicate key"));
            }
        }
        if let Some(message_stream) = &self.message_stream {
            if message_stream.as_str().unicode_len() == 0 {
                return Err(String::from_str("message_stream: must not be empty"));
            }
        }
        Ok(())
    }
}

} // verus!
