//! Postmark-specific response types
use vstd::prelude::*;

use crate::email::delivery::EmailDelivery;
use crate::error::Error;
use crate::execute::HttpReply;
use crate::json::{json_parses, parse_json, read_str_field, read_u64_field, receipt_str_field,
    receipt_u64_field};

verus! {

/// Postmark email response
#[derive(Debug, Clone, PartialEq, Eq)]
pub struct PostmarkEmailResponse {
    /// Recipient email address
    pub to: String,
    /// Submission timestamp
    pub submitted_at: String,
    /// Postmark message ID
    pub message_id: String,
    /// API error code
    pub error_code: u16,
    /// Human-readable response message
    pub message: String,
}

/// The body holds the five provider receipt members, with the right
/// types and an error code that fits in sixteen bits.
pub open spec fn spec_receipt_complete(bytes: Seq<u8>) -> bool {
    &&& receipt_str_field(bytes, "To"@) is Some
    &&& receipt_str_field(bytes, "SubmittedAt"@) is Some
    &&& receipt_str_field(bytes, "MessageID"@) is Some
    &&& (receipt_u64_field(bytes, "ErrorCode"@) matches Some(c) && c <= u16::MAX)
    &&& receipt_str_field(bytes, "Message"@) is Some
}

/// The receipt carries exactly the provider receipt members of the
/// body.
pub open spec fn spec_receipt_fields(bytes: Seq<u8>, res: PostmarkEmailResponse) -> bool {
    &&& Some(res.to@) == receipt_str_field(bytes, "To"@)
    &&& Some(res.submitted_at@) == receipt_str_field(bytes, "SubmittedAt"@)
    &&& Some(res.message_id@) == receipt_str_field(bytes, "MessageID"@)
    &&& Some(res.error_code as u64) == receipt_u64_field(bytes, "ErrorCode"@)
    &&& Some(res.message@) == receipt_str_field(bytes, "Message"@)
}

/// The delivery receipt carries exactly the provider receipt members of
/// the body.
pub open spec fn spec_delivery_of_receipt(bytes: Seq<u8>, d: EmailDelivery) -> bool {
    &&& Some(d.to@) == receipt_str_field(bytes, "To"@)
    &&& Some(d.submitted_at@) == receipt_str_field(bytes, "SubmittedAt"@)
    &&& Some(d.message_id@) == receipt_str_field(bytes, "MessageID"@)
    &&& Some(d.error_code as u64) == receipt_u64_field(bytes, "ErrorCode"@)
    &&& Some(d.message@) == receipt_str_field(bytes, "Message"@)
}

impl PostmarkEmailResponse {
    /// Builds the receipt from its five extracted fields.  This
    /// succeeds exactly when every field was present with the right
    /// type and the error code fits in sixteen bits.
    pub fn from_fields(
        to: Option<String>,
        submitted_at: Option<String>,
        message_id: Option<String>,
        error_code: Option<u64>,
        message: Option<String>,
    ) -> (r: Result<PostmarkEmailResponse, Error>)
        ensures
            r is Ok <==> (to is Some && submitted_at is Some && message_id is Some && (
            error_code matches Some(c) && c <= u16::MAX) && message is Some),
            r matches Ok(res) ==> {
                &&& Some(res.to) == to
                &&& Some(res.submitted_at) == submitted_at
                &&& Some(res.message_id) == message_id
                &&& Some(res.error_code as u64) == error_code
                &&& Some(res.message) == message
            },
            r matches Err(e) ==> (e matches Error::SendFailed(m) && m@
                == "failed to parse response: missing or invalid receipt field"@),
    {
        match (to, submitted_at, message_id, error_code, message) {
            (Some(to), Some(submitted_at), Some(message_id), Some(code), Some(message)) => {
                if code <= 65535 {
                    Ok(
                        PostmarkEmailResponse {
                            to,
                            submitted_at,
                            message_id,
                            error_code: code as u16,
                            message,
                        },
                    )
                } else {
                    Err(
                        Error::SendFailed(
                            String::from_str(
                                "failed to parse response: missing or invalid receipt field",
                            ),
                        ),
                    )
                }
            },
            _ => Err(
                Error::SendFailed(
                    String::from_str("failed to parse response: missing or invalid receipt field"),
                ),
            ),
        }
    }

    /// Reads the provider's receipt out of the reply body.  The
    /// outcome depends on the body bytes alone: it succeeds exactly
    /// when the body parses as JSON holding the five receipt members,
    /// and the receipt carries them unchanged.
    pub fn try_from(response: &HttpReply) -> (r: Result<PostmarkEmailResponse, Error>)
        ensures
            r is Ok ==> json_parses(response.body@),
            json_parses(response.body@) ==> (r is Ok <==> spec_receipt_complete(response.body@)),
            r matches Ok(res) ==> spec_receipt_fields(response.body@, res),
            !json_parses(response.body@) ==> (r matches Err(e) && e matches Error::SendFailed(m)
                && m@.subrange(0, "failed to parse response: "@.len() as int)
                == "failed to parse response: "@),
            json_parses(response.body@) && !spec_receipt_complete(response.body@) ==> (r matches
                Err(e) && e matches Error::SendFailed(m) && m@
                == "failed to parse response: missing or invalid receipt field"@),
            r matches Err(e) ==> e matches Error::SendFailed(_),
    {
        let bytes = response.body.as_slice();
        if let Err(text) = parse_json(bytes) {
            let m = String::from_str("failed to parse response: ").concat(text.as_str());
            proof {
                assert(("failed to parse response: "@ + text@).subrange(
                    0,
                    "failed to parse response: "@.len() as int,
                ) =~= "failed to parse response: "@);
            }
            return Err(Error::SendFailed(m));
        }
        let to = read_str_field(bytes, "To");
        let submitted_at = read_str_field(bytes, "SubmittedAt");
        let message_id = read_str_field(bytes, "MessageID");
        let error_code = read_u64_field(bytes, "ErrorCode");
        let message = read_str_field(bytes, "Message");
        PostmarkEmailResponse::from_fields(to, submitted_at, message_id, error_code, message)
    }
}

impl From<PostmarkEmailResponse> for EmailDelivery {
    fn from(res: PostmarkEmailResponse) -> Self {
        EmailDelivery {
            to: res.to,
            submitted_at: res.submitted_at,
            message_id: res.message_id,
            error_code: res.error_code,
            message: res.message,
        }
    }
}

impl vstd::std_specs::convert::FromSpecImpl<PostmarkEmailResponse> for EmailDelivery {
    open spec fn obeys_from_spec() -> bool {
        true
    }

    open spec fn from_spec(v: PostmarkEmailResponse) -> Self {
        EmailDelivery {
            to: v.to,
            submitted_at: v.submitted_at,
            message_id: v.message_id,
            error_code: v.error_code,
            message: v.message,
        }
    }
}

} // verus!
