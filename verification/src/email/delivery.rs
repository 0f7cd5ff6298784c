//! The delivery receipt handed back by the provider
use vstd::prelude::*;

use crate::error::Error;
use crate::execute::HttpReply;
use crate::json::{json_parses, parse_json, read_str_field, read_u64_field, receipt_str_field,
    receipt_u64_field};

verus! {

/// What the provider hands back after receiving an email
#[derive(Debug, Clone, PartialEq, Eq)]
pub struct EmailDelivery {
    /// Recipient email address
    pub to: String,
    /// Submission timestamp
    pub submitted_at: String,
    /// Unique ID assigned to this message by the provider
    pub message_id: String,
    /// API error code
    pub error_code: u16,
    /// Human readable status message
    pub message: String,
}

/// The body holds the five receipt members under their snake-case
/// names, with the right types and an error code that fits in sixteen
/// bits.
pub open spec fn spec_delivery_complete(bytes: Seq<u8>) -> bool {
    &&& receipt_str_field(bytes, "to"@) is Some
    &&& receipt_str_field(bytes, "submitted_at"@) is Some
    &&& receipt_str_field(bytes, "message_id"@) is Some
    &&& (receipt_u64_field(bytes, "error_code"@) matches Some(c) && c <= u16::MAX)
    &&& receipt_str_field(bytes, "message"@) is Some
}

/// The receipt carries exactly the body's snake-case members.
pub open spec fn spec_delivery_fields(bytes: Seq<u8>, d: EmailDelivery) -> bool {
    &&& Some(d.to@) == receipt_str_field(bytes, "to"@)
    &&& Some(d.submitted_at@) == receipt_str_field(bytes, "submitted_at"@)
    &&& Some(d.message_id@) == receipt_str_field(bytes, "message_id"@)
    &&& Some(d.error_code as u64) == receipt_u64_field(bytes, "error_code"@)
    &&& Some(d.message@) == receipt_str_field(bytes, "message"@)
}

impl EmailDelivery {
    /// Builds the receipt from its five extracted fields.  This
    /// succeeds exactly when every field was present with the right
    /// type and the error code fits in sixteen bits.
    pub fn from_fields(
        to: Option<String>,
        submitted_at: Option<String>,
        message_id: Option<String>,
        error_code: Option<u64>,
        message: Option<String>,
    ) -> (r: Result<EmailDelivery, Error>)
        ensures
            r is Ok <==> (to is Some && submitted_at is Some && message_id is Some && (
            error_code matches Some(c) && c <= u16::MAX) && message is Some),
            r matches Ok(res) ==> {
                &&& Some(res.to) == to
                &&& Some(res.submitted_at) == submitted_at
                &&& Some(res.message_id) == message_id
                &&& Some(res.error_code as u64) == error_code
                &&& Some(res.message) == message
            },
            r matches Err(e) ==> (e matches Error::SendFailed(m) && m@
                == "missing or invalid receipt field"@),
    {
        match (to, submitted_at, message_id, error_code, message) {
            (Some(to), Some(submitted_at), Some(message_id), Some(code), Some(message)) => {
                if code <= 65535 {
                    Ok(
                        EmailDelivery {
                            to,
                            submitted_at,
                            message_id,
                            error_code: code as u16,
                            message,
                        },
                    )
                } else {
                    Err(Error::SendFailed(String::from_str("missing or invalid receipt field")))
                }
            },
            _ => Err(Error::SendFailed(String::from_str("missing or invalid receipt field"))),
        }
    }

    /// Reads a provider-independent delivery receipt out of the reply
    /// body, whose members are named in snake case.  The outcome
    /// depends on the body bytes alone: it succeeds exactly when the
    /// body parses as JSON holding the five members, and the receipt
    /// carries them unchanged.
    pub fn try_from(response: &HttpReply) -> (r: Result<EmailDelivery, Error>)
        ensures
            r is Ok ==> json_parses(response.body@),
            json_parses(response.body@) ==> (r is Ok <==> spec_delivery_complete(response.body@)),
            r matches Ok(d) ==> spec_delivery_fields(response.body@, d),
            json_parses(response.body@) && !spec_delivery_complete(response.body@) ==> (r matches
                Err(e) && e matches Error::SendFailed(m) && m@
                == "missing or invalid receipt field"@),
            r matches Err(e) ==> e matches Error::SendFailed(_),
    {
        let bytes = response.body.as_slice();
        if let Err(text) = parse_json(bytes) {
            return Err(Error::SendFailed(text));
        }
        let to = read_str_field(bytes, "to");
        let submitted_at = read_str_field(bytes, "submitted_at");
        let message_id = read_str_field(bytes, "message_id");
        let error_code = read_u64_field(bytes, "error_code");
        let message = read_str_field(bytes, "message");
        EmailDelivery::from_fields(to, submitted_at, message_id, error_code, message)
    }
}

} // verus!
