//! Errors reported while configuring the client or sending an email.
use vstd::prelude::*;
use vstd::string::StringExecFns;

verus! {

/// Errors that can occur when sending an email
///
/// It represents all possible failures that can occur when attempting
/// to send an email via the email service.
#[derive(Debug, Clone)]
pub enum Error {
    /// Configuration error preventing the email from being sent out
    ConfigError(String),
    /// The email failed to send due to a network error
    ///
    /// This includes connection failures, timeouts, and non-success HTTP
    /// responses from the email service except rate limiting.
    SendFailed(String),
    /// The email service rate limit has been exhausted
    ///
    /// This error occurs when too many requests are made in a short period.
    RateLimitExceeded,
    /// The recipient email address is invalid or rejected
    ///
    /// This may occur if the email address format is invalid or if the
    /// email service rejects the recipient for policy reasons.
    InvalidRecipient(String),
}

impl Error {
    /// The human-readable description of the error.
    pub open spec fn spec_message(self) -> Seq<char> {
        match self {
            Error::ConfigError(msg) => "email configuration error: "@ + msg@,
            Error::SendFailed(msg) => "failed to send email: "@ + msg@,
            Error::RateLimitExceeded => "rate limit exceeded"@,
            Error::InvalidRecipient(msg) => "invalid recipient: "@ + msg@,
        }
    }

    /// Renders the error as a human-readable message.
    pub fn message(&self) -> (m: String)
        ensures
            m@ == self.spec_message(),
    {
        match self {
            Error::ConfigError(msg) => String::from_str("email configuration error: ").concat(
                msg.as_str(),
            ),
            Error::SendFailed(msg) => String::from_str("failed to send email: ").concat(
                msg.as_str(),
            ),
            Error::RateLimitExceeded => String::from_str("rate limit exceeded"),
            Error::InvalidRecipient(msg) => String::from_str("invalid recipient: ").concat(
                msg.as_str(),
            ),
        }
    }

    /// Classifies a failed HTTP exchange, given whether the transport
    /// reported a connection failure or a timeout, and the transport's
    /// own description of the failure otherwise.
    pub fn from_transport(is_connect: bool, is_timeout: bool, detail: String) -> (e: Error)
        ensures
            is_connect ==> (e matches Error::SendFailed(m) && m@ == "connection failed"@),
            !is_connect && is_timeout ==> (e matches Error::SendFailed(m) && m@
                == "connection timeout"@),
            !is_connect && !is_timeout ==> e == Error::SendFailed(detail),
    {
        if is_connect {
            Error::SendFailed(String::from_str("connection failed"))
        } else if is_timeout {
            Error::SendFailed(String::from_str("connection timeout"))
        } else {
            Error::SendFailed(detail)
        }
    }
}

} // verus!
