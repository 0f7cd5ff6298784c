//! Email sending configuration data
use vstd::prelude::*;
use vstd::string::StringExecFns;

use crate::error::Error;

verus! {

/// Configuration for the email sending service
///
/// The token fields are secrets held as plain strings, so the type
/// deliberately has no Debug impl: debug output must not carry them.
#[derive(Clone, PartialEq, Eq)]
pub struct ServiceConfig {
    /// API endpoint for the email service
    pub base_url: String,
    /// Secret API token for authentication
    ///
    /// This token is used when making API requests.
    /// When using Postmark, it corresponds to X-Postmark-Server-Token.
    /// Treat the value as a secret: it must not end up in logs.
    pub server_token: String,
    /// Token used for requests that require account level privileges
    ///
    /// For Postmark, it corresponds to X-Postmark-Account-Token.
    /// Treat the value as a secret: it must not end up in logs.
    pub account_token: Option<String>,
    /// The verified sender email address
    ///
    /// This email must be a sender verified by your email service
    /// provider.  Emails will appear to come from this address.
    pub from_email: String,
}

/// What reading one environment variable yielded: the variable may be
/// absent, present but not valid text, or present with a value.
#[derive(Debug, Clone, PartialEq, Eq)]
pub enum EnvValue {
    /// The variable is not set
    Missing,
    /// The variable is set to something that is not valid text
    NotUnicode,
    /// The variable is set to this text
    Present(String),
}

impl ServiceConfig {
    /// Builds the configuration from the readings of its four
    /// environment variables, in the order the variables are checked:
    /// the base URL, the server token and the sender address must be
    /// present, while the account token may be absent but must be
    /// valid text when set.
    pub fn from_parts(
        base_url: EnvValue,
        server_token: EnvValue,
        from_email: EnvValue,
        account_token: EnvValue,
    ) -> (r: Result<ServiceConfig, Error>)
        ensures
            r is Ok <==> (base_url is Present && server_token is Present && from_email is Present
                && !(account_token is NotUnicode)),
            r matches Ok(c) ==> {
                &&& Some(c.base_url) == base_url.value()
                &&& Some(c.server_token) == server_token.value()
                &&& Some(c.from_email) == from_email.value()
                &&& c.account_token == account_token.value()
            },
            !(base_url is Present) ==> (r matches Err(e) && e matches Error::ConfigError(m) && m@
                == "SENDOUT_BASE_URL"@ + " not set"@),
            base_url is Present && !(server_token is Present) ==> (r matches Err(e)
                && e matches Error::ConfigError(m) && m@ == "SENDOUT_SERVER_TOKEN"@
                + " not set"@),
            base_url is Present && server_token is Present && !(from_email is Present) ==> (
            r matches Err(e) && e matches Error::ConfigError(m) && m@ == "SENDOUT_FROM_EMAIL"@
                + " not set"@),
            base_url is Present && server_token is Present && from_email is Present
                && account_token is NotUnicode ==> (r matches Err(e) && e matches
                Error::ConfigError(m) && m@ == "SENDOUT_ACCOUNT_TOKEN"@ + " not set"@),
    {
        let base_url = match base_url {
            EnvValue::Present(url) => url,
            _ => {
                return Err(Error::ConfigError(String::from_str("SENDOUT_BASE_URL").concat(
                    " not set",
                )));
            },
        };
        let server_token = match server_token {
            EnvValue::Present(token) => token,
            _ => {
                return Err(Error::ConfigError(String::from_str("SENDOUT_SERVER_TOKEN").concat(
                    " not set",
                )));
            },
        };
        let from_email = match from_email {
            EnvValue::Present(email) => email,
            _ => {
                return Err(Error::ConfigError(String::from_str("SENDOUT_FROM_EMAIL").concat(
                    " not set",
                )));
            },
        };
        let account_token = match account_token {
            EnvValue::Present(token) => Some(token),
            EnvValue::Missing => None,
            EnvValue::NotUnicode => {
                return Err(Error::ConfigError(String::from_str("SENDOUT_ACCOUNT_TOKEN").concat(
                    " not set",
                )));
            },
        };
        Ok(ServiceConfig { base_url, server_token, account_token, from_email })
    }
}

impl EnvValue {
    /// The text the variable is set to, when it is.
    pub open spec fn value(self) -> Option<String> {
        match self {
            EnvValue::Present(s) => Some(s),
            _ => None,
        }
    }
}

} // verus!
