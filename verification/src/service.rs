//! Email service traits
//!
//! Defines the main traits for the services a provider may support
use vstd::prelude::*;

use crate::error::Error;

verus! {

/// Trait for sending an email with a provider
pub trait EmailService<Email, Response> {
    /// Send an email
    fn send_email(&self, email: Email) -> Result<Response, Error>;
}

} // verus!
