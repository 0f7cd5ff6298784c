//! # Sendout
//!
//! Provides an abstraction over sending emails using APIs.
//!
//! The library models an email message, maps it onto the provider's
//! wire format, builds the authenticated HTTP request, and interprets
//! the delivery receipt that comes back.  The HTTP transport itself is
//! supplied by the caller through the [`execute::Execute`] trait.
pub mod api;
pub mod config;
pub mod email;
pub mod error;
pub mod execute;
pub mod json;
pub mod postmark;
pub mod service;

pub use config::ServiceConfig;
pub use error::Error;
pub use execute::Execute;
pub use service::EmailService;

use vstd::prelude::*;

verus! {

/// Trait for sending emails
///
/// This trait defines the mechanism for sending emails.
pub trait Sendout<Email> {
    /// Send an email
    fn send(&self, email: Email) -> Result<(), Error>;
}

} // verus!
