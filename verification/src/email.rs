//! Core email types: messages, recipients, attachments, and delivery receipt
pub mod delivery;
pub mod message;

pub use delivery::EmailDelivery;
pub use message::{Attachment, Body, EmailMessage, Header, Recipients};
