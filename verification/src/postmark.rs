//! Email sending module with Postmark
pub mod client;
pub mod request;
pub mod response;

pub use request::PostmarkEmailRequest;
pub use response::PostmarkEmailResponse;
