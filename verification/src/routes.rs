//! The request workflows.
//!
//! Each workflow is a state machine: the caller performs the action that a
//! step asks for and hands the outcome back as the next event.

pub mod admin;
pub mod subscriptions_confirm;

pub use admin::newsletter_form::send_newsletter_form;
pub use admin::newsletters::publish_newsletter;
pub use admin::newsletters::BodyData;
pub use admin::newsletters::PublishError;
pub use subscriptions_confirm::confirm;
pub use subscriptions_confirm::ConfirmationError;
pub use subscriptions_confirm::Parameters;
