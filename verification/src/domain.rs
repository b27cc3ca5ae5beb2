//! Validated values of the subscription domain.

pub mod subscriber_email;
pub mod subscriber_id;
pub mod subscription_token;

pub use subscriber_email::ConfirmedSubscriber;
pub use subscriber_email::SubscriberEmail;
pub use subscription_token::ParseError;
pub use subscription_token::SubscriptionToken;
