//! What only the administrator may do.

pub mod newsletter_form;
pub mod newsletters;
