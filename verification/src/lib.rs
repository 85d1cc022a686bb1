//! Core of a newsletter-subscription backend: form validation, confirmation
//! token generation, an atomic subscription store, and the subscribe/confirm
//! workflow, each with a verified contract.

pub mod domain;
pub mod laws;
pub mod notify;
pub mod response;
pub mod store;
pub mod strutil;
pub mod subscriptions;
pub mod subscriptions_confirm;
pub mod token;
