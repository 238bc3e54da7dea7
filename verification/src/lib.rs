//! Core of a small account-linking backend: a durable table of links
//! between a messaging-platform account and a media-tracking-site
//! username, an identity verifier that classifies the upstream service's
//! replies, and the workflow that creates a link only after the username
//! has been verified upstream.

pub mod store;
pub mod ident;
pub mod identity;
pub mod request;
pub mod workflow;
