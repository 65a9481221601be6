//! Authentication subsystem for a small HTTP backend: anti-forgery state
//! tokens, the OAuth authorization-code exchange modelled as a state machine,
//! identity find-or-create, and session / signed-credential issuance.
//!
//! Network and database round trips happen outside this crate; everything
//! here is a decision or a computation on plain values, stated in contracts
//! and verified.

pub mod auth;
pub mod config;
pub mod credential;
pub mod crypto;
pub mod decimal;
pub mod flow;
pub mod handlers;
pub mod identity;
pub mod identity_validator;
pub mod login_required;
pub mod servant;
pub mod session;
