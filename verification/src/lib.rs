//! A verified core for a multi-method login service.
//!
//! Accounts authenticate through one of three mechanisms: a local password,
//! an attested WebAuthn passkey, or a federated OpenID Connect identity.
//! The credential store, the per-session challenge state and the decision
//! logic of every flow live here and are verified; the ceremony library and
//! the OpenID Connect provider are reached through a small set of trusted
//! wrappers.

pub mod error;
pub mod galvyn;
pub mod handler;
pub mod laws;
pub mod models;
pub mod module;
pub mod oidc;
pub mod openapi;
pub mod router;
pub mod session;
pub mod settings;
pub mod timers;
pub mod webauthn;
