//! A transactional-notification delivery core.
//!
//! The heart of the crate is the notification client of [`email_client`]:
//! built once from a validated sender address, a per-call timeout and
//! exactly one transport variant -- a JSON-over-HTTPS provider API or a
//! direct SMTP relay -- it exposes a single transport-agnostic `send_email`
//! operation. Around it stand validated address values ([`domain`]),
//! opaque credential wrappers ([`secret`]), the configuration surface
//! ([`configuration`]), the encoder of the provider's request body
//! ([`json`]), and the thin trusted layer over the wire crates
//! ([`transport`]).

pub mod configuration;
pub mod domain;
pub mod email_client;
pub mod json;
pub mod secret;
pub mod transport;
