//! Core of a payment-gated Lightning channel provisioning service.
//!
//! A client asks for a channel of a given size, receives a priced quote
//! payable in ecash, and the channel is opened only once proof of payment
//! has been validated. The quote lifecycle is tracked in a keyed store and
//! driven by a small state machine that guarantees at-most-once channel
//! creation per quote.

pub mod config;
pub mod error;
pub mod fee;
pub mod ids;
pub mod issuer;
pub mod orchestrator;
pub mod status;
pub mod store;
pub mod types;
pub mod validator;
