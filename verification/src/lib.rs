//! Sans-I/O engine for an authenticated brokerage session.
//!
//! The crate holds the protocol rules of a REST brokerage client: the OAuth2
//! token lifecycle, the negotiation and activation of a second-factor (TAN)
//! challenge, and the validate-then-commit handshake that every
//! account-mutating action goes through. Nothing here touches the network:
//! each component builds the requests to send and interprets the replies that
//! a transport hands back, so that every rule carries a machine-checked
//! contract.

pub mod activate;
pub mod authorize;
pub mod clock;
pub mod deposit;
pub mod error;
pub mod establish;
pub mod http;
pub mod instrument;
pub mod json;
pub mod lifecycle;
pub mod negotiate;
pub mod oauth;
pub mod order;
pub mod quote;
pub mod retrieval;
pub mod session;
pub mod tan;
mod text;
pub mod transaction;
