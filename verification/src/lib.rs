//! A per-connection authentication session manager for a persistent
//! bidirectional text channel.
//!
//! The crate is organised around four pieces:
//! - [`store`]: the process-wide credential store (username -> password),
//!   with atomic register-or-verify;
//! - [`token`]: the token service, minting and validating signed, expiring
//!   bearer tokens;
//! - [`session`]: the per-connection session state machine driving
//!   login / logout / refresh transitions and the liveness-coupled renewal
//!   decision;
//! - [`codec`]: the wire codec turning raw text into typed requests and
//!   typed responses back into raw text.

pub mod codec;
pub mod session;
pub mod store;
pub mod token;
