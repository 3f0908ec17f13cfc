//! Links a Discord account to a Dsek (university-portal) identity through two
//! chained OAuth2 authorization-code flows, then publishes a linked-role
//! metadata record to Discord.
//!
//! The library holds the protocol logic: anti-forgery state handling, the
//! session-carried linking state machine, the credential store semantics,
//! expiry-aware token reuse, and the construction of the requests sent to the
//! two providers. Network transport and persistence sit outside it.

pub mod discord;
pub mod dsek;
pub mod error;
pub mod oauth;
pub mod server;
pub mod session;
pub mod storage;
pub mod text;
