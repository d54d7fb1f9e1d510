//! Verified core of a "Login with GitHub" OAuth2 authorization-code flow.
//!
//! The library covers the protocol logic of the flow: the anti-forgery
//! state-token handshake, the orchestration of the code-for-token exchange
//! and profile fetch, the mapping of a provider profile to a local identity,
//! and the idempotent get-or-create persistence of user records.  The
//! surrounding HTTP plumbing (routing, cookies, template rendering, the
//! outbound network calls themselves) lives outside the library and hands
//! it plain values.

pub mod flow;
pub mod store;
pub mod token;
