//! State-token guard: anti-forgery validation for the OAuth callback, and
//! generation of the random tokens the flow hands out (the per-attempt
//! `state` token and the long-lived opaque session token).

use vstd::prelude::*;

verus! {

/// The value carried by an optional cookie, as a character sequence.
pub open spec fn opt_view(cookie: Option<&String>) -> Option<Seq<char>> {
    match cookie {
        Some(c) => Some(c@),
        None => None,
    }
}

/// The anti-forgery check passes exactly when a state cookie is present and
/// its value equals the `state` query parameter echoed by the provider.
/// Absence of the cookie fails closed.
pub open spec fn state_ok(cookie: Option<Seq<char>>, query: Seq<char>) -> bool {
    match cookie {
        Some(c) => c == query,
        None => false,
    }
}

/// Exact-equality validation of the returned state token against the issued
/// one; a missing cookie is invalid.
pub fn validate_state(cookie: Option<&String>, query: &String) -> (r: bool)
    ensures
        r == state_ok(opt_view(cookie), query@),
{
    match cookie {
        Some(c) => *c == *query,
        None => false,
    }
}

/// A state cookie that is absent is rejected whatever the query carries:
/// the guard fails closed.
pub proof fn lemma_missing_state_fails_closed(query: Seq<char>)
    ensures
        !state_ok(None, query),
{
}

/// A state cookie whose value differs from the echoed query parameter is
/// rejected: no forged callback passes the guard.
pub proof fn lemma_mismatched_state_rejected(cookie: Seq<char>, query: Seq<char>)
    requires
        cookie != query,
    ensures
        !state_ok(Some(cookie), query),
{
}

/// Relies on `uuid::Uuid::new_v4` and its `Display` impl: a freshly drawn
/// random version-4 UUID, printed in the canonical hyphenated form, which is
/// always 36 characters long.  The value is random, so nothing beyond its
/// shape is promised.
#[verifier::external_body]
pub(crate) fn fresh_token() -> (r: String)
    ensures
        r@.len() == 36,
{
    uuid::Uuid::new_v4().to_string()
}

} // verus!
