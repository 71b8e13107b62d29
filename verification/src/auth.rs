//! What the relay takes from the auth gate, and how it answers a refusal.
//!
//! Tokens are checked elsewhere. The relay receives the outcome: an identity
//! that stays fixed for the life of the session, or the reason why there is
//! none.

use vstd::prelude::*;
use vstd::string::*;

verus! {

/// The HTTP status of a refused upgrade.
pub const UNAUTHORIZED: u16 = 401;

/// Who a session acts for.
#[derive(Debug)]
pub struct Identity {
    pub username: String,
    pub user_id: i32,
    /// When the token runs out, in seconds since the epoch. It is checked
    /// once, before the upgrade, and not again.
    pub expiry: u64,
}

/// Why a token gave no identity.
#[derive(Clone, Copy, Debug, PartialEq, Eq, Structural)]
pub enum AuthError {
    Missing,
    Malformed,
    Expired,
    BadSignature,
}

/// The answer to an upgrade that is not let through.
#[derive(Debug)]
pub struct Refusal {
    pub status: u16,
    pub reason: AuthError,
    pub message: String,
}

/// The text that a refusal carries.
pub open spec fn refusal_text(reason: AuthError) -> Seq<char> {
    match reason {
        AuthError::Missing => "Token not provided"@,
        _ => "Invalid token"@,
    }
}

impl Identity {
    /// A second copy of the identity.
    pub fn duplicate(&self) -> (copy: Identity)
        ensures
            copy == *self,
    {
        Identity { username: self.username.clone(), user_id: self.user_id, expiry: self.expiry }
    }
}

/// The unauthorized answer for `reason`.
pub fn refuse(reason: AuthError) -> (refusal: Refusal)
    ensures
        refusal.status == UNAUTHORIZED,
        refusal.reason == reason,
        refusal.message@ == refusal_text(reason),
{
    let message = match reason {
        AuthError::Missing => String::from_str("Token not provided"),
        _ => String::from_str("Invalid token"),
    };
    Refusal { status: UNAUTHORIZED, reason, message }
}

} // verus!
