//! Registration and login: what is decided between the calls to the user
//! store and to the token signer.
//!
//! The store and the signer are reached by whoever serves the requests. The
//! rules are here: which password hash is asked for, when credentials count
//! as valid, how long a token lives, and what each failure is answered with.

use crate::auth::Identity;
use vstd::prelude::*;
use vstd::string::*;

verus! {

/// The work factor that password hashes are made with.
pub const HASH_COST: u32 = 12;

/// How long a token is good for, in seconds: twenty-four hours.
pub const TOKEN_LIFETIME: u64 = 86_400;

pub const CREATED: u16 = 201;

pub const BAD_REQUEST: u16 = 400;

pub const INVALID_CREDENTIALS: u16 = 401;

pub const SERVER_ERROR: u16 = 500;

/// A status and a text body.
#[derive(Debug)]
pub struct Reply {
    pub status: u16,
    pub body: String,
}

impl Reply {
    /// Whether the reply has this status and this body.
    pub open spec fn says(self, status: u16, body: Seq<char>) -> bool {
        self.status == status && self.body@ == body
    }
}

/// Whether `outcome` is the refusal with this status and this body.
pub open spec fn refused_with<T>(outcome: Result<T, Reply>, status: u16, body: Seq<char>) -> bool {
    outcome is Err && outcome->Err_0.says(status, body)
}

/// A row of the user store.
#[derive(Debug)]
pub struct UserRecord {
    pub id: i32,
    pub username: String,
    pub password_hash: String,
}

/// What the user store answered when asked for a username.
#[derive(Debug)]
pub enum Lookup {
    Found(UserRecord),
    Unknown,
    Failed,
}

/// What `bcrypt::verify` makes of a password and a stored hash: whether they
/// match, or nothing where the hash cannot be read.
pub uninterp spec fn bcrypt_verdict(password: Seq<char>, hash: Seq<char>) -> Option<bool>;

/// `bcrypt::verify`, with its error dropped. The outcome depends on the two
/// texts alone.
#[verifier::external_body]
fn check_hash(password: &str, hash: &str) -> (verdict: Option<bool>)
    ensures
        verdict == bcrypt_verdict(password@, hash@),
{
    bcrypt::verify(password, hash).ok()
}

/// `bcrypt::hash`, with its error dropped. The salt is drawn at random, so
/// the hash that comes back is not determined by the password. What holds of
/// every hash that does come back is what the crate makes hashes for:
/// `bcrypt::verify` finds that it matches the password it was made from.
#[verifier::external_body]
fn salted_hash(password: &str, cost: u32) -> (made: Option<String>)
    ensures
        made matches Some(hash) ==> bcrypt_verdict(password@, hash@) == Some(true),
{
    bcrypt::hash(password, cost).ok()
}

/// Whether a verdict on a password lets the user in: only a clear match
/// does, and a hash that cannot be read counts as a mismatch.
pub fn accepted(verdict: Option<bool>) -> (ok: bool)
    ensures
        ok == (verdict == Some(true)),
{
    match verdict {
        Some(matches) => matches,
        None => false,
    }
}

/// Whether `password` is the one that `hash` was made from.
pub fn password_matches(password: &str, hash: &str) -> (ok: bool)
    ensures
        ok == (bcrypt_verdict(password@, hash@) == Some(true)),
{
    accepted(check_hash(password, hash))
}

/// The answer to a registration whose password could not be hashed.
pub fn hashing_failed() -> (reply: Reply)
    ensures
        reply.says(SERVER_ERROR, "Failed to hash password"@),
{
    Reply { status: SERVER_ERROR, body: String::from_str("Failed to hash password") }
}

/// Hashes a new user's password with [`HASH_COST`] and a fresh salt, or
/// gives the answer to send if that fails. A hash that is handed out is one
/// that the same password will later be found to match.
pub fn hash_password(password: &str) -> (hashed: Result<String, Reply>)
    ensures
        hashed matches Ok(hash) ==> bcrypt_verdict(password@, hash@) == Some(true),
        hashed is Err ==> refused_with(hashed, SERVER_ERROR, "Failed to hash password"@),
{
    match salted_hash(password, HASH_COST) {
        Some(hash) => Ok(hash),
        None => Err(hashing_failed()),
    }
}

/// The answer to a registration, given what the user store said to the
/// insert: its own words where it refused.
pub fn registration_reply(stored: Result<(), String>) -> (reply: Reply)
    ensures
        stored is Ok ==> reply.says(CREATED, "User created successfully"@),
        stored matches Err(why) ==> reply.says(BAD_REQUEST, why@),
{
    match stored {
        Ok(_) => Reply { status: CREATED, body: String::from_str("User created successfully") },
        Err(why) => Reply { status: BAD_REQUEST, body: why },
    }
}

/// Decides a login from the store's answer and the verdict on the password.
/// An unknown user and a wrong password get the same answer.
pub fn judge_login(lookup: Lookup, verdict: Option<bool>) -> (outcome: Result<UserRecord, Reply>)
    ensures
        match lookup {
            Lookup::Found(user) => if verdict == Some(true) {
                outcome == Ok::<UserRecord, Reply>(user)
            } else {
                refused_with(outcome, INVALID_CREDENTIALS, "Invalid credentials"@)
            },
            Lookup::Unknown => refused_with(outcome, INVALID_CREDENTIALS, "Invalid credentials"@),
            Lookup::Failed => refused_with(outcome, SERVER_ERROR, "Database error"@),
        },
{
    match lookup {
        Lookup::Found(user) => if accepted(verdict) {
            Ok(user)
        } else {
            Err(
                Reply {
                    status: INVALID_CREDENTIALS,
                    body: String::from_str("Invalid credentials"),
                },
            )
        },
        Lookup::Unknown => Err(
            Reply { status: INVALID_CREDENTIALS, body: String::from_str("Invalid credentials") },
        ),
        Lookup::Failed => Err(
            Reply { status: SERVER_ERROR, body: String::from_str("Database error") },
        ),
    }
}

/// Checks `password` against what the user store answered. The password is
/// only looked at when the user was found.
pub fn check_login(lookup: Lookup, password: &str) -> (outcome: Result<UserRecord, Reply>)
    ensures
        match lookup {
            Lookup::Found(user) => if bcrypt_verdict(password@, user.password_hash@) == Some(
                true,
            ) {
                outcome == Ok::<UserRecord, Reply>(user)
            } else {
                refused_with(outcome, INVALID_CREDENTIALS, "Invalid credentials"@)
            },
            Lookup::Unknown => refused_with(outcome, INVALID_CREDENTIALS, "Invalid credentials"@),
            Lookup::Failed => refused_with(outcome, SERVER_ERROR, "Database error"@),
        },
{
    let verdict = match &lookup {
        Lookup::Found(user) => check_hash(password, user.password_hash.as_str()),
        _ => None,
    };
    judge_login(lookup, verdict)
}

/// The identity that a token issued at `now` will carry for `user`. The
/// token runs out [`TOKEN_LIFETIME`] seconds later.
pub fn claims_for(user: &UserRecord, now: u64) -> (claims: Identity)
    requires
        now + TOKEN_LIFETIME <= u64::MAX,
    ensures
        claims.username@ == user.username@,
        claims.user_id == user.id,
        claims.expiry == now + TOKEN_LIFETIME,
{
    Identity { username: user.username.clone(), user_id: user.id, expiry: now + TOKEN_LIFETIME }
}

/// The token to hand out, or the answer to send if the signer gave none.
pub fn token_or_reply(signed: Option<String>) -> (outcome: Result<String, Reply>)
    ensures
        signed matches Some(token) ==> outcome == Ok::<String, Reply>(token),
        signed is None ==> refused_with(outcome, SERVER_ERROR, "Failed to create token"@),
{
    match signed {
        Some(token) => Ok(token),
        None => Err(
            Reply { status: SERVER_ERROR, body: String::from_str("Failed to create token") },
        ),
    }
}

} // verus!
