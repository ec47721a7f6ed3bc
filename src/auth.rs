use vstd::prelude::*;
use crate::error::{ErrorKind, MonitorError, Result};
use crate::text::has_prefix;

verus! {

/// The session key that marks a session as authenticated.
pub const SESSION_USER_KEY: &'static str = "authenticated";

/// Whether `r` is an authentication error whose message is `prefix` followed by
/// some detail.
pub open spec fn is_auth_error_with_prefix<T>(r: Result<T>, prefix: Seq<char>) -> bool {
    r is Err && r->Err_0@.0 == ErrorKind::Authentication && prefix.len() <= r->Err_0@.1.len()
        && r->Err_0@.1.subrange(0, prefix.len() as int) == prefix
}

/// Relies on `bcrypt::hash` with `bcrypt::DEFAULT_COST` (12): the hash of the
/// password under a fresh random salt, formatted as `$2b$12$` followed by the salt
/// and the digest; it fails only when the system gives no randomness.
#[verifier::external_body]
fn bcrypt_hash(password: &str) -> (r: core::result::Result<String, String>)
    ensures
        r is Ok ==> has_prefix(r->Ok_0@, "$2b$12$"@),
{
    match bcrypt::hash(password, bcrypt::DEFAULT_COST) {
        Ok(h) => Ok(h),
        Err(e) => Err(e.to_string()),
    }
}

/// The verdict of `bcrypt::verify` on a password and a stored hash: whether they
/// match, or `None` for a hash it cannot read.
pub uninterp spec fn bcrypt_verdict(password: Seq<char>, hash: Seq<char>) -> Option<bool>;

/// Relies on `bcrypt::verify`: the verdict depends on the password and the hash
/// alone (the salt and cost are read from the hash); a malformed hash is an error.
#[verifier::external_body]
fn bcrypt_verify(password: &str, hash: &str) -> (r: core::result::Result<bool, String>)
    ensures
        match r {
            Ok(b) => bcrypt_verdict(password@, hash@) == Some(b),
            Err(_) => bcrypt_verdict(password@, hash@) is None,
        },
{
    match bcrypt::verify(password, hash) {
        Ok(b) => Ok(b),
        Err(e) => Err(e.to_string()),
    }
}

fn auth_error(prefix: &str, detail: &str) -> (r: MonitorError)
    ensures
        r@ == (ErrorKind::Authentication, prefix@ + detail@),
        r@.1.subrange(0, prefix@.len() as int) == prefix@,
        prefix@.len() <= r@.1.len(),
{
    let mut m = prefix.to_string();
    m.append(detail);
    assert((prefix@ + detail@).subrange(0, prefix@.len() as int) =~= prefix@);
    MonitorError::Authentication(m)
}

/// Hashes a plain-text password with bcrypt under a fresh random salt.
pub fn hash_password(password: &str) -> (r: Result<String>)
    ensures
        r is Ok ==> has_prefix(r->Ok_0@, "$2b$12$"@),
        r is Err ==> is_auth_error_with_prefix(r, "Failed to hash password: "@),
{
    match bcrypt_hash(password) {
        Ok(h) => Ok(h),
        Err(e) => Err(auth_error("Failed to hash password: ", e.as_str())),
    }
}

/// The result of checking a password, from bcrypt's verdict (`Err` holds the
/// reason it could not judge).
pub fn password_check(verdict: core::result::Result<bool, String>) -> (r: Result<bool>)
    ensures
        match verdict {
            Ok(b) => r is Ok && r->Ok_0 == b,
            Err(e) => r is Err && r->Err_0@ == (
                ErrorKind::Authentication,
                "Failed to verify password: "@ + e@,
            ),
        },
{
    match verdict {
        Ok(b) => Ok(b),
        Err(e) => Err(auth_error("Failed to verify password: ", e.as_str())),
    }
}

/// Whether a plain-text password matches a stored bcrypt hash; a hash that cannot
/// be read is an error.
pub fn verify_password(password: &str, hash: &str) -> (r: Result<bool>)
    ensures
        match bcrypt_verdict(password@, hash@) {
            Some(b) => r is Ok && r->Ok_0 == b,
            None => is_auth_error_with_prefix(r, "Failed to verify password: "@),
        },
{
    let verdict = bcrypt_verify(password, hash);
    let ghost reason = verdict;
    let r = password_check(verdict);
    proof {
        if let Err(e) = reason {
            let prefix = "Failed to verify password: "@;
            assert((prefix + e@).subrange(0, prefix.len() as int) =~= prefix);
        }
    }
    r
}

} // verus!
