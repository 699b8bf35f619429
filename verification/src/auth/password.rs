//! One-way, salted password hashes.

use super::token::Auth;
use vstd::prelude::*;

verus! {

/// The error of the hashing primitive, carried through as it came.
#[verifier::external_type_specification]
#[verifier::external_body]
pub struct ExBcryptError(bcrypt::BcryptError);

/// An internal failure of the hashing primitive. It is never the answer to a
/// wrong password, only to a hash that cannot be read or to a primitive that
/// could not run.
#[derive(Clone, Copy, PartialEq, Eq, Structural, Debug)]
pub struct HashingFault;

/// What `bcrypt::verify` answers for a password and a stored hash: `Some(true)`
/// where the password gives that hash, `Some(false)` where it does not, `None`
/// where the stored hash cannot be read.
pub uninterp spec fn bcrypt_verdict(password: Seq<char>, hash: Seq<char>) -> Option<bool>;

/// The length of every hash that the primitive gives at the default cost.
pub const HASH_LEN: usize = 60;

/// `bcrypt::hash` at `bcrypt::DEFAULT_COST`. The salt is drawn afresh on each
/// call, so nothing is said of which hash comes back, only what holds of each:
/// it has the fixed length of a version, a cost, a salt and a digest, and
/// `bcrypt::verify` accepts the same password against it.
#[verifier::external_body]
fn bcrypt_hash(password: &str) -> (hashed: Result<String, bcrypt::BcryptError>)
    ensures
        hashed matches Ok(h) ==> h@.len() == HASH_LEN && bcrypt_verdict(password@, h@) == Some(
            true,
        ),
{
    bcrypt::hash(password, bcrypt::DEFAULT_COST)
}

/// `bcrypt::verify`: the answer is a function of the password and the hash.
#[verifier::external_body]
fn bcrypt_verify(password: &str, hash: &str) -> (verdict: Result<bool, bcrypt::BcryptError>)
    ensures
        match verdict {
            Ok(b) => bcrypt_verdict(password@, hash@) == Some(b),
            Err(_) => bcrypt_verdict(password@, hash@) is None,
        },
{
    bcrypt::verify(password, hash)
}

/// The outcome of checking a password against a stored hash.
pub open spec fn password_check(password: Seq<char>, hash: Seq<char>) -> Result<
    bool,
    HashingFault,
> {
    match bcrypt_verdict(password, hash) {
        Some(b) => Ok(b),
        None => Err(HashingFault),
    }
}

/// Whether a hash is one that hashing `password` may give: it has the fixed
/// length, and the password checks against it.
pub open spec fn is_hash_of(hash: Seq<char>, password: Seq<char>) -> bool {
    hash.len() == HASH_LEN && password_check(password, hash) == Ok::<bool, HashingFault>(true)
}

impl Auth {
    /// Hashes a password, with a salt that is drawn for this call. Whichever
    /// hash comes back, it is of the fixed length and the password checks
    /// against it. It fails only where the primitive does.
    pub fn hash_password(password: &str) -> (hashed: Result<String, HashingFault>)
        ensures
            hashed matches Ok(h) ==> is_hash_of(h@, password@),
    {
        Self::hashed(bcrypt_hash(password))
    }

    /// What becomes of the answer of the hashing primitive: a hash is handed
    /// on as it came, and an error of the primitive, whichever it is, is the
    /// one fault.
    pub fn hashed(outcome: Result<String, bcrypt::BcryptError>) -> (hashed: Result<
        String,
        HashingFault,
    >)
        ensures
            hashed == match outcome {
                Ok(hash) => Ok::<String, HashingFault>(hash),
                Err(_) => Err::<String, HashingFault>(HashingFault),
            },
    {
        match outcome {
            Ok(hash) => Ok(hash),
            Err(_) => Err(HashingFault),
        }
    }

    /// Checks a password against a stored hash. A mismatch is `Ok(false)`;
    /// only a hash that cannot be read is an error.
    pub fn verify_password(password: &str, hash: &str) -> (verdict: Result<bool, HashingFault>)
        ensures
            verdict == password_check(password@, hash@),
    {
        match bcrypt_verify(password, hash) {
            Ok(b) => Ok(b),
            Err(_) => Err(HashingFault),
        }
    }
}

} // verus!
