//! Password hashing and verification with bcrypt.

use vstd::prelude::*;
use crate::text::digit_char;

verus! {

/// The error type of the bcrypt crate, carried through unchanged.
#[verifier::external_type_specification]
#[verifier::external_body]
pub struct ExBcryptError(bcrypt::BcryptError);

/// The work factor used for every new password hash.
pub const HASH_COST: u32 = 12;

/// What `bcrypt::verify(password, hash)` returns for these inputs: `None` when it
/// fails (malformed hash string, cost out of range, bad salt), otherwise whether
/// the password matches the hash.
pub uninterp spec fn bcrypt_verify_outcome(password: Seq<char>, hash: Seq<char>) -> Option<bool>;

/// A password matches a stored hash when bcrypt verifies it without error and
/// answers `true`.
pub open spec fn password_matches(password: Seq<char>, hash: Seq<char>) -> bool {
    bcrypt_verify_outcome(password, hash) == Some(true)
}

/// The first seven characters of a hash that bcrypt formats: `$2b$`, the cost
/// on two digits, and `$`.
pub open spec fn hash_prefix(cost: nat) -> Seq<char> {
    seq!['$', '2', 'b', '$', digit_char(cost / 10), digit_char(cost % 10), '$']
}

/// The number of non-empty fields of `s` between `$` separators: what
/// `s.split('$').filter(|f| !f.is_empty()).count()` gives.
pub open spec fn dollar_field_count(s: Seq<char>) -> nat
    decreases s.len(),
{
    if s.len() == 0 {
        0
    } else {
        dollar_field_count(s.drop_last()) + if s.last() != '$' && (s.len() == 1 || s[s.len() - 2] == '$') {
            1nat
        } else {
            0nat
        }
    }
}

/// `bcrypt::verify`: recomputes the hash of `password` with the salt and cost
/// read from `hash` and compares. It is a function of its two arguments; the
/// contract names its result and does not say which error comes out on failure.
/// It also states the first check of the hash string: one that does not split
/// into exactly three non-empty `$`-separated fields (prefix, cost, salt and
/// digest) is refused with an error.
#[verifier::external_body]
fn bcrypt_verify(password: &str, hash: &str) -> (r: Result<bool, bcrypt::BcryptError>)
    ensures
        dollar_field_count(hash@) != 3 ==> r is Err,
        match r {
            Ok(b) => bcrypt_verify_outcome(password@, hash@) == Some(b),
            Err(_) => bcrypt_verify_outcome(password@, hash@) is None,
        },
{
    bcrypt::verify(password, hash)
}

/// `bcrypt::hash`: draws a random salt from the OS and formats
/// `$2b$<cost>$<salt><digest>`, 60 characters. A cost outside 4..=31 is refused.
/// Whether the OS randomness is available is not stated, so success is not
/// promised. What is stated holds of every outcome: the format, and that
/// `bcrypt::verify` accepts the password against the hash produced (it re-reads
/// the same salt and cost and recomputes the same digest).
#[verifier::external_body]
fn bcrypt_hash(password: &str, cost: u32) -> (r: Result<String, bcrypt::BcryptError>)
    ensures
        !(4 <= cost <= 31) ==> r is Err,
        r matches Ok(h) ==> {
            &&& h@.len() == 60
            &&& h@.subrange(0, 7) == hash_prefix(cost as nat)
            &&& bcrypt_verify_outcome(password@, h@) == Some(true)
        },
{
    bcrypt::hash(password, cost)
}

/// Reads the outcome of a bcrypt verification: a failure counts as a mismatch.
pub fn accept_verification(outcome: Result<bool, bcrypt::BcryptError>) -> (accepted: bool)
    ensures
        accepted == (outcome matches Ok(true)),
{
    match outcome {
        Ok(b) => b,
        Err(_) => false,
    }
}

/// Whether `password` matches the stored bcrypt `hash`; any bcrypt error counts
/// as a mismatch, so a hash that does not split into three non-empty
/// `$`-separated fields never matches.
pub fn verify_password(password: &str, hash: &str) -> (matches: bool)
    ensures
        matches == password_matches(password@, hash@),
        dollar_field_count(hash@) != 3 ==> !matches,
{
    accept_verification(bcrypt_verify(password, hash))
}

/// Hashes a password with bcrypt at cost 12 and a fresh random salt.
/// Every hash it returns is in the `$2b$12$` format and verifies against the
/// password it was made from.
pub fn generate_hash(plain_text: &str) -> (r: Result<String, bcrypt::BcryptError>)
    ensures
        r matches Ok(h) ==> {
            &&& h@.len() == 60
            &&& h@.subrange(0, 7) == hash_prefix(12)
            &&& password_matches(plain_text@, h@)
        },
{
    bcrypt_hash(plain_text, HASH_COST)
}

} // verus!
