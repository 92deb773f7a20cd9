//! The only door to chance.
//!
//! Everything random in the engine comes from the thread-local generator of
//! the `rand` crate, and every identity from a version 4 UUID of the `uuid`
//! crate. The functions here make those calls and nothing else. Their
//! contracts are taken on trust from the documentation of the two crates;
//! they say what holds of every outcome and never which outcome comes.

use rand::distributions::Alphanumeric;
use rand::Rng;
use uuid::Uuid;
use vstd::prelude::*;

verus! {

/// Whether `c` is an ASCII letter or digit.
pub open spec fn is_alphanumeric(c: char) -> bool {
    ||| 'a' <= c <= 'z'
    ||| 'A' <= c <= 'Z'
    ||| '0' <= c <= '9'
}

/// Whether the sixteen bytes are marked as a random (version 4) UUID of the
/// RFC 4122 variant: the high four bits of the seventh byte are `0100`, the
/// high two bits of the ninth are `10`.
pub open spec fn is_random_uid(uid: [u8; 16]) -> bool {
    &&& uid[6] / 16 == 4
    &&& uid[8] / 64 == 2
}

/// `rand::Rng::gen_range` on `rand::thread_rng()`, for `i32`.
///
/// Trusted: the call panics when `low >= high`, which the precondition
/// rules out, and returns a value that is at least `low` and less than
/// `high`.
#[verifier::external_body]
pub(crate) fn random_between(low: i32, high: i32) -> (r: i32)
    requires
        low < high,
    ensures
        low <= r < high,
{
    rand::thread_rng().gen_range(low, high)
}

/// `rand::Rng::gen` on `rand::thread_rng()`, for `usize`.
///
/// Trusted; any value may come back, so nothing is claimed of it.
#[verifier::external_body]
pub(crate) fn random_usize() -> usize {
    rand::thread_rng().gen()
}

/// `rand::Rng::gen` on `rand::thread_rng()`, for `u8`.
///
/// Trusted; any value may come back, so nothing is claimed of it.
#[verifier::external_body]
pub(crate) fn random_u8() -> u8 {
    rand::thread_rng().gen()
}

/// `rand::Rng::sample_iter` on `rand::thread_rng()` with the
/// `Alphanumeric` distribution, cut off after `len` characters.
///
/// Trusted: the distribution yields only the characters `a-z`, `A-Z` and
/// `0-9`, and the text has exactly `len` of them.
#[verifier::external_body]
pub(crate) fn random_name(len: usize) -> (name: String)
    ensures
        name@.len() == len,
        forall|i: int| 0 <= i < name@.len() ==> is_alphanumeric(#[trigger] name@[i]),
{
    rand::thread_rng().sample_iter(&Alphanumeric).take(len).collect()
}

/// `uuid::Uuid::new_v4`, as its sixteen bytes.
///
/// Trusted: the bytes are random but for the version and variant marks
/// that the crate sets on every UUID of this kind.
#[verifier::external_body]
pub(crate) fn new_uid() -> (uid: [u8; 16])
    ensures
        is_random_uid(uid),
{
    *Uuid::new_v4().as_bytes()
}

} // verus!
