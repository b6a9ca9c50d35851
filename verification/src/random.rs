//! Trusted boundary to the two random sources the event generator draws
//! from: rand's thread-local generator for amounts, and uuid for the
//! transfer party identifiers.

use vstd::prelude::*;
use rand::RngExt;

verus! {

#[verifier::external_type_specification]
#[verifier::external_body]
pub struct ExThreadRng(rand::rngs::ThreadRng);

#[verifier::external_type_specification]
#[verifier::external_body]
pub struct ExUuid(uuid::Uuid);

/// Relies on rand::rng: a handle to the thread-local random generator.
/// Nothing is promised of its state.
#[verifier::external_body]
pub(crate) fn fresh_rng() -> rand::rngs::ThreadRng {
    rand::rng()
}

/// Relies on rand's Rng::random_range over a non-empty inclusive range:
/// the sample lies within the range's bounds.
#[verifier::external_body]
pub(crate) fn rng_range_i32(rng: &mut rand::rngs::ThreadRng, lo: i32, hi: i32) -> (r: i32)
    requires
        lo <= hi,
    ensures
        lo <= r <= hi,
{
    rng.random_range(lo..=hi)
}

/// Relies on uuid's Uuid::new_v4: a freshly drawn random identifier.
/// Nothing is promised of its value.
#[verifier::external_body]
pub(crate) fn new_v4_uuid() -> uuid::Uuid {
    uuid::Uuid::new_v4()
}

/// The canonical hyphenated text of an identifier: 36 characters, lowercase
/// hexadecimal with hyphens after the 8th, 13th, 18th and 23rd position.
pub open spec fn uuid_text_wf(s: Seq<char>) -> bool {
    &&& s.len() == 36
    &&& forall|i: int|
        0 <= i < 36 ==> if i == 8 || i == 13 || i == 18 || i == 23 {
            #[trigger] s[i] == '-'
        } else {
            ('0' <= s[i] <= '9') || ('a' <= s[i] <= 'f')
        }
}

/// Relies on uuid's Display impl: an identifier renders as its hyphenated
/// form, lowercase hexadecimal groups of 8-4-4-4-12 digits.
#[verifier::external_body]
pub(crate) fn uuid_hyphenated(u: &uuid::Uuid) -> (r: String)
    ensures
        uuid_text_wf(r@),
{
    u.to_string()
}

} // verus!
