//! Category names for tests: fresh random names so runs cannot collide.

use vstd::prelude::*;

use rand::Rng;

verus! {

/// Relies on `rand::thread_rng` sampled over `rand::distributions::Alphanumeric`:
/// exactly `len` characters, each alphanumeric; the choice is random, so
/// nothing further is promised.
#[verifier::external_body]
pub(crate) fn random_alphanumeric(len: usize) -> (s: String)
    ensures
        s@.len() == len,
{
    rand::thread_rng().sample_iter(&rand::distributions::Alphanumeric).take(len).map(
        char::from,
    ).collect()
}

/// A category name no other test run will have used.
pub fn unique_category() -> (s: String)
    ensures
        s@.len() == 30,
{
    random_alphanumeric(30)
}

/// An example category: fresh on every call.
pub fn example() -> (s: String)
    ensures
        s@.len() == 30,
{
    unique_category()
}

} // verus!
