//! The crate's only source of chance: the `rand` crate's thread-local
//! generator. Nothing in here is proved. Each function states what `rand`
//! documents of the call it makes, and the rest of the crate is verified
//! against exactly that, for every value that may come back.

use vstd::prelude::*;
use rand::Rng;
use rand::seq::SliceRandom;

verus! {

/// `rand::Rng::gen_range` on the inclusive range `low..=high`, drawn from
/// `rand::thread_rng()`.
///
/// `gen_range` panics on an empty range, which `low <= high` rules out; what
/// it returns lies in the range it was given. Which number of the range comes
/// back is left open.
#[verifier::external_body]
pub(crate) fn random_in_range(low: u32, high: u32) -> (drawn: u32)
    requires
        low <= high,
    ensures
        low <= drawn <= high,
{
    rand::thread_rng().gen_range(low..=high)
}

/// `rand::random::<u8>()`: any byte may come back.
#[verifier::external_body]
pub(crate) fn random_byte() -> (drawn: u8) {
    rand::random::<u8>()
}

/// `rand::seq::SliceRandom::choose` on `names`, drawn from
/// `rand::thread_rng()`.
///
/// `choose` returns `None` exactly when the slice is empty, and otherwise a
/// reference to one of its elements. Which element is left open.
#[verifier::external_body]
pub(crate) fn choose_name(names: &Vec<&'static str>) -> (picked: Option<&'static str>)
    ensures
        match picked {
            Some(name) => exists|i: int| 0 <= i < names@.len() && #[trigger] names@[i]@ == name@,
            None => names@.len() == 0,
        },
{
    names.choose(&mut rand::thread_rng()).copied()
}

} // verus!
