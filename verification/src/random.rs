//! Fair coin tosses from the thread's random number generator.

use vstd::prelude::*;
use rand::Rng;

verus! {

/// `rand::rngs::ThreadRng`, the handle to a thread's generator. Nothing of
/// what it holds is known here: it is only handed from one call to the next.
#[verifier::external_type_specification]
#[verifier::external_body]
pub struct ExThreadRng(rand::rngs::ThreadRng);

/// Calls `rand::thread_rng`, which hands out the calling thread's generator.
/// Nothing is claimed of the generator. The call stops the program if the
/// operating system gives the generator no seed.
#[verifier::external_body]
pub(crate) fn thread_rng() -> rand::rngs::ThreadRng {
    rand::thread_rng()
}

/// Calls `rand::Rng::gen` for a `bool`, which is `true` with probability one
/// half. Nothing is claimed of the result: it is either value, and two calls
/// may differ. The call stops the program if the generator is due for a new
/// seed and the operating system gives none.
#[verifier::external_body]
pub(crate) fn toss(rng: &mut rand::rngs::ThreadRng) -> bool {
    rng.gen::<bool>()
}

} // verus!
