//! Random picks, drawn from the thread's generator.

use rand::seq::SliceRandom;
use vstd::prelude::*;

verus! {

/// The handle of `rand`'s thread-local generator; opaque here.
#[verifier::external_type_specification]
#[verifier::external_body]
pub struct ExThreadRng(rand::rngs::ThreadRng);

/// `rand::thread_rng` hands out the thread's generator, which the system
/// seeds. Trusted: nothing is claimed of it.
pub assume_specification[ rand::thread_rng ]() -> (rng: rand::rngs::ThreadRng);

/// Calls `rand::seq::SliceRandom::choose` on the slice of `options`. Trusted:
/// the result is one of the options, whichever the generator lands on, and
/// `None` only where there is no option.
#[verifier::external_body]
pub(crate) fn choose_text(options: &Vec<&'static str>, rng: &mut rand::rngs::ThreadRng) -> (picked:
    Option<&'static str>)
    ensures
        picked is None <==> options@.len() == 0,
        picked matches Some(text) ==> exists|i: int|
            0 <= i < options@.len() && #[trigger] options@[i] == text,
{
    options.choose(rng).copied()
}

} // verus!
