//! Contracts of the outside functions the generator relies on.
//!
//! Nothing in this module is proved: each contract restates what the called
//! function's source or documentation shows.  The random number generator of
//! the thread is seeded by the operating system, at first use and again from
//! time to time; where the operating system fails to deliver a seed, the
//! calls into `rand` panic.  No argument decides that, so no contract can
//! rule it out.

use rand::rngs::ThreadRng;
use rand::seq::SliceRandom;
use rand::Rng;
use vstd::prelude::*;

verus! {

/// `rand::rngs::ThreadRng`, a handle to the random number generator of the
/// current thread.  Its state is opaque here.
#[verifier::external_type_specification]
#[verifier::external_body]
pub struct ExThreadRng(rand::rngs::ThreadRng);

/// `rand::thread_rng` returns a handle to the generator of the current
/// thread.  Nothing is claimed of the handle.
pub assume_specification[ rand::thread_rng ]() -> (rng: ThreadRng)
;

/// `String::push` appends one character to the end of the string.  Like
/// `Vec::push`, it fails only where memory runs out.
pub assume_specification[ String::push ](s: &mut String, ch: char)
    ensures
        final(s)@ == old(s)@.push(ch),
;

/// `rand::Rng::gen_range` on the half-open range `0..bound`: the sample lies
/// in the range.  The call panics on an empty range, so `bound` must be
/// positive.  Which index comes back is left open.
#[verifier::external_body]
pub(crate) fn random_index(rng: &mut ThreadRng, bound: usize) -> (index: usize)
    requires
        bound > 0,
    ensures
        index < bound,
{
    rng.gen_range(0..bound)
}

/// `rand::seq::SliceRandom::shuffle` rearranges the slice in place by a
/// series of swaps: afterwards it holds the same characters, each as often as
/// before.  The order they end up in is left open.
#[verifier::external_body]
pub(crate) fn shuffle(chars: &mut Vec<char>, rng: &mut ThreadRng)
    ensures
        final(chars)@.to_multiset() == old(chars)@.to_multiset(),
{
    chars.shuffle(rng);
}

} // verus!
