//! The random source behind food relocation.

use vstd::prelude::*;

verus! {

/// The thread-local generator of the `rand` crate, carried as an opaque
/// handle.
#[verifier::external_type_specification]
#[verifier::external_body]
pub struct ExThreadRng(rand::rngs::ThreadRng);

/// `rand::thread_rng` hands out the handle of the calling thread's
/// generator, which the operating system seeds on first use. Nothing is
/// claimed about the handle.
pub assume_specification[ rand::thread_rng ]() -> (rng: rand::rngs::ThreadRng);

/// `rand::Rng::gen_range` on the thread-local generator, for `i32`: trusted
/// to return a value in the half-open range `low .. high`. The call panics
/// when `low >= high`, which the precondition rules out. Which value of the
/// range comes back is left open.
#[verifier::external_body]
pub(crate) fn gen_range(rng: &mut rand::rngs::ThreadRng, low: i32, high: i32) -> (n: i32)
    requires
        low < high,
    ensures
        low <= n < high,
{
    rand::Rng::gen_range(rng, low, high)
}

} // verus!
