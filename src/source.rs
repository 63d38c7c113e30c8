//! Where the random bits come from: rand's generators, seen through the
//! `u64` draws the sampler needs.

use vstd::prelude::*;
use rand::Rng;

verus! {

#[verifier::external_type_specification]
#[verifier::external_body]
pub struct ExThreadRng(rand::ThreadRng);

#[verifier::external_type_specification]
#[verifier::external_body]
pub struct ExStdRng(rand::StdRng);

/// A generator of uniformly distributed `u64` values.
pub trait RandomSource: Sized {
    /// One value drawn uniformly from `[low, high)`.
    fn draw_below(&mut self, low: u64, high: u64) -> (r: u64)
        requires
            low < high,
        ensures
            low <= r < high,
    ;

    /// One value drawn uniformly from all of `u64`.
    fn draw_any(&mut self) -> (r: u64);
}

impl RandomSource for rand::ThreadRng {
    fn draw_below(&mut self, low: u64, high: u64) -> (r: u64) {
        thread_below(self, low, high)
    }

    fn draw_any(&mut self) -> (r: u64) {
        thread_any(self)
    }
}

impl RandomSource for rand::StdRng {
    fn draw_below(&mut self, low: u64, high: u64) -> (r: u64) {
        std_below(self, low, high)
    }

    fn draw_any(&mut self) -> (r: u64) {
        std_any(self)
    }
}

/// Relies on rand's `Rng::gen_range` on a `ThreadRng`, which returns a value
/// in `[low, high)` and panics only where `low >= high`.
#[verifier::external_body]
fn thread_below(rng: &mut rand::ThreadRng, low: u64, high: u64) -> (r: u64)
    requires
        low < high,
    ensures
        low <= r < high,
{
    rng.gen_range(low, high)
}

/// Relies on rand's `Rng::gen::<u64>` on a `ThreadRng`: the generator's next
/// `u64`, which may be any.
#[verifier::external_body]
fn thread_any(rng: &mut rand::ThreadRng) -> (r: u64) {
    rng.gen::<u64>()
}

/// Relies on rand's `Rng::gen_range` on a `StdRng`, which returns a value in
/// `[low, high)` and panics only where `low >= high`.
#[verifier::external_body]
fn std_below(rng: &mut rand::StdRng, low: u64, high: u64) -> (r: u64)
    requires
        low < high,
    ensures
        low <= r < high,
{
    rng.gen_range(low, high)
}

/// Relies on rand's `Rng::gen::<u64>` on a `StdRng`: the generator's next
/// `u64`, which may be any.
#[verifier::external_body]
fn std_any(rng: &mut rand::StdRng) -> (r: u64) {
    rng.gen::<u64>()
}

/// Relies on rand's `thread_rng`: a handle on this thread's generator,
/// seeded from the system on first use.
#[verifier::external_body]
pub(crate) fn thread_source() -> (r: rand::ThreadRng) {
    rand::thread_rng()
}

} // verus!
