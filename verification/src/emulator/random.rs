use rand::rngs::ThreadRng;
use rand::Rng;
use vstd::prelude::*;

verus! {

/// `rand::rngs::ThreadRng`, the handle to the generator that `rand` keeps for each
/// thread. Nothing inside it is visible to the verifier.
#[verifier::external_type_specification]
#[verifier::external_body]
pub struct ExThreadRng(rand::rngs::ThreadRng);

/// `rand::thread_rng`, which hands out the calling thread's generator. Trusted, with
/// nothing claimed of the handle. `rand` panics if the operating system gives no
/// entropy to seed the generator with.
#[verifier::external_body]
fn thread_generator() -> ThreadRng {
    rand::thread_rng()
}

/// `rand::Rng::gen_range` on the thread's generator, for `u16`. Trusted: the value
/// lies in `low..high`, as `rand` documents. That it is uniform there is not
/// stated, and nothing is said of the generator afterwards. `rand` panics unless
/// `low < high`; it draws again while a draw falls into the sliver that would bias
/// the result, which ends after finitely many draws with probability one.
#[verifier::external_body]
fn gen_range_u16(rng: &mut ThreadRng, low: u16, high: u16) -> (value: u16)
    requires
        low < high,
    ensures
        low <= value < high,
{
    rng.gen_range(low, high)
}

/// A source of random bytes. Each byte is meant to be uniform over all 256 values;
/// nothing is asked of how one byte relates to the next, so a source that replays
/// chosen bytes will do where a run has to be repeatable.
pub trait RandomByteSource {
    /// Hands out the next byte.
    fn next(&mut self) -> u8;
}

/// The source of random bytes that a machine has by default: the calling thread's
/// generator, seeded by the system.
#[derive(Copy, Clone)]
pub struct RNG(ThreadRng);

impl RNG {
    /// A handle to the calling thread's generator.
    pub fn new() -> Self {
        Self(thread_generator())
    }

    /// Draws a random number in `0..256`.
    pub fn rand(&mut self) -> u8 {
        let drawn: u16 = gen_range_u16(&mut self.0, 0, 256);
        drawn as u8
    }
}

impl RandomByteSource for RNG {
    fn next(&mut self) -> u8 {
        self.rand()
    }
}

impl Default for RNG {
    fn default() -> Self {
        Self::new()
    }
}

} // verus!
