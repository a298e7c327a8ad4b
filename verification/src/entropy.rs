use vstd::prelude::*;
use rand::Rng;
use rand::rngs::StdRng;

verus! {

/// The seeded standard generator of `rand`, carried through opaquely.
#[verifier::external_type_specification]
#[verifier::external_body]
pub struct ExStdRng(rand::rngs::StdRng);

/// Calls `rand::Rng::gen::<u64>` on a `StdRng` (the `Standard` distribution
/// for `u64`, that is the generator's next 64-bit word). Nothing is promised
/// of the value: it is the next output of an opaque generator state.
#[verifier::external_body]
fn draw_u64(rng: &mut StdRng) -> u64 {
    rng.gen::<u64>()
}

/// Draws the private noise state of a pluck engine from the seeded
/// generator; the lowest bit is forced on so the xorshift state is never zero.
pub fn draw_pluck_state(rng: &mut StdRng) -> (r: u64)
    ensures
        r % 2 == 1,
{
    let raw = draw_u64(rng);
    crate::prng::seed_state(raw)
}

} // verus!
