use vstd::prelude::*;
use crate::prng::{Xorshift64, xorshift_step};

verus! {

/// The first free voice: the lowest index whose `active` flag is off, or
/// `None` when every voice is busy.
pub fn first_inactive(active: &[bool]) -> (r: Option<usize>)
    ensures
        match r {
            Some(i) => i < active@.len() && !active@[i as int] && forall|j: int| 0 <= j < i ==> #[trigger] active@[j],
            None => forall|j: int| 0 <= j < active@.len() ==> #[trigger] active@[j],
        },
{
    let mut i: usize = 0;
    while i < active.len()
        invariant
            i <= active@.len(),
            forall|j: int| 0 <= j < i ==> #[trigger] active@[j],
        decreases active@.len() - i,
    {
        if !active[i] {
            return Some(i);
        }
        i = i + 1;
    }
    None
}

/// The random choices that shape one grain.
#[derive(Debug, Clone, Copy, PartialEq, Eq, Structural)]
pub struct GrainPlan {
    /// Taken from the high shimmer pool (else from the low rumble pool).
    pub high: bool,
    /// Index into the chosen frequency pool.
    pub freq_index: usize,
    /// Grain length beyond the minimum of 200 ms, in milliseconds (0..1300).
    pub extra_ms: u64,
}

/// Draws the integer decisions of a grain from the noise source, in order:
/// the pool (7 chances in 10 of the high pool), the index into that pool,
/// and the extra length.
pub fn plan_grain(noise: &mut Xorshift64, n_high: usize, n_low: usize) -> (r: GrainPlan)
    requires
        n_high > 0,
        n_low > 0,
    ensures
        ({
            let x1 = xorshift_step(old(noise)@);
            let x2 = xorshift_step(x1);
            let x3 = xorshift_step(x2);
            &&& r.high == (x1 % 10 < 7)
            &&& r.freq_index == (x2 as usize) % (if r.high { n_high } else { n_low })
            &&& r.extra_ms == x3 % 1300
            &&& final(noise)@ == x3
        }),
        r.freq_index < (if r.high { n_high } else { n_low }),
        r.extra_ms < 1300,
{
    let high = noise.next() % 10 < 7;
    let pool = if high { n_high } else { n_low };
    let freq_index = (noise.next() as usize) % pool;
    let extra_ms = noise.next() % 1300;
    GrainPlan { high, freq_index, extra_ms }
}

} // verus!
