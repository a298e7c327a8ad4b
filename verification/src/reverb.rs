use vstd::prelude::*;

verus! {

/// Counts one sample of the plate reverb's modulation clock: returns whether
/// the slow LFOs are to be advanced on this sample (every 32nd sample) and
/// moves the counter on, wrapping at `u32::MAX`.
pub fn lfo_update_due(counter: &mut u32) -> (due: bool)
    ensures
        due == (*old(counter) % 32 == 0),
        *final(counter) == (*old(counter) + 1) % 0x1_0000_0000,
{
    let due = *counter & 31u32 == 0;
    assert(*counter & 31u32 == *counter % 32) by (bit_vector);
    *counter = counter.wrapping_add(1);
    due
}

/// The LFO cadence survives the counter's wrap-around: the position within
/// the 32-sample cycle always advances by one, so updates come exactly every
/// 32 samples forever.
pub proof fn lemma_lfo_cadence(counter: u32)
    ensures
        ((counter + 1) % 0x1_0000_0000) % 32 == (counter % 32 + 1) % 32,
{
    let c = counter as int;
    assert(((c + 1) % 0x1_0000_0000) % 32 == (c % 32 + 1) % 32) by (nonlinear_arith)
        requires
            0 <= c < 0x1_0000_0000,
    {
        if c + 1 == 0x1_0000_0000 {
        } else {
            assert((c + 1) % 0x1_0000_0000 == c + 1);
        }
    }
}

} // verus!
