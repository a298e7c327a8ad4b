use vstd::prelude::*;

verus! {

/// The largest swing delay for a beat of `beat_duration` samples: a third of
/// a sixteenth note, `beat_duration / 4 / 3`, which is `beat_duration / 12`.
pub fn max_swing_samples(beat_duration: u32) -> (r: u32)
    ensures
        r == beat_duration / 12,
        r as int * 12 <= beat_duration,
{
    let sixteenth = beat_duration / 4;
    proof {
        vstd::arithmetic::div_mod::lemma_div_denominator(beat_duration as int, 4, 3);
    }
    sixteenth / 3
}

} // verus!
