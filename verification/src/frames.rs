use vstd::prelude::*;

verus! {

/// Interleaves the first `frames` samples of two channels as
/// `[l0, r0, l1, r1, ...]`.
pub fn interleave<T: Copy>(left: &[T], right: &[T], frames: usize) -> (out: Vec<T>)
    requires
        frames <= left@.len(),
        frames <= right@.len(),
        2 * frames <= usize::MAX,
    ensures
        out@.len() == 2 * frames,
        forall|i: int| 0 <= i < frames ==> #[trigger] out@[2 * i] == left@[i] && out@[2 * i + 1] == right@[i],
{
    let mut out: Vec<T> = Vec::with_capacity(frames * 2);
    let mut i: usize = 0;
    while i < frames
        invariant
            i <= frames,
            frames <= left@.len(),
            frames <= right@.len(),
            out@.len() == 2 * i,
            forall|j: int| 0 <= j < i ==> #[trigger] out@[2 * j] == left@[j] && out@[2 * j + 1] == right@[j],
        decreases frames - i,
    {
        out.push(left[i]);
        out.push(right[i]);
        i = i + 1;
    }
    out
}

} // verus!
