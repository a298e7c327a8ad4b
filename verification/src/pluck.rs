use vstd::prelude::*;
use crate::prng::{xorshift, xorshift_step, xorshift_iter, xorshift_words};
use crate::granular::first_inactive;

verus! {

/// The voice a new pluck goes to: the first idle one, or voice 0 (cut off
/// and restarted) when all are sounding.
pub fn voice_to_pluck(active: &[bool]) -> (r: usize)
    ensures
        (exists|j: int| 0 <= j < active@.len() && !active@[j]) ==> (r < active@.len() && !active@[r as int]
            && forall|j: int| 0 <= j < r ==> #[trigger] active@[j]),
        (forall|j: int| 0 <= j < active@.len() ==> #[trigger] active@[j]) ==> r == 0,
{
    match first_inactive(active) {
        Some(i) => i,
        None => 0,
    }
}

/// The string length actually used: at most one less than the delay line,
/// and never below two samples.
pub open spec fn clamped_period(period: nat, delay_len: nat) -> nat {
    let shortened = if period < delay_len - 1 { period } else { (delay_len - 1) as nat };
    if shortened < 2 { 2 } else { shortened }
}

/// The string length is the requested period whenever it fits (from 2 up to
/// one less than the delay line); a longer request is cut to one less than
/// the delay line, a shorter one raised to 2.
pub proof fn lemma_clamped_period(period: nat, delay_len: nat)
    requires
        delay_len >= 1,
    ensures
        2 <= period <= delay_len - 1 ==> clamped_period(period, delay_len) == period,
        period >= delay_len - 1 && delay_len - 1 >= 2 ==> clamped_period(period, delay_len) == delay_len - 1,
        (period < 2 || delay_len - 1 < 2) ==> clamped_period(period, delay_len) == 2,
        clamped_period(period, delay_len) >= 2,
        delay_len >= 3 ==> clamped_period(period, delay_len) < delay_len,
{
}

/// Picks which note of a pool of `n_freqs` to pluck next.
pub fn pick_pluck_note(rng_state: &mut u64, n_freqs: usize) -> (r: usize)
    requires
        n_freqs > 0,
    ensures
        r == (xorshift_step(*old(rng_state)) as usize) % n_freqs,
        r < n_freqs,
        *final(rng_state) == xorshift_step(*old(rng_state)),
{
    (xorshift(rng_state) as usize) % n_freqs
}

/// Everything needed to excite a plucked string: its period, the raw noise
/// words of the initial burst (one per sample of the period) and the wait
/// until the next pluck.
pub struct PluckExcitation {
    pub period: usize,
    pub noise: Vec<u64>,
    pub next_pluck_in: u32,
}

/// Plans a pluck once its note period (in samples) is known: the period is
/// clamped to the string's delay line, one noise word is drawn per sample of
/// it, then one more word sets the next wait, in `min_interval..max_interval`.
pub fn plan_excitation(
    rng_state: &mut u64,
    period: usize,
    delay_len: usize,
    min_interval: u32,
    max_interval: u32,
) -> (r: PluckExcitation)
    requires
        delay_len >= 1,
        min_interval < max_interval,
    ensures
        r.period == clamped_period(period as nat, delay_len as nat),
        2 <= period <= delay_len - 1 ==> r.period == period,
        period > delay_len - 1 ==> r.period == (if delay_len - 1 < 2 { 2 } else { delay_len - 1 }),
        period < 2 ==> r.period == 2,
        r.noise@.len() == r.period,
        forall|i: int| 0 <= i < r.period ==> #[trigger] r.noise@[i] == xorshift_iter(*old(rng_state), (i + 1) as nat),
        r.next_pluck_in == min_interval + (xorshift_iter(*old(rng_state), (r.period + 1) as nat) as u32) % ((max_interval - min_interval) as u32),
        min_interval <= r.next_pluck_in < max_interval,
        *final(rng_state) == xorshift_iter(*old(rng_state), (r.period + 1) as nat),
{
    let shortened = if period < delay_len - 1 { period } else { delay_len - 1 };
    let p = if shortened < 2 { 2 } else { shortened };
    let ghost start = *rng_state;
    let noise = xorshift_words(rng_state, p);
    let range = max_interval - min_interval;
    let x = xorshift(rng_state);
    let next_pluck_in = min_interval + (x as u32) % range;
    PluckExcitation { period: p, noise, next_pluck_in }
}

/// One sample of the countdown to the next pluck: the counter after the
/// sample, and whether the pluck fires on it.
pub open spec fn countdown_step(n: nat) -> (nat, bool) {
    if n == 0 {
        (0, true)
    } else {
        ((n - 1) as nat, false)
    }
}

/// The counter after `k` samples.
pub open spec fn countdown_after(n: nat, k: nat) -> nat
    decreases k,
{
    if k == 0 {
        n
    } else {
        countdown_step(countdown_after(n, (k - 1) as nat)).0
    }
}

/// Whether the pluck fires on the sample rendered after `k` earlier ones.
pub open spec fn fires_at(n: nat, k: nat) -> bool {
    countdown_step(countdown_after(n, k)).1
}

/// Counts one sample down towards the next pluck: returns `true`, leaving
/// the counter at zero, when the pluck is due; otherwise decrements it.
pub fn pluck_due(next_pluck_in: &mut u32) -> (due: bool)
    ensures
        due == countdown_step(*old(next_pluck_in) as nat).1,
        *final(next_pluck_in) == countdown_step(*old(next_pluck_in) as nat).0,
{
    if *next_pluck_in == 0 {
        true
    } else {
        *next_pluck_in = *next_pluck_in - 1;
        false
    }
}

proof fn lemma_countdown_prefix(n: nat, k: nat)
    requires
        k <= n,
    ensures
        countdown_after(n, k) == n - k,
    decreases k,
{
    if k > 0 {
        lemma_countdown_prefix(n, (k - 1) as nat);
    }
}

/// Pluck spacing: a wait of `n` samples makes the next pluck fire on the
/// `n + 1`-th sample and on none before it; with the waits that
/// `plan_excitation` draws, consecutive plucks are therefore between
/// `min_interval + 1` and `max_interval` samples apart.
pub proof fn lemma_pluck_fires_after_wait(n: nat)
    ensures
        forall|k: nat| k < n ==> !#[trigger] fires_at(n, k),
        fires_at(n, n),
{
    assert forall|k: nat| k < n implies !#[trigger] fires_at(n, k) by {
        lemma_countdown_prefix(n, k);
    }
    lemma_countdown_prefix(n, n);
}

} // verus!
