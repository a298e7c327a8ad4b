use vstd::prelude::*;

verus! {

/// One step of Marsaglia's 64-bit xorshift with the (13, 7, 17) triple.
pub open spec fn xorshift_step(x: u64) -> u64 {
    let a = x ^ (x << 13u64);
    let b = a ^ (a >> 7u64);
    b ^ (b << 17u64)
}

/// The state reached from `x` after `n` steps.
pub open spec fn xorshift_iter(x: u64, n: nat) -> u64
    decreases n,
{
    if n == 0 {
        x
    } else {
        xorshift_step(xorshift_iter(x, (n - 1) as nat))
    }
}

/// The state a seed is turned into: the lowest bit is forced on, so the
/// state is never zero.
pub open spec fn seeded_state(seed: u64) -> u64 {
    seed | 1u64
}

/// A seeded state is odd, hence never the all-zero fixed point of xorshift.
pub proof fn lemma_seeded_state_nonzero(seed: u64)
    ensures
        seeded_state(seed) % 2 == 1,
        seeded_state(seed) != 0,
{
    assert((seed | 1u64) % 2 == 1) by (bit_vector);
}

/// Seeding keeps every bit of the seed but the lowest, which is set: the
/// state is `seed | 1`.
pub proof fn lemma_seeded_state_bits(seed: u64)
    ensures
        seeded_state(seed) == seed | 1u64,
        seeded_state(seed) & !1u64 == seed & !1u64,
        seeded_state(seed) & 1u64 == 1u64,
        seed % 2 == 1 ==> seeded_state(seed) == seed,
        seed % 2 == 0 ==> seeded_state(seed) == seed + 1,
{
    let r = seeded_state(seed);
    assert(r == seed | 1u64 ==> r & !1u64 == seed & !1u64 && r & 1u64 == 1u64) by (bit_vector);
    assert(r == seed | 1u64 && seed % 2 == 1 ==> r == seed) by (bit_vector);
    assert(r == seed | 1u64 && seed % 2 == 0 ==> r == seed + 1) by (bit_vector);
}

/// One step is the composition of the three xor-shifts, left by 13, right by
/// 7, left by 17, with no other case.
pub proof fn lemma_step_is_three_shifts(x: u64, a: u64, b: u64)
    requires
        a == x ^ (x << 13u64),
        b == a ^ (a >> 7u64),
    ensures
        xorshift_step(x) == b ^ (b << 17u64),
{
}

/// A step is linear over bit vectors: stepping the xor of two states is the
/// xor of their steps, and zero is fixed.
pub proof fn lemma_step_linear(x: u64, y: u64)
    ensures
        xorshift_step(x ^ y) == xorshift_step(x) ^ xorshift_step(y),
        xorshift_step(0) == 0,
{
    let z = x ^ y;
    let ax = x ^ (x << 13u64);
    let ay = y ^ (y << 13u64);
    let az = z ^ (z << 13u64);
    assert(z == x ^ y ==> z ^ (z << 13u64) == (x ^ (x << 13u64)) ^ (y ^ (y << 13u64))) by (bit_vector);
    let bx = ax ^ (ax >> 7u64);
    let by = ay ^ (ay >> 7u64);
    let bz = az ^ (az >> 7u64);
    assert(az == ax ^ ay ==> az ^ (az >> 7u64) == (ax ^ (ax >> 7u64)) ^ (ay ^ (ay >> 7u64))) by (bit_vector);
    assert(bz == bx ^ by ==> bz ^ (bz << 17u64) == (bx ^ (bx << 17u64)) ^ (by ^ (by << 17u64))) by (bit_vector);
    assert(xorshift_step(0u64) == 0u64) by (bit_vector);
}

/// A step never maps a nonzero state to zero: once seeded, the generator
/// cannot get stuck emitting zeros.
pub proof fn lemma_step_nonzero(x: u64)
    requires
        x != 0,
    ensures
        xorshift_step(x) != 0,
{
    let a = x ^ (x << 13u64);
    let b = a ^ (a >> 7u64);
    assert(x != 0 ==> x ^ (x << 13u64) != 0) by (bit_vector);
    assert(a != 0 ==> a ^ (a >> 7u64) != 0) by (bit_vector);
    assert(b != 0 ==> b ^ (b << 17u64) != 0) by (bit_vector);
}

/// Every iterate of a nonzero state is nonzero.
pub proof fn lemma_iter_nonzero(x: u64, n: nat)
    requires
        x != 0,
    ensures
        xorshift_iter(x, n) != 0,
    decreases n,
{
    if n > 0 {
        lemma_iter_nonzero(x, (n - 1) as nat);
        lemma_step_nonzero(xorshift_iter(x, (n - 1) as nat));
    }
}

/// A step is injective: distinct states never collapse into one, so the
/// generator is a permutation of its state space.
pub proof fn lemma_step_injective(x: u64, y: u64)
    requires
        xorshift_step(x) == xorshift_step(y),
    ensures
        x == y,
{
    let ax = x ^ (x << 13u64);
    let ay = y ^ (y << 13u64);
    let bx = ax ^ (ax >> 7u64);
    let by = ay ^ (ay >> 7u64);
    assert(bx ^ (bx << 17u64) == by ^ (by << 17u64) ==> bx == by) by (bit_vector);
    assert(ax ^ (ax >> 7u64) == ay ^ (ay >> 7u64) ==> ax == ay) by (bit_vector);
    assert(x ^ (x << 13u64) == y ^ (y << 13u64) ==> x == y) by (bit_vector);
}

/// Two streams that agree after `n` steps started from the same state:
/// generators seeded into different states never fall into step.
pub proof fn lemma_iter_injective(x: u64, y: u64, n: nat)
    requires
        xorshift_iter(x, n) == xorshift_iter(y, n),
    ensures
        x == y,
    decreases n,
{
    if n > 0 {
        lemma_step_injective(xorshift_iter(x, (n - 1) as nat), xorshift_iter(y, (n - 1) as nat));
        lemma_iter_injective(x, y, (n - 1) as nat);
    }
}

/// Seeds that differ only in their lowest bit give the same stream; any
/// other two seeds give streams that differ at every step.
pub proof fn lemma_seed_streams(a: u64, b: u64, n: nat)
    ensures
        (xorshift_iter(seeded_state(a), n) == xorshift_iter(seeded_state(b), n)) <==> (a | 1u64 == b | 1u64),
{
    if xorshift_iter(seeded_state(a), n) == xorshift_iter(seeded_state(b), n) {
        lemma_iter_injective(seeded_state(a), seeded_state(b), n);
    }
}

/// Turns a seed into a generator state by forcing the lowest bit on.
pub fn seed_state(seed: u64) -> (r: u64)
    ensures
        r == seeded_state(seed),
        r == seed | 1u64,
        r % 2 == 1,
{
    proof {
        lemma_seeded_state_nonzero(seed);
    }
    seed | 1u64
}

/// Advances `state` by one xorshift step and returns the new state.
pub fn xorshift(state: &mut u64) -> (r: u64)
    ensures
        r == xorshift_step(*old(state)),
        ({
            let x = *old(state);
            let a = x ^ (x << 13u64);
            let b = a ^ (a >> 7u64);
            r == b ^ (b << 17u64)
        }),
        *final(state) == r,
{
    let mut x = *state;
    x ^= x << 13u64;
    x ^= x >> 7u64;
    x ^= x << 17u64;
    *state = x;
    x
}

/// Xorshift64 noise source: cheap, allocation-free, deterministic given a seed.
pub struct Xorshift64 {
    state: u64,
}

impl View for Xorshift64 {
    type V = u64;

    closed spec fn view(&self) -> u64 {
        self.state
    }
}

impl Xorshift64 {
    pub fn new(seed: u64) -> (r: Self)
        ensures
            r@ == seeded_state(seed),
            r@ == seed | 1u64,
            r@ != 0,
    {
        proof {
            lemma_seeded_state_nonzero(seed);
        }
        Xorshift64 { state: seed_state(seed) }
    }

    /// Returns the next value; it is also the new state.
    pub fn next(&mut self) -> (r: u64)
        ensures
            r == xorshift_step(old(self)@),
            final(self)@ == r,
    {
        xorshift(&mut self.state)
    }
}

/// Draws `count` successive values from `state`: value `i` is the state after
/// `i + 1` steps, and `state` ends `count` steps further on.
pub fn xorshift_words(state: &mut u64, count: usize) -> (words: Vec<u64>)
    ensures
        words@.len() == count,
        forall|i: int| 0 <= i < count ==> #[trigger] words@[i] == xorshift_iter(*old(state), (i + 1) as nat),
        *final(state) == xorshift_iter(*old(state), count as nat),
{
    let ghost start = *state;
    let mut words: Vec<u64> = Vec::new();
    let mut i: usize = 0;
    while i < count
        invariant
            i <= count,
            words@.len() == i,
            *state == xorshift_iter(start, i as nat),
            forall|j: int| 0 <= j < i ==> #[trigger] words@[j] == xorshift_iter(start, (j + 1) as nat),
        decreases count - i,
    {
        let w = xorshift(state);
        words.push(w);
        i = i + 1;
    }
    words
}

} // verus!
