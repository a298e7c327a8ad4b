use vstd::prelude::*;

verus! {

/// Mathematical model of a delay line: its samples and the slot written next.
pub struct DelayModel<T> {
    pub buf: Seq<T>,
    pub pos: nat,
}

/// The cursor is inside the buffer (an empty line has its cursor at zero).
pub open spec fn delay_wf<T>(d: DelayModel<T>) -> bool {
    d.pos < d.buf.len() || (d.buf.len() == 0 && d.pos == 0)
}

/// The slot holding the sample written `delay` writes ago (a delay of zero,
/// or of the full length, names the slot written next, which holds the
/// oldest sample).
pub open spec fn tap_index(len: nat, pos: nat, delay: nat) -> int {
    (pos + len - delay) % (len as int)
}

/// The sample read `delay` writes back.
pub open spec fn tap<T>(d: DelayModel<T>, delay: nat) -> T {
    d.buf[tap_index(d.buf.len(), d.pos, delay)]
}

/// The line after `x` is written at the cursor and the cursor moves on.
pub open spec fn after_write<T>(d: DelayModel<T>, x: T) -> DelayModel<T> {
    DelayModel { buf: d.buf.update(d.pos as int, x), pos: ((d.pos + 1) % d.buf.len()) as nat }
}

/// The line after `x` overwrites the sample `delay` writes back.
pub open spec fn after_write_at<T>(d: DelayModel<T>, delay: nat, x: T) -> DelayModel<T> {
    DelayModel { buf: d.buf.update(tap_index(d.buf.len(), d.pos, delay), x), pos: d.pos }
}

proof fn lemma_mod_below_twice(x: int, m: int)
    requires
        0 < m,
        0 <= x < 2 * m,
    ensures
        x % m == (if x < m { x } else { x - m }),
{
    if x < m {
        vstd::arithmetic::div_mod::lemma_small_mod(x as nat, m as nat);
    } else {
        vstd::arithmetic::div_mod::lemma_small_mod((x - m) as nat, m as nat);
        vstd::arithmetic::div_mod::lemma_mod_sub_multiples_vanish(x, m);
    }
}

/// The newest sample is read back one write later: a delay line delays.
pub proof fn lemma_read_back_last_write<T>(d: DelayModel<T>, x: T)
    requires
        delay_wf(d),
        d.buf.len() > 0,
    ensures
        tap(after_write(d, x), 1) == x,
        delay_wf(after_write(d, x)),
{
    let len = d.buf.len() as int;
    lemma_mod_below_twice(d.pos + 1 as int, len);
    let p2 = (d.pos + 1) as int % len;
    lemma_mod_below_twice(p2 + len - 1, len);
}

/// A write shifts the whole history back by one: what was read at `k - 1`
/// is read at `k`, for every `k` from 2 up to the length of the line.
pub proof fn lemma_write_shifts_history<T>(d: DelayModel<T>, x: T, k: nat)
    requires
        delay_wf(d),
        2 <= k <= d.buf.len(),
    ensures
        tap(after_write(d, x), k) == tap(d, (k - 1) as nat),
{
    let len = d.buf.len() as int;
    lemma_mod_below_twice(d.pos + 1 as int, len);
    let p2 = (d.pos + 1) as int % len;
    lemma_mod_below_twice(p2 + len - k, len);
    lemma_mod_below_twice(d.pos + len - (k - 1), len);
}

/// A sample overwritten at a given delay is read back at that delay.
pub proof fn lemma_write_at_read_back<T>(d: DelayModel<T>, delay: nat, x: T)
    requires
        delay_wf(d),
        d.buf.len() > 0,
        delay <= d.pos + d.buf.len(),
    ensures
        tap(after_write_at(d, delay, x), delay) == x,
{
    let len = d.buf.len() as int;
    vstd::arithmetic::div_mod::lemma_mod_bound(d.pos + len - delay, len);
}

/// Overwriting one tap touches nothing else: every other slot, the length
/// and the cursor are as before, so every delay that names another slot
/// reads what it read before.
pub proof fn lemma_write_at_frame<T>(d: DelayModel<T>, delay: nat, x: T, k: nat)
    requires
        delay_wf(d),
        d.buf.len() > 0,
        delay <= d.pos + d.buf.len(),
        k <= d.pos + d.buf.len(),
        tap_index(d.buf.len(), d.pos, k) != tap_index(d.buf.len(), d.pos, delay),
    ensures
        tap(after_write_at(d, delay, x), k) == tap(d, k),
        after_write_at(d, delay, x).buf.len() == d.buf.len(),
        after_write_at(d, delay, x).pos == d.pos,
        forall|j: int|
            0 <= j < d.buf.len() && j != tap_index(d.buf.len(), d.pos, delay) ==> #[trigger] after_write_at(d, delay, x).buf[j]
                == d.buf[j],
{
    let len = d.buf.len() as int;
    vstd::arithmetic::div_mod::lemma_mod_bound(d.pos + len - delay, len);
    vstd::arithmetic::div_mod::lemma_mod_bound(d.pos + len - k, len);
}

/// Delays from 1 to the length name distinct slots, so overwriting the
/// sample `delay` writes back leaves the sample at every other such delay.
pub proof fn lemma_write_at_keeps_other_delays<T>(d: DelayModel<T>, delay: nat, x: T, k: nat)
    requires
        delay_wf(d),
        1 <= delay <= d.buf.len(),
        1 <= k <= d.buf.len(),
        k != delay,
    ensures
        tap(after_write_at(d, delay, x), k) == tap(d, k),
{
    let len = d.buf.len() as int;
    lemma_mod_below_twice(d.pos + len - delay, len);
    lemma_mod_below_twice(d.pos + len - k, len);
    lemma_write_at_frame(d, delay, x, k);
}

/// A fixed-length circular delay line, the building block of reverbs,
/// echoes and plucked strings.
pub struct DelayLine<T> {
    buffer: Vec<T>,
    write_pos: usize,
}

impl<T> View for DelayLine<T> {
    type V = DelayModel<T>;

    closed spec fn view(&self) -> DelayModel<T> {
        DelayModel { buf: self.buffer@, pos: self.write_pos as nat }
    }
}

impl<T: Copy> DelayLine<T> {
    /// A line of `length` samples, all `silence`, with the cursor at the start.
    pub fn new(length: usize, silence: T) -> (r: Self)
        ensures
            r@.buf == Seq::new(length as nat, |_i: int| silence),
            r@.pos == 0,
            delay_wf(r@),
    {
        let mut buffer: Vec<T> = Vec::new();
        let mut i: usize = 0;
        while i < length
            invariant
                i <= length,
                buffer@ == Seq::new(i as nat, |_i: int| silence),
            decreases length - i,
        {
            buffer.push(silence);
            i = i + 1;
        }
        DelayLine { buffer, write_pos: 0 }
    }

    pub fn len(&self) -> (r: usize)
        ensures
            r == self@.buf.len(),
    {
        self.buffer.len()
    }

    /// The slot the next write goes to.
    pub fn write_pos(&self) -> (r: usize)
        ensures
            r == self@.pos,
    {
        self.write_pos
    }

    fn index_for(&self, delay: usize) -> (r: usize)
        requires
            delay_wf(self@),
            self@.buf.len() > 0,
            delay <= self@.pos + self@.buf.len(),
        ensures
            r == tap_index(self@.buf.len(), self@.pos, delay as nat),
            r < self@.buf.len(),
    {
        proof {
            lemma_mod_below_twice(self@.pos + self@.buf.len() - delay, self@.buf.len() as int);
        }
        let len = self.buffer.len();
        if delay <= self.write_pos {
            self.write_pos - delay
        } else {
            len - (delay - self.write_pos)
        }
    }

    /// Writes `sample` at the cursor and moves the cursor on, wrapping at the end.
    pub fn write_and_advance(&mut self, sample: T)
        requires
            delay_wf(old(self)@),
            old(self)@.buf.len() > 0,
        ensures
            final(self)@ == after_write(old(self)@, sample),
            delay_wf(final(self)@),
    {
        proof {
            lemma_mod_below_twice(self@.pos + 1 as int, self@.buf.len() as int);
        }
        let pos = self.write_pos;
        let len = self.buffer.len();
        self.buffer.set(pos, sample);
        let next = if pos + 1 == len { 0 } else { pos + 1 };
        self.write_pos = next;
    }

    /// The sample written `delay` writes ago.
    pub fn read_at(&self, delay: usize) -> (r: T)
        requires
            delay_wf(self@),
            self@.buf.len() > 0,
            delay <= self@.pos + self@.buf.len(),
        ensures
            r == tap(self@, delay as nat),
    {
        let i = self.index_for(delay);
        self.buffer[i]
    }

    /// Overwrites the sample written `delay` writes ago.
    pub fn write_at(&mut self, delay: usize, sample: T)
        requires
            delay_wf(old(self)@),
            old(self)@.buf.len() > 0,
            delay <= old(self)@.pos + old(self)@.buf.len(),
        ensures
            final(self)@ == after_write_at(old(self)@, delay as nat, sample),
            final(self)@.buf == old(self)@.buf.update(
                ((old(self)@.pos + old(self)@.buf.len() - delay) % (old(self)@.buf.len() as int)),
                sample,
            ),
            final(self)@.pos == old(self)@.pos,
            delay_wf(final(self)@),
    {
        let i = self.index_for(delay);
        self.buffer.set(i, sample);
    }

    /// Clears the line to `silence`, loads `burst` at its start and puts the
    /// cursor just after it, so that the burst is the most recent history.
    pub fn restart_with(&mut self, burst: &[T], silence: T)
        requires
            delay_wf(old(self)@),
            burst@.len() < old(self)@.buf.len(),
        ensures
            final(self)@.buf == burst@ + Seq::new((old(self)@.buf.len() - burst@.len()) as nat, |_i: int| silence),
            final(self)@.pos == burst@.len(),
            delay_wf(final(self)@),
    {
        let len = self.buffer.len();
        let n = burst.len();
        let ghost target = burst@ + Seq::new((len - n) as nat, |_i: int| silence);
        let mut i: usize = 0;
        while i < len
            invariant
                len == self@.buf.len(),
                n == burst@.len(),
                n < len,
                i <= len,
                target.len() == len,
                target == burst@ + Seq::new((len - n) as nat, |_i: int| silence),
                forall|j: int| 0 <= j < i ==> #[trigger] self@.buf[j] == target[j],
            decreases len - i,
        {
            let v = if i < n { burst[i] } else { silence };
            self.buffer.set(i, v);
            i = i + 1;
        }
        self.write_pos = n;
        assert(self@.buf =~= target);
    }
}

} // verus!
