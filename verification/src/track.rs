use vstd::prelude::*;

verus! {

/// Unified fade/playback state used by all tracks.
#[derive(Debug, Clone, Copy, PartialEq, Eq, Structural)]
pub enum State {
    FadingIn,
    Playing,
    FadingOut,
    Done,
}

/// The playback state as the kick experiment names it.
pub type FadeState = State;

/// Master gain requested for one sample.
///
/// `Ramp(n)` stands for the gain `(n / samples)^2`, where `samples` is the
/// length of the fade; `Silent` means that the track is finished and nothing
/// is to be rendered for this sample.
#[derive(Debug, Clone, Copy, PartialEq, Eq, Structural)]
pub enum FadeGain {
    Silent,
    Ramp(u32),
    Full,
}

/// Mathematical model of a fade: position, length and state.
pub struct FadeModel {
    pub pos: nat,
    pub samples: nat,
    pub state: State,
}

/// The transition made for each rendered sample: the next model and the gain.
pub open spec fn fade_step(f: FadeModel) -> (FadeModel, FadeGain) {
    match f.state {
        State::FadingIn => {
            let p = f.pos + 1;
            (
                FadeModel {
                    pos: p,
                    samples: f.samples,
                    state: if p >= f.samples { State::Playing } else { State::FadingIn },
                },
                FadeGain::Ramp(p as u32),
            )
        },
        State::Playing => (f, FadeGain::Full),
        State::FadingOut => {
            if f.pos == 0 {
                (FadeModel { pos: 0, samples: f.samples, state: State::Done }, FadeGain::Silent)
            } else {
                let p = (f.pos - 1) as nat;
                (FadeModel { pos: p, samples: f.samples, state: State::FadingOut }, FadeGain::Ramp(p as u32))
            }
        },
        State::Done => (f, FadeGain::Silent),
    }
}

/// The model after a request to fade out: only a fade-in or steady playback
/// turns into a fade-out; a fade already under way, or a finished one, stays.
pub open spec fn fade_out_requested(f: FadeModel) -> FadeModel {
    match f.state {
        State::FadingIn | State::Playing => FadeModel { pos: f.pos, samples: f.samples, state: State::FadingOut },
        _ => f,
    }
}

/// The model after `k` rendered samples.
pub open spec fn fade_steps(f: FadeModel, k: nat) -> FadeModel
    decreases k,
{
    if k == 0 {
        f
    } else {
        fade_step(fade_steps(f, (k - 1) as nat)).0
    }
}

/// The gain of the sample rendered after `k` earlier ones.
pub open spec fn fade_gain_at(f: FadeModel, k: nat) -> FadeGain {
    fade_step(fade_steps(f, k)).1
}

/// Well-formedness: both counters fit in `u32`, the position never passes
/// the length (a zero-length fade reaches position one), and a fade-in has
/// not yet reached its length (a zero-length fade-in is at position zero).
pub open spec fn fade_wf(f: FadeModel) -> bool {
    &&& f.pos <= u32::MAX
    &&& f.samples <= u32::MAX
    &&& (f.pos <= f.samples || (f.samples == 0 && f.pos <= 1))
    &&& (f.state == State::FadingIn ==> (f.pos < f.samples || f.pos == 0))
}

/// Number of samples a fade-in still needs before steady playback.
pub open spec fn fade_in_remaining(f: FadeModel) -> nat {
    if f.pos < f.samples {
        (f.samples - f.pos) as nat
    } else {
        1
    }
}

/// Each transition keeps the model well formed.
pub proof fn lemma_step_preserves_wf(f: FadeModel)
    requires
        fade_wf(f),
    ensures
        fade_wf(fade_step(f).0),
        fade_wf(fade_out_requested(f)),
        fade_step(f).0.samples == f.samples,
{
}

proof fn lemma_fade_in_prefix(f: FadeModel, k: nat)
    requires
        fade_wf(f),
        f.state == State::FadingIn,
        k < fade_in_remaining(f),
    ensures
        fade_steps(f, k) == (FadeModel { pos: f.pos + k, samples: f.samples, state: State::FadingIn }),
    decreases k,
{
    if k > 0 {
        lemma_fade_in_prefix(f, (k - 1) as nat);
    }
}

/// A fade-in raises the gain one step per sample, `Ramp(pos + 1)`, `Ramp(pos + 2)`, ...,
/// and reaches steady playback exactly when its position reaches its length.
pub proof fn lemma_fade_in_completes(f: FadeModel)
    requires
        fade_wf(f),
        f.state == State::FadingIn,
    ensures
        forall|k: nat| k < fade_in_remaining(f) ==> (#[trigger] fade_steps(f, k)).state == State::FadingIn,
        forall|k: nat| k < fade_in_remaining(f) ==> #[trigger] fade_gain_at(f, k) == FadeGain::Ramp((f.pos + k + 1) as u32),
        fade_steps(f, fade_in_remaining(f)).state == State::Playing,
        fade_steps(f, fade_in_remaining(f)).pos == f.pos + fade_in_remaining(f),
{
    assert forall|k: nat| k < fade_in_remaining(f) implies (#[trigger] fade_steps(f, k)).state == State::FadingIn by {
        lemma_fade_in_prefix(f, k);
    }
    assert forall|k: nat| k < fade_in_remaining(f) implies #[trigger] fade_gain_at(f, k) == FadeGain::Ramp((f.pos + k + 1) as u32) by {
        lemma_fade_in_prefix(f, k);
    }
    let n = fade_in_remaining(f);
    lemma_fade_in_prefix(f, (n - 1) as nat);
    assert(fade_steps(f, n) == fade_step(fade_steps(f, (n - 1) as nat)).0);
}

/// Steady playback stays steady at full gain until a fade-out is requested.
pub proof fn lemma_playing_is_steady(f: FadeModel, k: nat)
    requires
        f.state == State::Playing,
    ensures
        fade_steps(f, k) == f,
        fade_gain_at(f, k) == FadeGain::Full,
    decreases k,
{
    if k > 0 {
        lemma_playing_is_steady(f, (k - 1) as nat);
    }
}

proof fn lemma_fade_out_prefix(f: FadeModel, k: nat)
    requires
        f.state == State::FadingOut,
        k <= f.pos,
    ensures
        fade_steps(f, k) == (FadeModel { pos: (f.pos - k) as nat, samples: f.samples, state: State::FadingOut }),
    decreases k,
{
    if k > 0 {
        lemma_fade_out_prefix(f, (k - 1) as nat);
    }
}

/// A fade-out from position `p` lowers the gain one step per sample down to
/// `Ramp(0)`, is silent on the sample after that, and is finished after
/// exactly `p + 1` samples.
pub proof fn lemma_fade_out_completes(f: FadeModel)
    requires
        fade_wf(f),
        f.state == State::FadingOut,
    ensures
        forall|k: nat| k <= f.pos ==> (#[trigger] fade_steps(f, k)).state == State::FadingOut,
        forall|k: nat| k < f.pos ==> #[trigger] fade_gain_at(f, k) == FadeGain::Ramp((f.pos - k - 1) as u32),
        fade_gain_at(f, f.pos) == FadeGain::Silent,
        fade_steps(f, f.pos + 1).state == State::Done,
{
    assert forall|k: nat| k <= f.pos implies (#[trigger] fade_steps(f, k)).state == State::FadingOut by {
        lemma_fade_out_prefix(f, k);
    }
    assert forall|k: nat| k < f.pos implies #[trigger] fade_gain_at(f, k) == FadeGain::Ramp((f.pos - k - 1) as u32) by {
        lemma_fade_out_prefix(f, k);
    }
    lemma_fade_out_prefix(f, f.pos);
    assert(fade_steps(f, f.pos + 1) == fade_step(fade_steps(f, f.pos)).0);
}

/// A finished track stays finished and silent, whatever is rendered or requested.
pub proof fn lemma_done_is_final(f: FadeModel, k: nat)
    requires
        f.state == State::Done,
    ensures
        fade_steps(f, k) == f,
        fade_gain_at(f, k) == FadeGain::Silent,
        fade_out_requested(f) == f,
    decreases k,
{
    if k > 0 {
        lemma_done_is_final(f, (k - 1) as nat);
    }
}

/// Rendering `a + b` samples is rendering `a` samples, then `b` more.
pub proof fn lemma_steps_add(f: FadeModel, a: nat, b: nat)
    ensures
        fade_steps(f, a + b) == fade_steps(fade_steps(f, a), b),
    decreases b,
{
    if b > 0 {
        lemma_steps_add(f, a, (b - 1) as nat);
        assert(fade_steps(f, a + b) == fade_step(fade_steps(f, (a + b - 1) as nat)).0);
    }
}

/// A fade-out requested at any moment silences the track within one fade
/// length: after `samples + 1` rendered samples (two for a zero-length fade)
/// the track is finished, and stays so.
pub proof fn lemma_fade_out_within_one_fade(f: FadeModel, k: nat)
    requires
        fade_wf(f),
        f.state == State::FadingOut,
        k >= (if f.samples == 0 { 2 } else { f.samples + 1 }),
    ensures
        fade_steps(f, k).state == State::Done,
        fade_gain_at(f, k) == FadeGain::Silent,
{
    lemma_fade_out_completes(f);
    let d = fade_steps(f, f.pos + 1);
    lemma_steps_add(f, f.pos + 1, (k - (f.pos + 1)) as nat);
    lemma_done_is_final(d, (k - (f.pos + 1)) as nat);
}

/// A fade-out request never changes the level: from a fade-in or steady
/// playback it keeps the position and the length and only switches to
/// fading out, so the very next sample's gain is one step below the level
/// reached (`Ramp(pos - 1)`), or silence from position zero; any other state
/// is left as it is.
pub proof fn lemma_fade_out_keeps_level(f: FadeModel)
    requires
        fade_wf(f),
    ensures
        fade_out_requested(f).pos == f.pos,
        fade_out_requested(f).samples == f.samples,
        (f.state == State::FadingIn || f.state == State::Playing) ==> fade_out_requested(f).state == State::FadingOut,
        (f.state == State::FadingOut || f.state == State::Done) ==> fade_out_requested(f) == f,
        (f.state == State::FadingIn || f.state == State::Playing) && f.pos > 0 ==>
            fade_step(fade_out_requested(f)).1 == FadeGain::Ramp((f.pos - 1) as u32)
            && fade_step(fade_out_requested(f)).0.pos == f.pos - 1,
        (f.state == State::FadingIn || f.state == State::Playing) && f.pos == 0 ==>
            fade_step(fade_out_requested(f)).1 == FadeGain::Silent,
{
}

/// A fade-out requested after `k` samples of a fade-in of length `n`
/// (`0 < k < n`) starts from level `k`: the next gain is `Ramp(k - 1)`.
pub proof fn lemma_fade_out_during_fade_in(n: nat, k: nat)
    requires
        0 < k < n,
        n <= u32::MAX,
    ensures
        ({
            let f0 = FadeModel { pos: 0, samples: n, state: State::FadingIn };
            let g = fade_out_requested(fade_steps(f0, k));
            &&& g.pos == k
            &&& g.state == State::FadingOut
            &&& fade_step(g).1 == FadeGain::Ramp((k - 1) as u32)
        }),
{
    let f0 = FadeModel { pos: 0, samples: n, state: State::FadingIn };
    lemma_fade_in_completes(f0);
    assert(fade_steps(f0, k).state == State::FadingIn);
    lemma_fade_in_prefix(f0, k);
}

/// Requesting a fade-out twice is the same as requesting it once.
pub proof fn lemma_fade_out_request_idempotent(f: FadeModel)
    ensures
        fade_out_requested(fade_out_requested(f)) == fade_out_requested(f),
{
}

/// Rendering never goes back: a fade-out never turns into playback again.
pub proof fn lemma_fade_out_never_resumes(f: FadeModel, k: nat)
    requires
        f.state == State::FadingOut || f.state == State::Done,
    ensures
        fade_steps(f, k).state == State::FadingOut || fade_steps(f, k).state == State::Done,
    decreases k,
{
    if k > 0 {
        lemma_fade_out_never_resumes(f, (k - 1) as nat);
    }
}

/// Fade-in / steady / fade-out envelope of a track.
pub struct Fade {
    pos: u32,
    samples: u32,
    state: State,
}

impl View for Fade {
    type V = FadeModel;

    closed spec fn view(&self) -> FadeModel {
        FadeModel { pos: self.pos as nat, samples: self.samples as nat, state: self.state }
    }
}

impl Fade {
    #[verifier::type_invariant]
    closed spec fn inv(self) -> bool {
        fade_wf(self@)
    }

    /// A fade-in of `samples` samples, starting silent.
    pub fn new(samples: u32) -> (r: Self)
        ensures
            r@ == (FadeModel { pos: 0, samples: samples as nat, state: State::FadingIn }),
            fade_wf(r@),
    {
        Fade { pos: 0, samples, state: State::FadingIn }
    }

    /// Length of the fade in samples.
    pub fn samples(&self) -> (r: u32)
        ensures
            r == self@.samples,
    {
        self.samples
    }

    pub fn state(&self) -> (r: State)
        ensures
            r == self@.state,
    {
        self.state
    }

    pub fn is_done(&self) -> (r: bool)
        ensures
            r == (self@.state == State::Done),
    {
        self.state == State::Done
    }

    /// Begins the fade-out from the current level.
    pub fn start_fade_out(&mut self)
        ensures
            final(self)@ == fade_out_requested(old(self)@),
            fade_wf(final(self)@),
            final(self)@.pos == old(self)@.pos,
            final(self)@.samples == old(self)@.samples,
            final(self)@.state == (if old(self)@.state == State::FadingIn || old(self)@.state == State::Playing {
                State::FadingOut
            } else {
                old(self)@.state
            }),
    {
        proof {
            use_type_invariant(&*self);
        }
        if self.state == State::FadingIn || self.state == State::Playing {
            self.state = State::FadingOut;
        }
    }

    /// Advances the envelope by one sample and returns that sample's gain.
    pub fn step(&mut self) -> (g: FadeGain)
        ensures
            final(self)@ == fade_step(old(self)@).0,
            g == fade_step(old(self)@).1,
            fade_wf(final(self)@),
    {
        proof {
            use_type_invariant(&*self);
        }
        match self.state {
            State::FadingIn => {
                let p = self.pos + 1;
                let next = if p >= self.samples { State::Playing } else { State::FadingIn };
                *self = Fade { pos: p, samples: self.samples, state: next };
                FadeGain::Ramp(p)
            },
            State::Playing => FadeGain::Full,
            State::FadingOut => {
                if self.pos == 0 {
                    *self = Fade { pos: 0, samples: self.samples, state: State::Done };
                    FadeGain::Silent
                } else {
                    let p = self.pos - 1;
                    *self = Fade { pos: p, samples: self.samples, state: State::FadingOut };
                    FadeGain::Ramp(p)
                }
            },
            State::Done => FadeGain::Silent,
        }
    }
}

} // verus!
