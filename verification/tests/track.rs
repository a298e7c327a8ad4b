use musicbox::track::{Fade, FadeGain, FadeState, State};

#[test]
fn fade_ramps_in_then_plays() {
    let mut f = Fade::new(3);
    assert_eq!(f.state(), State::FadingIn);
    assert_eq!(f.samples(), 3);
    assert_eq!(f.step(), FadeGain::Ramp(1));
    assert_eq!(f.step(), FadeGain::Ramp(2));
    assert_eq!(f.state(), State::FadingIn);
    assert_eq!(f.step(), FadeGain::Ramp(3));
    assert_eq!(f.state(), State::Playing);
    assert_eq!(f.step(), FadeGain::Full);
    assert_eq!(f.step(), FadeGain::Full);
}

#[test]
fn fade_out_ramps_down_then_done() {
    let mut f = Fade::new(3);
    for _ in 0..10 {
        f.step();
    }
    f.start_fade_out();
    assert_eq!(f.state(), State::FadingOut);
    assert_eq!(f.step(), FadeGain::Ramp(2));
    assert_eq!(f.step(), FadeGain::Ramp(1));
    assert_eq!(f.step(), FadeGain::Ramp(0));
    assert!(!f.is_done());
    assert_eq!(f.step(), FadeGain::Silent);
    assert!(f.is_done());
    assert_eq!(f.step(), FadeGain::Silent);
    f.start_fade_out();
    assert_eq!(f.state(), State::Done);
}

#[test]
fn fade_out_during_fade_in_starts_from_current_level() {
    let mut f = Fade::new(100);
    for _ in 0..10 {
        f.step();
    }
    f.start_fade_out();
    f.start_fade_out();
    assert_eq!(f.state(), State::FadingOut);
    assert_eq!(f.step(), FadeGain::Ramp(9));
    for _ in 0..9 {
        f.step();
    }
    assert_eq!(f.step(), FadeGain::Silent);
    assert!(f.is_done());
}

#[test]
fn zero_length_fade_in_plays_at_once() {
    let mut f = Fade::new(0);
    assert_eq!(f.step(), FadeGain::Ramp(1));
    assert_eq!(f.state(), State::Playing);
    f.start_fade_out();
    assert_eq!(f.step(), FadeGain::Ramp(0));
    assert_eq!(f.step(), FadeGain::Silent);
    assert!(f.is_done());
}

#[test]
fn three_second_fade_reaches_done() {
    // 3 s at 44.1 kHz, rendered in blocks of 4096 as the engine's own check does.
    let mut f = Fade::new(44100 * 3);
    for _ in 0..40 * 4096 {
        f.step();
    }
    assert_eq!(f.state(), State::Playing);
    f.start_fade_out();
    assert_eq!(f.state(), State::FadingOut);
    for _ in 0..40 * 4096 {
        f.step();
    }
    assert!(f.is_done());
}

#[test]
fn fade_state_is_the_track_state() {
    let s: FadeState = State::FadingIn;
    assert_eq!(s, State::FadingIn);
    assert_ne!(State::Playing, State::Done);
}
