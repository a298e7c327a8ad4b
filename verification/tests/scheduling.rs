use musicbox::granular::{first_inactive, plan_grain};
use musicbox::pluck::{pick_pluck_note, plan_excitation, pluck_due, voice_to_pluck};
use musicbox::prng::Xorshift64;
use musicbox::reverb::lfo_update_due;
use musicbox::swing::max_swing_samples;

#[test]
fn first_inactive_finds_lowest_free_slot() {
    assert_eq!(first_inactive(&[true, false, false]), Some(1));
    assert_eq!(first_inactive(&[false, true]), Some(0));
    assert_eq!(first_inactive(&[true, true]), None);
    assert_eq!(first_inactive(&[]), None);
}

#[test]
fn pluck_steals_voice_zero_when_all_busy() {
    assert_eq!(voice_to_pluck(&[true, true, true]), 0);
    assert_eq!(voice_to_pluck(&[true, true, false]), 2);
}

#[test]
fn grain_plan_from_known_seed() {
    // State 43: outputs 46537075435, 12685210767805585150, 1156789259011059539.
    let mut noise = Xorshift64::new(42);
    let plan = plan_grain(&mut noise, 6, 4);
    assert!(plan.high); // 46537075435 % 10 == 5
    assert_eq!(plan.freq_index, 4); // ... % 6
    assert_eq!(plan.extra_ms, 1139); // ... % 1300
    let mut again = Xorshift64::new(42);
    again.next();
    again.next();
    assert_eq!(again.next(), 1156789259011059539);
    assert_eq!(noise.next(), again.next());
}

#[test]
fn grain_plans_stay_in_range() {
    let mut noise = Xorshift64::new(7);
    let mut highs = 0;
    for _ in 0..1000 {
        let p = plan_grain(&mut noise, 6, 4);
        assert!(p.extra_ms < 1300);
        if p.high {
            highs += 1;
            assert!(p.freq_index < 6);
        } else {
            assert!(p.freq_index < 4);
        }
    }
    assert!(highs > 600 && highs < 800);
}

#[test]
fn pluck_note_pick_is_modulo_pool() {
    let mut state: u64 = 7;
    assert_eq!(pick_pluck_note(&mut state, 20), 7);
    assert_eq!(state, 7575888327);
}

#[test]
fn pluck_excitation_from_known_state() {
    let mut state: u64 = 7;
    let e = plan_excitation(&mut state, 5, 512, 44100, 176400);
    assert_eq!(e.period, 5);
    assert_eq!(
        e.noise,
        vec![
            7575888327,
            8070950887952051652,
            13931920357059763743,
            8698583309276795107,
            8474076621961470850
        ]
    );
    assert_eq!(state, 13132852266797165125);
    assert_eq!(e.next_pluck_in, 95209);
}

#[test]
fn pluck_period_is_clamped() {
    let mut state: u64 = 1;
    assert_eq!(plan_excitation(&mut state, 1000, 512, 1, 2).period, 511);
    assert_eq!(plan_excitation(&mut state, 0, 512, 1, 2).period, 2);
    assert_eq!(plan_excitation(&mut state, 1, 512, 1, 2).period, 2);
    let e = plan_excitation(&mut state, 133, 512, 10, 20);
    assert_eq!(e.period, 133);
    assert_eq!(e.noise.len(), 133);
    assert!(e.next_pluck_in >= 10 && e.next_pluck_in < 20);
}

#[test]
fn pluck_countdown_fires_after_wait() {
    let mut n: u32 = 3;
    assert!(!pluck_due(&mut n));
    assert!(!pluck_due(&mut n));
    assert!(!pluck_due(&mut n));
    assert_eq!(n, 0);
    assert!(pluck_due(&mut n));
    assert_eq!(n, 0);
}

#[test]
fn swing_ceiling_is_a_twelfth_of_the_beat() {
    assert_eq!(max_swing_samples(36750), 3062);
    assert_eq!(max_swing_samples(11), 0);
    assert_eq!(max_swing_samples(24), 2);
    assert_eq!(max_swing_samples(u32::MAX), u32::MAX / 12);
}

#[test]
fn reverb_lfo_updates_every_32_samples() {
    let mut c: u32 = 0;
    let mut updates = Vec::new();
    for i in 0..100 {
        if lfo_update_due(&mut c) {
            updates.push(i);
        }
    }
    assert_eq!(updates, vec![0, 32, 64, 96]);
    let mut wrap: u32 = u32::MAX;
    assert!(!lfo_update_due(&mut wrap));
    assert_eq!(wrap, 0);
    assert!(lfo_update_due(&mut wrap));
}
