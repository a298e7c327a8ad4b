use musicbox::duration::{duration_terms, DurationUnit};
use musicbox::entropy::draw_pluck_state;
use musicbox::frames::interleave;
use rand::{Rng, SeedableRng};

#[test]
fn interleave_alternates_channels() {
    let l = [1.0f32, 2.0, 3.0];
    let r = [-1.0f32, -2.0, -3.0];
    assert_eq!(interleave(&l, &r, 2), vec![1.0, -1.0, 2.0, -2.0]);
    assert!(interleave(&l, &r, 0).is_empty());
}

fn units(s: &str) -> Option<Vec<(String, DurationUnit)>> {
    duration_terms(s).map(|ts| ts.into_iter().map(|t| (t.number.into_iter().collect(), t.unit)).collect())
}

#[test]
fn duration_terms_split_examples() {
    assert_eq!(units("10m"), Some(vec![("10".to_string(), DurationUnit::Minutes)]));
    assert_eq!(
        units("1h30m"),
        Some(vec![("1".to_string(), DurationUnit::Hours), ("30".to_string(), DurationUnit::Minutes)])
    );
    assert_eq!(units("90s"), Some(vec![("90".to_string(), DurationUnit::Seconds)]));
    assert_eq!(
        units("5m30s"),
        Some(vec![("5".to_string(), DurationUnit::Minutes), ("30".to_string(), DurationUnit::Seconds)])
    );
    assert_eq!(units(""), Some(vec![]));
}

#[test]
fn duration_terms_bare_and_invalid() {
    assert_eq!(
        units("2m1.5"),
        Some(vec![("2".to_string(), DurationUnit::Minutes), ("1.5".to_string(), DurationUnit::Bare)])
    );
    assert_eq!(units("h"), Some(vec![("".to_string(), DurationUnit::Hours)]));
    assert_eq!(units("10x"), None);
    assert_eq!(units("1 h"), None);
    assert_eq!(units("5é"), None);
}

#[test]
fn pluck_state_is_odd_draw_of_seeded_rng() {
    let mut a = rand::rngs::StdRng::seed_from_u64(42);
    let mut b = rand::rngs::StdRng::seed_from_u64(42);
    for _ in 0..20 {
        let s = draw_pluck_state(&mut a);
        let raw: u64 = b.gen::<u64>();
        assert_eq!(s, raw | 1);
        assert_eq!(s % 2, 1);
    }
}
