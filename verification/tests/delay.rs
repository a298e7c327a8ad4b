use musicbox::delay::DelayLine;

#[test]
fn delay_line_reads_back_history() {
    let mut d = DelayLine::new(4, 0i32);
    assert_eq!(d.len(), 4);
    for x in 1..=6 {
        d.write_and_advance(x);
    }
    assert_eq!(d.read_at(1), 6);
    assert_eq!(d.read_at(2), 5);
    assert_eq!(d.read_at(3), 4);
    assert_eq!(d.read_at(4), 3);
    assert_eq!(d.read_at(0), 3);
}

#[test]
fn delay_line_starts_silent() {
    let d = DelayLine::new(3, 0.0f32);
    assert_eq!(d.read_at(1), 0.0);
    assert_eq!(d.read_at(3), 0.0);
    let empty: DelayLine<f32> = DelayLine::new(0, 0.0);
    assert_eq!(empty.len(), 0);
}

#[test]
fn delay_line_write_at_overwrites_tap() {
    let mut d = DelayLine::new(5, 0u8);
    for x in 1..=3 {
        d.write_and_advance(x);
    }
    d.write_at(2, 9);
    assert_eq!(d.read_at(2), 9);
    assert_eq!(d.read_at(1), 3);
    assert_eq!(d.read_at(3), 1);
}

#[test]
fn delay_line_write_shifts_history() {
    let mut d = DelayLine::new(3, 0u32);
    d.write_and_advance(7);
    d.write_and_advance(8);
    let before = d.read_at(1);
    d.write_and_advance(9);
    assert_eq!(d.read_at(2), before);
    assert_eq!(d.read_at(1), 9);
}

#[test]
fn delay_line_restart_with_burst() {
    let mut d = DelayLine::new(6, 0i32);
    for x in 1..=6 {
        d.write_and_advance(x);
    }
    d.restart_with(&[10, 20, 30], 0);
    assert_eq!(d.read_at(1), 30);
    assert_eq!(d.read_at(2), 20);
    assert_eq!(d.read_at(3), 10);
    assert_eq!(d.read_at(4), 0);
    assert_eq!(d.read_at(6), 0);
}
