use knobz::{Address, Change, Channel, Range, Sampler};

#[test]
fn defaults_after_construction() {
    let s = Sampler::new(Address::X4B);
    for ch in [Channel::A0, Channel::A1, Channel::A2, Channel::A3] {
        assert_eq!(s.value(ch), 0);
        assert_eq!(s.range(ch), Range::Within1023);
        assert!(!s.is_inverted(ch));
    }
    assert_eq!(s.current_channel(), Channel::A0);
    assert_eq!(s.timer_us(), 750);
}

#[test]
fn quiet_while_total_below_interval() {
    let mut s = Sampler::new(Address::X48);
    for dt in [100u32, 200, 300, 399] {
        assert_eq!(s.tick(dt), None);
    }
    assert_eq!(s.timer_us(), 999);
    assert_eq!(s.current_channel(), Channel::A0);
    assert_eq!(s.tick(1), Some(Channel::A0));
    assert_eq!(s.timer_us(), 0);
}

#[test]
fn remainder_past_interval_is_dropped() {
    let mut s = Sampler::new(Address::X4A);
    assert_eq!(s.tick(900), Some(Channel::A0));
    assert_eq!(s.timer_us(), 0);
    assert_eq!(s.tick(999), None);
    assert_eq!(s.timer_us(), 999);
    assert_eq!(s.tick(u32::MAX), Some(Channel::A0));
    assert_eq!(s.timer_us(), 0);
}

#[test]
fn phase_offset_brings_first_sample_forward() {
    let mut s = Sampler::new(Address::X49);
    assert_eq!(s.tick(800), Some(Channel::A0));
    let mut t = Sampler::new(Address::X48);
    assert_eq!(t.tick(800), None);
}

#[test]
fn cursor_advances_whatever_the_outcome() {
    let mut s = Sampler::new(Address::X48);
    let order = [Channel::A0, Channel::A1, Channel::A2, Channel::A3, Channel::A0, Channel::A1];
    for (k, ch) in order.iter().enumerate() {
        assert_eq!(s.tick(1000), Some(*ch));
        let reading = if k % 2 == 0 { None } else { Some(1234) };
        s.record(reading);
    }
    assert_eq!(s.current_channel(), Channel::A2);
}

#[test]
fn failed_read_reports_nothing() {
    let mut s = Sampler::new(Address::X48);
    assert_eq!(s.record(None), None);
    assert_eq!(s.value(Channel::A0), 0);
    assert_eq!(s.current_channel(), Channel::A1);
}

#[test]
fn identical_readings_report_once() {
    let mut s = Sampler::new(Address::X48);
    assert_eq!(s.record(Some(5000)), Some(Change { channel: Channel::A0, value: 200 }));
    assert_eq!(s.value(Channel::A0), 200);
    for _ in 0..3 {
        s.record(None);
    }
    assert_eq!(s.record(Some(5000)), None);
    assert_eq!(s.value(Channel::A0), 200);
}

#[test]
fn reading_equal_to_default_reports_nothing() {
    let mut s = Sampler::new(Address::X48);
    assert_eq!(s.record(Some(10)), None);
    assert_eq!(s.record(Some(-7)), None);
}

#[test]
fn configuration_applies_to_next_sample() {
    let mut s = Sampler::new(Address::X48);
    s.set_channel_range(Channel::A1, Range::Within255);
    s.set_invert_channel(Channel::A1, true);
    assert_eq!(s.range(Channel::A1), Range::Within255);
    assert!(s.is_inverted(Channel::A1));
    assert_eq!(s.range(Channel::A0), Range::Within1023);
    s.record(None);
    assert_eq!(s.record(Some(0)), Some(Change { channel: Channel::A1, value: 255 }));
}

#[test]
fn observe_reports_only_differences() {
    let mut s = Sampler::new(Address::X48);
    assert_eq!(s.observe(Channel::A3, 0), None);
    assert_eq!(s.observe(Channel::A3, 17), Some(17));
    assert_eq!(s.observe(Channel::A3, 17), None);
    assert_eq!(s.value(Channel::A3), 17);
}
