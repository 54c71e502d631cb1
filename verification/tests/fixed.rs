use simplemad::MadFixed32;

#[test]
fn new_and_to_raw_keep_the_value() {
    for v in [0, 1, -1, 0x1000_0000, -0x1000_0000, i32::MAX, i32::MIN] {
        assert_eq!(MadFixed32::new(v).to_raw(), v);
    }
}

#[test]
fn default_is_silence() {
    assert_eq!(MadFixed32::default().to_raw(), 0);
    assert_eq!(MadFixed32::default().to_i16(), 0);
    assert_eq!(MadFixed32::default().to_i32(), 0);
}

#[test]
fn to_i16_clips_at_the_extremes() {
    assert_eq!(MadFixed32::new(i32::MAX).to_i16(), i16::MAX);
    assert_eq!(MadFixed32::new(i32::MIN).to_i16(), i16::MIN);
    assert_eq!(MadFixed32::new(0x1000_0000).to_i16(), i16::MAX);
    assert_eq!(MadFixed32::new(-0x1000_0000).to_i16(), i16::MIN);
    assert_eq!(MadFixed32::new(0x0fff_ffff).to_i16(), i16::MAX);
    assert_eq!(MadFixed32::new(i32::MAX - 4095).to_i16(), i16::MAX);
    assert_eq!(MadFixed32::new(i32::MAX - 4096).to_i16(), i16::MAX);
}

#[test]
fn to_i16_rounds_to_the_nearest_step() {
    // One 16-bit step is 0x2000 raw units; half a step rounds up.
    assert_eq!(MadFixed32::new(0).to_i16(), 0);
    assert_eq!(MadFixed32::new(0x0fff).to_i16(), 0);
    assert_eq!(MadFixed32::new(0x1000).to_i16(), 1);
    assert_eq!(MadFixed32::new(0x2000).to_i16(), 1);
    assert_eq!(MadFixed32::new(0x2fff).to_i16(), 1);
    assert_eq!(MadFixed32::new(0x3000).to_i16(), 2);
    assert_eq!(MadFixed32::new(-1).to_i16(), 0);
    assert_eq!(MadFixed32::new(-0x1000).to_i16(), 0);
    assert_eq!(MadFixed32::new(-0x1001).to_i16(), -1);
    assert_eq!(MadFixed32::new(-0x2000).to_i16(), -1);
    assert_eq!(MadFixed32::new(-0x3000).to_i16(), -1);
    assert_eq!(MadFixed32::new(-0x3001).to_i16(), -2);
    // Half of full scale.
    assert_eq!(MadFixed32::new(0x0800_0000).to_i16(), 16384);
    assert_eq!(MadFixed32::new(-0x0800_0000).to_i16(), -16384);
}

#[test]
fn to_i16_round_trips_every_16_bit_value() {
    for k in i16::MIN..=i16::MAX {
        let raw = (k as i32) * 0x2000;
        assert_eq!(MadFixed32::new(raw).to_i16(), k);
    }
}

#[test]
fn to_i16_keeps_the_order() {
    let samples = [
        i32::MIN,
        -0x1000_0001,
        -0x1000_0000,
        -0x0fff_ffff,
        -0x2000,
        -1,
        0,
        1,
        0x1000,
        0x0fff_efff,
        0x0fff_f000,
        0x1000_0000,
        i32::MAX,
    ];
    for pair in samples.windows(2) {
        assert!(MadFixed32::new(pair[0]).to_i16() <= MadFixed32::new(pair[1]).to_i16());
    }
}

#[test]
fn to_i32_scales_by_eight() {
    assert_eq!(MadFixed32::new(0).to_i32(), 0);
    assert_eq!(MadFixed32::new(1).to_i32(), 8);
    assert_eq!(MadFixed32::new(-1).to_i32(), -8);
    assert_eq!(MadFixed32::new(0x0800_0000).to_i32(), 0x4000_0000);
    assert_eq!(MadFixed32::new(0x0fff_ffff).to_i32(), 0x7fff_fff8);
    assert_eq!(MadFixed32::new(-0x1000_0000).to_i32(), i32::MIN);
}

#[test]
fn to_i32_saturates() {
    assert_eq!(MadFixed32::new(0x1000_0000).to_i32(), i32::MAX);
    assert_eq!(MadFixed32::new(i32::MAX).to_i32(), i32::MAX);
    assert_eq!(MadFixed32::new(-0x1000_0001).to_i32(), i32::MIN);
    assert_eq!(MadFixed32::new(i32::MIN).to_i32(), i32::MIN);
}

#[test]
fn from_i32_divides_by_eight_towards_zero() {
    assert_eq!(MadFixed32::from(0).to_raw(), 0);
    assert_eq!(MadFixed32::from(8).to_raw(), 1);
    assert_eq!(MadFixed32::from(15).to_raw(), 1);
    assert_eq!(MadFixed32::from(-8).to_raw(), -1);
    assert_eq!(MadFixed32::from(-15).to_raw(), -1);
    assert_eq!(MadFixed32::from(-7).to_raw(), 0);
    assert_eq!(MadFixed32::from(i32::MAX).to_raw(), 0x0fff_ffff);
    assert_eq!(MadFixed32::from(i32::MIN).to_raw(), -0x1000_0000);
}

#[test]
fn i32_round_trips_within_the_unclipped_range() {
    for raw in [-0x1000_0000, -0x0fff_ffff, -12345, -1, 0, 1, 12345, 0x0fff_ffff] {
        assert_eq!(MadFixed32::from(MadFixed32::new(raw).to_i32()).to_raw(), raw);
    }
}

#[test]
fn samples_compare_by_value() {
    assert_eq!(MadFixed32::new(5), MadFixed32::new(5));
    assert_ne!(MadFixed32::new(5), MadFixed32::new(6));
}
