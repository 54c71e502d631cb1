use simplemad::timing::{
    advance, millis_to_ticks, ticks_to_millis, timer_to_ticks, TICKS_PER_MILLISECOND,
    TICKS_PER_SECOND,
};
use simplemad::MadTimer;

#[test]
fn a_second_has_352_800_000_ticks() {
    assert_eq!(TICKS_PER_SECOND, 352_800_000);
    assert_eq!(TICKS_PER_MILLISECOND * 1000, TICKS_PER_SECOND);
    assert_eq!(timer_to_ticks(&MadTimer { seconds: 1, fraction: 0 }), 352_800_000);
}

#[test]
fn timer_to_ticks_adds_seconds_and_fraction() {
    assert_eq!(timer_to_ticks(&MadTimer { seconds: 0, fraction: 0 }), 0);
    // 1152 samples at 44100 Hz.
    assert_eq!(timer_to_ticks(&MadTimer { seconds: 0, fraction: 9_216_000 }), 9_216_000);
    assert_eq!(
        timer_to_ticks(&MadTimer { seconds: 3, fraction: 176_400_000 }),
        3 * 352_800_000 + 176_400_000
    );
}

#[test]
fn timer_to_ticks_stays_within_64_bits() {
    assert_eq!(timer_to_ticks(&MadTimer { seconds: -1, fraction: 0 }), 0);
    assert_eq!(timer_to_ticks(&MadTimer { seconds: -1, fraction: 352_800_001 }), 1);
    assert_eq!(timer_to_ticks(&MadTimer { seconds: i64::MIN, fraction: u64::MAX }), 0);
    assert_eq!(timer_to_ticks(&MadTimer { seconds: i64::MAX, fraction: 0 }), u64::MAX);
    assert_eq!(timer_to_ticks(&MadTimer { seconds: 1, fraction: u64::MAX }), u64::MAX);
    assert_eq!(timer_to_ticks(&MadTimer { seconds: 0, fraction: u64::MAX }), u64::MAX);
}

#[test]
fn advance_adds_and_stops_at_the_top() {
    assert_eq!(advance(0, 0), 0);
    assert_eq!(advance(100, 23), 123);
    assert_eq!(advance(u64::MAX - 1, 1), u64::MAX);
    assert_eq!(advance(u64::MAX - 1, 2), u64::MAX);
    assert_eq!(advance(u64::MAX, u64::MAX), u64::MAX);
}

#[test]
fn millis_to_ticks_multiplies_and_stops_at_the_top() {
    assert_eq!(millis_to_ticks(0), 0);
    assert_eq!(millis_to_ticks(1), 352_800);
    assert_eq!(millis_to_ticks(3000), 1_058_400_000);
    assert_eq!(millis_to_ticks(52_286_689_551_330), 18_446_744_073_709_224_000);
    assert_eq!(millis_to_ticks(52_286_689_551_331), u64::MAX);
    assert_eq!(millis_to_ticks(u64::MAX), u64::MAX);
    for ms in [0, 1, 26, 5041, 60_000] {
        assert_eq!(ticks_to_millis(millis_to_ticks(ms)), ms);
    }
}

#[test]
fn ticks_to_millis_rounds_down() {
    assert_eq!(ticks_to_millis(0), 0);
    assert_eq!(ticks_to_millis(352_799), 0);
    assert_eq!(ticks_to_millis(352_800), 1);
    assert_eq!(ticks_to_millis(9_216_000), 26);
    assert_eq!(ticks_to_millis(193 * 9_216_000), 5041);
}
