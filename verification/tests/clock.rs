use smart_leds_fx::utils::{hash32, pattern_position, phase, travel};

#[test]
fn phase_advances_with_rate() {
    assert_eq!(phase(1024, 0), 1);
    assert_eq!(phase(1024, 1), 2);
    assert_eq!(phase(2048, 128), 258);
    // Wraps with the clock rather than overflowing.
    assert_eq!(phase(u32::MAX, 255), u32::MAX.wrapping_mul(256) >> 10);
}

#[test]
fn travel_counts_pixels() {
    assert_eq!(travel(16384, 0), 1);
    assert_eq!(travel(1000, 127), 7);
    assert_eq!(travel(u32::MAX, 255), (u32::MAX as u64) * 256 / 16384);
}

#[test]
fn travel_never_goes_back() {
    let mut last = 0;
    for now in (0..100_000u32).step_by(997) {
        let t = travel(now, 200);
        assert!(t >= last);
        last = t;
    }
}

#[test]
fn pattern_positions() {
    assert_eq!(pattern_position(3, 5, 4), 2);
    assert_eq!(pattern_position(0, 0, 4), 0);
    assert_eq!(pattern_position(7, 0, 0), 0);
    assert_eq!(pattern_position(9, 13, 5), 1);
}

#[test]
fn hash_is_stable_and_mixes() {
    assert_eq!(hash32(42), hash32(42));
    assert_ne!(hash32(1), hash32(2));
    assert_ne!(hash32(0), 0);
    assert_eq!(hash32(0), 1_684_164_658);
    assert_eq!(hash32(42), 551_831_576);
}

#[test]
fn hash32_gives_distinct_hashes() {
    let mut seen: Vec<u32> = (0u32..4096).map(hash32).collect();
    seen.sort();
    seen.dedup();
    assert_eq!(seen.len(), 4096);
}
