//! Frequency translation: exact values, ranges, and the rounding policy.

use pwm_hal::identity::PwmError;
use pwm_hal::timing::derive_timing;

#[test]
fn slow_request_on_fast_clock_needs_prescaling() {
    // 8 MHz bus, 3 Hz requested, 16-bit counter: the exact ratio is
    // 2_666_666; the smallest divider that brings the reload under 2^16 is
    // 41, so the prescaler register holds 40 and the reload 65039.
    let cfg = derive_timing(8_000_000, 3, 16).unwrap();
    assert_eq!(cfg.prescaler, 40);
    assert_eq!(cfg.auto_reload, 65039);
    assert!(!cfg.needs_high_half_write);
    // The achieved frequency is at least the requested 3 Hz ...
    let divider = (cfg.prescaler as u64 + 1) * (cfg.auto_reload as u64 + 1);
    assert!(3 * divider <= 8_000_000);
    // ... and within one prescaled tick of the exact ratio.
    assert!(8_000_000 / 3 - divider < cfg.prescaler as u64 + 1);
}

#[test]
fn representative_range_respects_register_bounds() {
    let cases: Vec<(u32, u32)> = vec![
        (8_000_000, 3),
        (8_000_000, 50),
        (16_000_000, 1),
        (16_000_000, 1_000),
        (64_000_000, 20_000),
        (64_000_000, 64_000_000),
        (48_000_000, 7),
        (4_294_967_295, 1),
        (1_000, 1_000),
        (1_000, 999),
    ];
    for (bus, requested) in cases {
        // The prescaler policy is fixed by the 16-bit prescaler register,
        // so the same bounds hold on either counter width.
        let wide = derive_timing(bus, requested, 32).unwrap();
        let cfg = derive_timing(bus, requested, 16).unwrap();
        assert_eq!(cfg.prescaler, wide.prescaler);
        assert_eq!(cfg.auto_reload, wide.auto_reload);
        let p1 = cfg.prescaler as u64 + 1;
        let a1 = cfg.auto_reload as u64 + 1;
        assert!(cfg.auto_reload <= 0xFFFF);
        // Never faster than the bus allows, never slower than requested.
        assert!(requested as u64 * p1 * a1 <= bus as u64);
        // Within one prescaled tick of the exact ratio.
        let ratio = bus as u64 / requested as u64;
        assert!(ratio - p1 * a1 < p1);
    }
}

#[test]
fn zero_frequency_is_invalid() {
    assert_eq!(derive_timing(8_000_000, 0, 16).unwrap_err(), PwmError::InvalidFrequency);
    assert_eq!(derive_timing(0, 0, 32).unwrap_err(), PwmError::InvalidFrequency);
}

#[test]
fn request_above_bus_clock_degenerates_to_fastest_rate() {
    let cfg = derive_timing(1_000, 5_000, 16).unwrap();
    assert_eq!(cfg.prescaler, 0);
    assert_eq!(cfg.auto_reload, 0);
}

#[test]
fn request_equal_to_bus_clock_runs_every_tick() {
    let cfg = derive_timing(1_000, 1_000, 16).unwrap();
    assert_eq!(cfg.prescaler, 0);
    assert_eq!(cfg.auto_reload, 0);
}

#[test]
fn wide_counters_require_the_high_half_write() {
    let cfg = derive_timing(8_000_000, 100, 32).unwrap();
    assert!(cfg.needs_high_half_write);
    let cfg = derive_timing(8_000_000, 100, 16).unwrap();
    assert!(!cfg.needs_high_half_write);
}

#[test]
fn fast_request_divides_without_prescaler() {
    // 8 MHz bus, 1 kHz requested: ratio 8000 already fits 16 bits.
    let cfg = derive_timing(8_000_000, 1_000, 16).unwrap();
    assert_eq!(cfg.prescaler, 0);
    assert_eq!(cfg.auto_reload, 7999);
}
