//! Channel handles end to end: setup, duty round-trips, enable/disable.

use pwm_hal::bind::{bind, bind_pins, configure_pwm, PwmExt};
use pwm_hal::pins::Pins;
use pwm_hal::identity::{
    identity_of, ApbBus, ChannelIndex, CounterWidth, PinIdentity, Port, PwmError, TimerId,
};

#[test]
fn per_timer_constants_match_the_family() {
    let tim1 = identity_of(TimerId::Tim1);
    assert_eq!(tim1.channel_count, 4);
    assert_eq!(tim1.width, CounterWidth::Bits16);
    assert!(tim1.gated);
    assert_eq!(tim1.bus, ApbBus::Apb2);
    let tim2 = identity_of(TimerId::Tim2);
    assert_eq!(tim2.width, CounterWidth::Bits32);
    assert_eq!(tim2.bus, ApbBus::Apb1);
    assert!(!tim2.gated);
    assert_eq!(tim2.width.bits(), 32);
    let tim14 = identity_of(TimerId::Tim14);
    assert_eq!(tim14.channel_count, 1);
    assert!(!tim14.gated);
}

#[test]
fn configure_issues_one_handle_per_proof() {
    let timer = identity_of(TimerId::Tim1);
    let pins = vec![PinIdentity::new(Port::A, 8), PinIdentity::new(Port::A, 9)];
    let proofs = bind_pins(pins, TimerId::Tim1).unwrap();
    let handles = configure_pwm(timer, proofs, 1_000, 8_000_000).unwrap();
    assert_eq!(handles.len(), 2);
    assert_eq!(handles[0].channel(), ChannelIndex::C1);
    assert_eq!(handles[1].channel(), ChannelIndex::C2);
    for h in &handles {
        assert_eq!(h.timer(), TimerId::Tim1);
        assert!(!h.is_enabled());
        assert_eq!(h.get_duty(), 0);
        // The live auto-reload top value, as just programmed: 8 MHz at
        // 1 kHz is a ratio of 8000, reload 7999, no prescaling.
        assert_eq!(h.get_max_duty(), 7999);
    }
}

#[test]
fn configure_rejects_zero_frequency() {
    let timer = identity_of(TimerId::Tim1);
    let proofs = bind_pins(vec![PinIdentity::new(Port::A, 8)], TimerId::Tim1).unwrap();
    let e = configure_pwm(timer, proofs, 0, 8_000_000).unwrap_err();
    assert_eq!(e, PwmError::InvalidFrequency);
}

#[test]
fn duty_round_trips_within_the_register_width() {
    let timer = identity_of(TimerId::Tim1);
    let proofs = bind_pins(vec![PinIdentity::new(Port::A, 8)], TimerId::Tim1).unwrap();
    let mut handles = configure_pwm(timer, proofs, 50, 8_000_000).unwrap();
    let h = &mut handles[0];
    for duty in [0u32, 1, 1234, 0xFFFE, 0xFFFF] {
        h.set_duty(duty);
        assert_eq!(h.get_duty(), duty);
    }
    // Above the live max duty is legal (output pinned high), not an error.
    let max = h.get_max_duty();
    h.set_duty(max + 1);
    assert_eq!(h.get_duty(), max + 1);
}

#[test]
fn wide_counter_round_trips_wide_duties() {
    let timer = identity_of(TimerId::Tim2);
    let proofs = bind_pins(vec![PinIdentity::new(Port::A, 0)], TimerId::Tim2).unwrap();
    let mut handles = configure_pwm(timer, proofs, 100, 64_000_000).unwrap();
    let h = &mut handles[0];
    h.set_duty(0x0012_3456);
    assert_eq!(h.get_duty(), 0x0012_3456);
    h.set_duty(0xFFFF_FFFF);
    assert_eq!(h.get_duty(), 0xFFFF_FFFF);
}

#[test]
fn narrow_compare_register_keeps_the_low_bits() {
    let timer = identity_of(TimerId::Tim1);
    let proofs = bind_pins(vec![PinIdentity::new(Port::A, 8)], TimerId::Tim1).unwrap();
    let mut handles = configure_pwm(timer, proofs, 50, 8_000_000).unwrap();
    let h = &mut handles[0];
    h.set_duty(0x0001_0005);
    assert_eq!(h.get_duty(), 5);
}

#[test]
fn disable_then_enable_preserves_the_duty() {
    let timer = identity_of(TimerId::Tim1);
    let proofs = bind_pins(vec![PinIdentity::new(Port::A, 8)], TimerId::Tim1).unwrap();
    let mut handles = configure_pwm(timer, proofs, 50, 8_000_000).unwrap();
    let h = &mut handles[0];
    h.set_duty(1234);
    h.enable();
    assert!(h.is_enabled());
    h.disable();
    assert!(!h.is_enabled());
    assert_eq!(h.get_duty(), 1234);
    h.enable();
    assert!(h.is_enabled());
    assert_eq!(h.get_duty(), 1234);
}

#[test]
fn pwm_entry_point_binds_and_configures_in_one_call() {
    let pins = (PinIdentity::new(Port::A, 8), PinIdentity::new(Port::A, 9)).into_pins();
    let handles = identity_of(TimerId::Tim1).pwm(pins, 3, 8_000_000).unwrap();
    assert_eq!(handles.len(), 2);
    assert_eq!(handles[0].channel(), ChannelIndex::C1);
    assert_eq!(handles[1].channel(), ChannelIndex::C2);
    assert_eq!(handles[0].get_max_duty(), 65039);
}

#[test]
fn pwm_entry_point_surfaces_the_binding_failure() {
    let pins = (PinIdentity::new(Port::A, 8), PinIdentity::new(Port::F, 5)).into_pins();
    let e = identity_of(TimerId::Tim1).pwm(pins, 3, 8_000_000).unwrap_err();
    assert_eq!(e, PwmError::NoSuchMapping);
}

#[test]
fn four_pin_set_dissolves_in_order() {
    let pins = (
        PinIdentity::new(Port::A, 0),
        PinIdentity::new(Port::A, 1),
        PinIdentity::new(Port::A, 2),
        PinIdentity::new(Port::A, 3),
    )
        .into_pins();
    let handles = identity_of(TimerId::Tim2).pwm(pins, 1_000, 16_000_000).unwrap();
    let channels: Vec<ChannelIndex> = handles.iter().map(|h| h.channel()).collect();
    assert_eq!(
        channels,
        vec![ChannelIndex::C1, ChannelIndex::C2, ChannelIndex::C3, ChannelIndex::C4]
    );
}

#[test]
fn single_channel_timer_takes_its_single_pin() {
    let pins = PinIdentity::new(Port::B, 9).into_pins();
    let handles = identity_of(TimerId::Tim17).pwm(pins, 440, 16_000_000).unwrap();
    assert_eq!(handles.len(), 1);
    assert_eq!(handles[0].channel(), ChannelIndex::C1);
}

#[test]
fn one_proof_becomes_exactly_one_handle() {
    // A pin and its proof both move: after `bind` the pin is gone, after
    // `configure_pwm` the proof is gone, so neither can be reused — the
    // construction-time exclusivity the handles rely on.
    let pin = PinIdentity::new(Port::A, 8);
    let proof = bind(pin, TimerId::Tim1).unwrap();
    let timer = identity_of(TimerId::Tim1);
    let handles = configure_pwm(timer, vec![proof], 50, 8_000_000).unwrap();
    assert_eq!(handles.len(), 1);
}
