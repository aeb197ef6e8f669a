//! Binding behaviour against the capability descriptor table.

use pwm_hal::bind::{bind, bind_pins};
use pwm_hal::identity::{ChannelIndex, PinIdentity, Port, PwmError, TimerId};
use pwm_hal::table::mapping;

#[test]
fn bind_present_pair_returns_matching_proof() {
    let pin = PinIdentity::new(Port::A, 8);
    let proof = bind(pin, TimerId::Tim1).unwrap();
    assert_eq!(proof.timer(), TimerId::Tim1);
    assert_eq!(proof.channel(), ChannelIndex::C1);
    assert_eq!(proof.selector(), 2);
}

#[test]
fn bind_follows_every_table_entry_it_is_shown() {
    // A few entries across timers, ports and selector values.
    let cases: Vec<(Port, u8, TimerId, ChannelIndex, u8)> = vec![
        (Port::B, 3, TimerId::Tim1, ChannelIndex::C2, 1),
        (Port::B, 3, TimerId::Tim2, ChannelIndex::C2, 2),
        (Port::C, 7, TimerId::Tim2, ChannelIndex::C4, 2),
        (Port::C, 7, TimerId::Tim3, ChannelIndex::C2, 1),
        (Port::B, 1, TimerId::Tim14, ChannelIndex::C1, 0),
        (Port::F, 0, TimerId::Tim14, ChannelIndex::C1, 2),
        (Port::B, 14, TimerId::Tim15, ChannelIndex::C1, 5),
        (Port::D, 0, TimerId::Tim16, ChannelIndex::C1, 2),
        (Port::A, 7, TimerId::Tim17, ChannelIndex::C1, 6),
    ];
    for (port, number, timer, channel, selector) in cases {
        let looked_up = mapping(&PinIdentity::new(port, number), timer);
        assert_eq!(looked_up, Some((channel, selector)));
        let proof = bind(PinIdentity::new(port, number), timer).unwrap();
        assert_eq!(proof.timer(), timer);
        assert_eq!(proof.channel(), channel);
        assert_eq!(proof.selector(), selector);
    }
}

#[test]
fn bind_absent_pair_fails_with_no_such_mapping() {
    // PF5 drives nothing; PA8 belongs to TIM1, not TIM3.
    assert_eq!(mapping(&PinIdentity::new(Port::F, 5), TimerId::Tim1), None);
    let e = bind(PinIdentity::new(Port::F, 5), TimerId::Tim1).unwrap_err();
    assert_eq!(e, PwmError::NoSuchMapping);
    let e = bind(PinIdentity::new(Port::A, 8), TimerId::Tim3).unwrap_err();
    assert_eq!(e, PwmError::NoSuchMapping);
}

#[test]
fn bind_pins_returns_proofs_in_caller_order() {
    let pins = vec![
        PinIdentity::new(Port::A, 8),
        PinIdentity::new(Port::A, 9),
        PinIdentity::new(Port::A, 10),
        PinIdentity::new(Port::A, 11),
    ];
    let proofs = bind_pins(pins, TimerId::Tim1).unwrap();
    let channels: Vec<ChannelIndex> = proofs.iter().map(|p| p.channel()).collect();
    assert_eq!(
        channels,
        vec![ChannelIndex::C1, ChannelIndex::C2, ChannelIndex::C3, ChannelIndex::C4]
    );
}

#[test]
fn bind_pins_reports_first_failing_pin() {
    let pins = vec![
        PinIdentity::new(Port::A, 8),
        PinIdentity::new(Port::F, 5),
        PinIdentity::new(Port::A, 9),
    ];
    let (index, error) = bind_pins(pins, TimerId::Tim1).unwrap_err();
    assert_eq!(index, 1);
    assert_eq!(error, PwmError::NoSuchMapping);
}

#[test]
fn empty_pin_set_binds_and_configures_to_nothing() {
    let proofs = bind_pins(Vec::new(), TimerId::Tim1).unwrap();
    assert!(proofs.is_empty());
    let handles =
        pwm_hal::bind::configure_pwm(pwm_hal::identity::identity_of(TimerId::Tim1), proofs, 50, 8_000_000)
            .unwrap();
    assert!(handles.is_empty());
}
