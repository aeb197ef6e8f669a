//! Capability descriptor table: the static relation of every physically
//! valid (pin, timer, channel, multiplexer selector) tuple of this chip
//! family, enumerated from the hardware wiring. A pair absent from the
//! table cannot drive PWM at all; there is no runtime recovery for that.

use vstd::prelude::*;

use crate::identity::ChannelIndex;
use crate::identity::PinIdentity;
use crate::identity::Port;
use crate::identity::TimerId;
use crate::identity::channel_number;
use crate::identity::spec_identity;

verus! {

/// The alternate-function mapping: which channel of `timer` the pin
/// (`port`, `number`) can drive, and through which multiplexer selector.
/// `None` means the combination does not exist on this chip.
pub open spec fn spec_mapping(port: Port, number: u8, timer: TimerId) -> Option<
    (ChannelIndex, u8),
> {
    match timer {
        TimerId::Tim1 => match port {
            Port::A => if number == 8 {
                Some((ChannelIndex::C1, 2))
            } else if number == 9 {
                Some((ChannelIndex::C2, 2))
            } else if number == 10 {
                Some((ChannelIndex::C3, 2))
            } else if number == 11 {
                Some((ChannelIndex::C4, 2))
            } else {
                None
            },
            Port::B => if number == 3 {
                Some((ChannelIndex::C2, 1))
            } else if number == 6 {
                Some((ChannelIndex::C3, 1))
            } else {
                None
            },
            Port::C => if number == 8 {
                Some((ChannelIndex::C1, 2))
            } else if number == 9 {
                Some((ChannelIndex::C2, 2))
            } else if number == 10 {
                Some((ChannelIndex::C3, 2))
            } else if number == 11 {
                Some((ChannelIndex::C4, 2))
            } else {
                None
            },
            _ => None,
        },
        TimerId::Tim2 => match port {
            Port::A => if number == 0 {
                Some((ChannelIndex::C1, 2))
            } else if number == 5 {
                Some((ChannelIndex::C1, 2))
            } else if number == 15 {
                Some((ChannelIndex::C1, 2))
            } else if number == 1 {
                Some((ChannelIndex::C2, 2))
            } else if number == 2 {
                Some((ChannelIndex::C3, 2))
            } else if number == 3 {
                Some((ChannelIndex::C4, 2))
            } else {
                None
            },
            Port::B => if number == 3 {
                Some((ChannelIndex::C2, 2))
            } else if number == 10 {
                Some((ChannelIndex::C3, 2))
            } else if number == 11 {
                Some((ChannelIndex::C4, 2))
            } else {
                None
            },
            Port::C => if number == 4 {
                Some((ChannelIndex::C1, 2))
            } else if number == 5 {
                Some((ChannelIndex::C2, 2))
            } else if number == 7 {
                Some((ChannelIndex::C4, 2))
            } else {
                None
            },
            _ => None,
        },
        TimerId::Tim3 => match port {
            Port::A => if number == 6 {
                Some((ChannelIndex::C1, 1))
            } else if number == 7 {
                Some((ChannelIndex::C2, 1))
            } else {
                None
            },
            Port::B => if number == 4 {
                Some((ChannelIndex::C1, 1))
            } else if number == 5 {
                Some((ChannelIndex::C2, 1))
            } else if number == 0 {
                Some((ChannelIndex::C3, 1))
            } else if number == 1 {
                Some((ChannelIndex::C4, 1))
            } else {
                None
            },
            Port::C => if number == 6 {
                Some((ChannelIndex::C1, 1))
            } else if number == 7 {
                Some((ChannelIndex::C2, 1))
            } else if number == 8 {
                Some((ChannelIndex::C3, 1))
            } else if number == 9 {
                Some((ChannelIndex::C4, 1))
            } else {
                None
            },
            _ => None,
        },
        TimerId::Tim14 => match port {
            Port::A => if number == 4 {
                Some((ChannelIndex::C1, 4))
            } else if number == 7 {
                Some((ChannelIndex::C1, 4))
            } else {
                None
            },
            Port::B => if number == 1 {
                Some((ChannelIndex::C1, 0))
            } else {
                None
            },
            Port::C => if number == 12 {
                Some((ChannelIndex::C1, 2))
            } else {
                None
            },
            Port::F => if number == 0 {
                Some((ChannelIndex::C1, 2))
            } else {
                None
            },
            _ => None,
        },
        TimerId::Tim15 => match port {
            Port::A => if number == 2 {
                Some((ChannelIndex::C1, 5))
            } else {
                None
            },
            Port::B => if number == 14 {
                Some((ChannelIndex::C1, 5))
            } else {
                None
            },
            Port::C => if number == 1 {
                Some((ChannelIndex::C1, 2))
            } else {
                None
            },
            _ => None,
        },
        TimerId::Tim16 => match port {
            Port::A => if number == 6 {
                Some((ChannelIndex::C1, 5))
            } else {
                None
            },
            Port::B => if number == 8 {
                Some((ChannelIndex::C1, 2))
            } else {
                None
            },
            Port::D => if number == 0 {
                Some((ChannelIndex::C1, 2))
            } else {
                None
            },
            _ => None,
        },
        TimerId::Tim17 => match port {
            Port::A => if number == 7 {
                Some((ChannelIndex::C1, 6))
            } else {
                None
            },
            Port::B => if number == 9 {
                Some((ChannelIndex::C1, 2))
            } else {
                None
            },
            Port::D => if number == 1 {
                Some((ChannelIndex::C1, 2))
            } else {
                None
            },
            _ => None,
        },
    }
}

/// Pure lookup in the capability descriptor table: no side effects, no
/// writes; just whether and how the pin can drive a channel of `timer`.
pub fn mapping(pin: &PinIdentity, timer: TimerId) -> (r: Option<(ChannelIndex, u8)>)
    ensures
        r == spec_mapping(pin.port, pin.number, timer),
{
    let number = pin.number;
    match timer {
        TimerId::Tim1 => match pin.port {
            Port::A => if number == 8 {
                Some((ChannelIndex::C1, 2))
            } else if number == 9 {
                Some((ChannelIndex::C2, 2))
            } else if number == 10 {
                Some((ChannelIndex::C3, 2))
            } else if number == 11 {
                Some((ChannelIndex::C4, 2))
            } else {
                None
            },
            Port::B => if number == 3 {
                Some((ChannelIndex::C2, 1))
            } else if number == 6 {
                Some((ChannelIndex::C3, 1))
            } else {
                None
            },
            Port::C => if number == 8 {
                Some((ChannelIndex::C1, 2))
            } else if number == 9 {
                Some((ChannelIndex::C2, 2))
            } else if number == 10 {
                Some((ChannelIndex::C3, 2))
            } else if number == 11 {
                Some((ChannelIndex::C4, 2))
            } else {
                None
            },
            _ => None,
        },
        TimerId::Tim2 => match pin.port {
            Port::A => if number == 0 {
                Some((ChannelIndex::C1, 2))
            } else if number == 5 {
                Some((ChannelIndex::C1, 2))
            } else if number == 15 {
                Some((ChannelIndex::C1, 2))
            } else if number == 1 {
                Some((ChannelIndex::C2, 2))
            } else if number == 2 {
                Some((ChannelIndex::C3, 2))
            } else if number == 3 {
                Some((ChannelIndex::C4, 2))
            } else {
                None
            },
            Port::B => if number == 3 {
                Some((ChannelIndex::C2, 2))
            } else if number == 10 {
                Some((ChannelIndex::C3, 2))
            } else if number == 11 {
                Some((ChannelIndex::C4, 2))
            } else {
                None
            },
            Port::C => if number == 4 {
                Some((ChannelIndex::C1, 2))
            } else if number == 5 {
                Some((ChannelIndex::C2, 2))
            } else if number == 7 {
                Some((ChannelIndex::C4, 2))
            } else {
                None
            },
            _ => None,
        },
        TimerId::Tim3 => match pin.port {
            Port::A => if number == 6 {
                Some((ChannelIndex::C1, 1))
            } else if number == 7 {
                Some((ChannelIndex::C2, 1))
            } else {
                None
            },
            Port::B => if number == 4 {
                Some((ChannelIndex::C1, 1))
            } else if number == 5 {
                Some((ChannelIndex::C2, 1))
            } else if number == 0 {
                Some((ChannelIndex::C3, 1))
            } else if number == 1 {
                Some((ChannelIndex::C4, 1))
            } else {
                None
            },
            Port::C => if number == 6 {
                Some((ChannelIndex::C1, 1))
            } else if number == 7 {
                Some((ChannelIndex::C2, 1))
            } else if number == 8 {
                Some((ChannelIndex::C3, 1))
            } else if number == 9 {
                Some((ChannelIndex::C4, 1))
            } else {
                None
            },
            _ => None,
        },
        TimerId::Tim14 => match pin.port {
            Port::A => if number == 4 {
                Some((ChannelIndex::C1, 4))
            } else if number == 7 {
                Some((ChannelIndex::C1, 4))
            } else {
                None
            },
            Port::B => if number == 1 {
                Some((ChannelIndex::C1, 0))
            } else {
                None
            },
            Port::C => if number == 12 {
                Some((ChannelIndex::C1, 2))
            } else {
                None
            },
            Port::F => if number == 0 {
                Some((ChannelIndex::C1, 2))
            } else {
                None
            },
            _ => None,
        },
        TimerId::Tim15 => match pin.port {
            Port::A => if number == 2 {
                Some((ChannelIndex::C1, 5))
            } else {
                None
            },
            Port::B => if number == 14 {
                Some((ChannelIndex::C1, 5))
            } else {
                None
            },
            Port::C => if number == 1 {
                Some((ChannelIndex::C1, 2))
            } else {
                None
            },
            _ => None,
        },
        TimerId::Tim16 => match pin.port {
            Port::A => if number == 6 {
                Some((ChannelIndex::C1, 5))
            } else {
                None
            },
            Port::B => if number == 8 {
                Some((ChannelIndex::C1, 2))
            } else {
                None
            },
            Port::D => if number == 0 {
                Some((ChannelIndex::C1, 2))
            } else {
                None
            },
            _ => None,
        },
        TimerId::Tim17 => match pin.port {
            Port::A => if number == 7 {
                Some((ChannelIndex::C1, 6))
            } else {
                None
            },
            Port::B => if number == 9 {
                Some((ChannelIndex::C1, 2))
            } else {
                None
            },
            Port::D => if number == 1 {
                Some((ChannelIndex::C1, 2))
            } else {
                None
            },
            _ => None,
        },
    }
}

/// Well-formedness of the wiring table: every channel it names physically
/// exists on the timer it names it for.
pub proof fn lemma_mapping_channel_exists(port: Port, number: u8, timer: TimerId)
    ensures
        spec_mapping(port, number, timer) matches Some((ch, _af)) ==> channel_number(ch)
            <= spec_identity(timer).channel_count,
{
}

} // verus!
