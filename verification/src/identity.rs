//! Identities of the physical resources the subsystem works with: GPIO pins,
//! timer peripherals, capture/compare channels, and the error taxonomy.

use vstd::prelude::*;

verus! {

/// GPIO port banks present on this chip family.
#[derive(Clone, Copy, PartialEq, Eq, Structural, Debug)]
pub enum Port {
    A,
    B,
    C,
    D,
    F,
}

/// Electrical mode of a pin: the reset state, or routed to an internal
/// peripheral function through the given multiplexer selector value.
#[derive(Clone, Copy, PartialEq, Eq, Structural, Debug)]
pub enum PinMode {
    Default,
    Alternate(u8),
}

/// A physical pin: its port, its number within the port, and its current
/// electrical mode. A pin is exclusively owned by whichever abstraction
/// currently configures it; the type is deliberately neither `Clone` nor
/// `Copy`, so a pin consumed by `bind` cannot be offered a second time.
#[derive(Debug)]
pub struct PinIdentity {
    pub port: Port,
    pub number: u8,
    pub mode: PinMode,
}

impl PinIdentity {
    /// A pin in its reset (unclaimed) electrical mode.
    pub fn new(port: Port, number: u8) -> (p: PinIdentity)
        ensures
            p.port == port,
            p.number == number,
            p.mode == PinMode::Default,
    {
        PinIdentity { port, number, mode: PinMode::Default }
    }
}

/// The timer peripheral instances of this chip family that expose PWM outputs.
#[derive(Clone, Copy, PartialEq, Eq, Structural, Debug)]
pub enum TimerId {
    Tim1,
    Tim2,
    Tim3,
    Tim14,
    Tim15,
    Tim16,
    Tim17,
}

/// Peripheral bus a timer's register block hangs off.
#[derive(Clone, Copy, PartialEq, Eq, Structural, Debug)]
pub enum ApbBus {
    Apb1,
    Apb2,
}

/// Width of a timer's counter and of its auto-reload and compare registers.
#[derive(Clone, Copy, PartialEq, Eq, Structural, Debug)]
pub enum CounterWidth {
    Bits16,
    Bits32,
}

/// Capture/compare channels a timer of this family can expose.
#[derive(Clone, Copy, PartialEq, Eq, Structural, Debug)]
pub enum ChannelIndex {
    C1,
    C2,
    C3,
    C4,
}

/// One-based number of a channel, as the reference manual counts them.
pub open spec fn channel_number(c: ChannelIndex) -> int {
    match c {
        ChannelIndex::C1 => 1,
        ChannelIndex::C2 => 2,
        ChannelIndex::C3 => 3,
        ChannelIndex::C4 => 4,
    }
}

/// Counter width in bits, as the frequency translator takes it.
pub open spec fn spec_width_bits(w: CounterWidth) -> u8 {
    match w {
        CounterWidth::Bits16 => 16,
        CounterWidth::Bits32 => 32,
    }
}

impl CounterWidth {
    /// Counter width in bits.
    pub fn bits(self) -> (b: u8)
        ensures
            b == spec_width_bits(self),
    {
        match self {
            CounterWidth::Bits16 => 16,
            CounterWidth::Bits32 => 32,
        }
    }
}

/// Type-level channel designators, for APIs that tag a handle with its
/// channel in the type. Timers of this family expose channels 1 to 4;
/// 5 and 6 are reserved for larger relatives.
pub struct Channel1;

pub struct Channel2;

pub struct Channel3;

pub struct Channel4;

pub struct Channel5;

pub struct Channel6;

/// Every failure in this subsystem reflects a static configuration mistake;
/// nothing is transient or worth retrying.
#[derive(Clone, Copy, PartialEq, Eq, Structural, Debug)]
pub enum PwmError {
    /// The requested pin/timer/channel combination does not exist on this chip.
    NoSuchMapping,
    /// The requested frequency is zero or otherwise unrepresentable.
    InvalidFrequency,
}

/// Immutable description of one physical timer instance: its bus, how many
/// capture/compare channels it has, how wide its counter is, and whether its
/// outputs sit behind a master output-enable gate.
pub struct PeripheralIdentity {
    pub id: TimerId,
    pub bus: ApbBus,
    pub channel_count: u8,
    pub width: CounterWidth,
    pub gated: bool,
}

/// The per-timer constants of this chip family.
pub open spec fn spec_identity(t: TimerId) -> PeripheralIdentity {
    match t {
        TimerId::Tim1 => PeripheralIdentity {
            id: t,
            bus: ApbBus::Apb2,
            channel_count: 4,
            width: CounterWidth::Bits16,
            gated: true,
        },
        TimerId::Tim2 => PeripheralIdentity {
            id: t,
            bus: ApbBus::Apb1,
            channel_count: 4,
            width: CounterWidth::Bits32,
            gated: false,
        },
        TimerId::Tim3 => PeripheralIdentity {
            id: t,
            bus: ApbBus::Apb1,
            channel_count: 4,
            width: CounterWidth::Bits32,
            gated: false,
        },
        TimerId::Tim14 => PeripheralIdentity {
            id: t,
            bus: ApbBus::Apb2,
            channel_count: 1,
            width: CounterWidth::Bits16,
            gated: false,
        },
        TimerId::Tim15 => PeripheralIdentity {
            id: t,
            bus: ApbBus::Apb2,
            channel_count: 1,
            width: CounterWidth::Bits16,
            gated: true,
        },
        TimerId::Tim16 => PeripheralIdentity {
            id: t,
            bus: ApbBus::Apb2,
            channel_count: 1,
            width: CounterWidth::Bits16,
            gated: true,
        },
        TimerId::Tim17 => PeripheralIdentity {
            id: t,
            bus: ApbBus::Apb2,
            channel_count: 1,
            width: CounterWidth::Bits16,
            gated: true,
        },
    }
}

/// Look up the per-timer constants of this chip family.
pub fn identity_of(t: TimerId) -> (p: PeripheralIdentity)
    ensures
        p == spec_identity(t),
{
    match t {
        TimerId::Tim1 => PeripheralIdentity {
            id: t,
            bus: ApbBus::Apb2,
            channel_count: 4,
            width: CounterWidth::Bits16,
            gated: true,
        },
        TimerId::Tim2 => PeripheralIdentity {
            id: t,
            bus: ApbBus::Apb1,
            channel_count: 4,
            width: CounterWidth::Bits32,
            gated: false,
        },
        TimerId::Tim3 => PeripheralIdentity {
            id: t,
            bus: ApbBus::Apb1,
            channel_count: 4,
            width: CounterWidth::Bits32,
            gated: false,
        },
        TimerId::Tim14 => PeripheralIdentity {
            id: t,
            bus: ApbBus::Apb2,
            channel_count: 1,
            width: CounterWidth::Bits16,
            gated: false,
        },
        TimerId::Tim15 => PeripheralIdentity {
            id: t,
            bus: ApbBus::Apb2,
            channel_count: 1,
            width: CounterWidth::Bits16,
            gated: true,
        },
        TimerId::Tim16 => PeripheralIdentity {
            id: t,
            bus: ApbBus::Apb2,
            channel_count: 1,
            width: CounterWidth::Bits16,
            gated: true,
        },
        TimerId::Tim17 => PeripheralIdentity {
            id: t,
            bus: ApbBus::Apb2,
            channel_count: 1,
            width: CounterWidth::Bits16,
            gated: true,
        },
    }
}

} // verus!
