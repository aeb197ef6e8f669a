//! Pin binding and the PWM entry point. `bind` consults the capability
//! table for a (pin, timer) pair; on a match it programs the pin's
//! multiplexer-selector field and yields a `BoundChannelProof`, the only
//! evidence from which a channel handle can be made. The proof consumes the
//! pin and is itself consumed exactly once, so reusing a pin identity after
//! a successful `bind`, or wiring two handles to one channel from one
//! proof, is rejected by the compiler rather than checked at run time.

use vstd::prelude::*;

use crate::channel::Pwm;
use crate::channel::spec_fresh_handle;
use crate::channel::view_wf;
use crate::identity::PeripheralIdentity;
use crate::identity::PinIdentity;
use crate::identity::PinMode;
use crate::identity::Port;
use crate::identity::PwmError;
use crate::identity::TimerId;
use crate::identity::ChannelIndex;
use crate::table::mapping;
use crate::table::spec_mapping;
use crate::timing::derive_timing;
use crate::timing::spec_auto_reload;
use crate::timing::spec_ratio;

verus! {

/// What a binding proof attests, as contracts speak of it.
pub struct BindingView {
    pub timer: TimerId,
    pub channel: ChannelIndex,
    pub selector: u8,
    pub port: Port,
    pub number: u8,
    pub mode: PinMode,
}

/// Evidence that a (pin, timer, channel) triple is physically valid and
/// that the pin's multiplexer has been programmed for it. Only `bind`
/// constructs one, so a proof for a combination absent from the capability
/// table cannot exist; the handle factory consumes it exactly once.
#[derive(Debug)]
pub struct BoundChannelProof {
    pin: PinIdentity,
    timer: TimerId,
    channel: ChannelIndex,
    selector: u8,
}

impl View for BoundChannelProof {
    type V = BindingView;

    closed spec fn view(&self) -> BindingView {
        BindingView {
            timer: self.timer,
            channel: self.channel,
            selector: self.selector,
            port: self.pin.port,
            number: self.pin.number,
            mode: self.pin.mode,
        }
    }
}

/// A proof matches the capability table entry for its own pin and timer,
/// and its pin's multiplexer is routed through the selector of that entry.
pub open spec fn proof_wf(b: BindingView) -> bool {
    &&& spec_mapping(b.port, b.number, b.timer) == Some((b.channel, b.selector))
    &&& b.mode == PinMode::Alternate(b.selector)
}

impl BoundChannelProof {
    /// The channel the table assigns this pin on this timer.
    pub fn channel(&self) -> (c: ChannelIndex)
        ensures
            c == self@.channel,
    {
        self.channel
    }

    /// The timer this binding is for.
    pub fn timer(&self) -> (t: TimerId)
        ensures
            t == self@.timer,
    {
        self.timer
    }

    /// The multiplexer selector the pin was programmed with.
    pub fn selector(&self) -> (s: u8)
        ensures
            s == self@.selector,
    {
        self.selector
    }
}

/// Bind one unclaimed pin to `timer`: consult the capability table, and on
/// a match program the pin's multiplexer-selector field and hand back the
/// proof. On a mismatch nothing is written and the one fatal answer is
/// `NoSuchMapping` — hardware wiring cannot change by retrying.
pub fn bind(pin: PinIdentity, timer: TimerId) -> (r: Result<BoundChannelProof, PwmError>)
    requires
        pin.mode == PinMode::Default,
    ensures
        r is Ok <==> spec_mapping(pin.port, pin.number, timer) is Some,
        r matches Ok(b) ==> {
            &&& proof_wf(b@)
            &&& b@.timer == timer
            &&& b@.port == pin.port
            &&& b@.number == pin.number
            &&& spec_mapping(pin.port, pin.number, timer) == Some((b@.channel, b@.selector))
        },
        r matches Err(e) ==> e == PwmError::NoSuchMapping,
{
    match mapping(&pin, timer) {
        Some((channel, selector)) => {
            // The single multiplexer write this subsystem performs per pin.
            let routed = PinIdentity { mode: PinMode::Alternate(selector), ..pin };
            Ok(BoundChannelProof { pin: routed, timer, channel, selector })
        },
        None => Err(PwmError::NoSuchMapping),
    }
}

/// Bind several pins to one timer, in caller order. The first pin without
/// a table entry aborts the whole call before any further write, and its
/// position is reported; on success every pin's proof is returned in order.
pub fn bind_pins(pins: Vec<PinIdentity>, timer: TimerId) -> (r: Result<
    Vec<BoundChannelProof>,
    (usize, PwmError),
>)
    requires
        forall|i: int|
            0 <= i < pins@.len() ==> (#[trigger] pins@[i]).mode == PinMode::Default,
    ensures
        r is Ok <==> (forall|i: int|
            0 <= i < pins@.len() ==> (#[trigger] spec_mapping(
                pins@[i].port,
                pins@[i].number,
                timer,
            )) is Some),
        r matches Ok(bs) ==> {
            &&& bs@.len() == pins@.len()
            &&& forall|i: int|
                0 <= i < bs@.len() ==> {
                    &&& proof_wf((#[trigger] bs@[i])@)
                    &&& bs@[i]@.timer == timer
                    &&& bs@[i]@.port == pins@[i].port
                    &&& bs@[i]@.number == pins@[i].number
                }
        },
        r matches Err((idx, e)) ==> {
            &&& e == PwmError::NoSuchMapping
            &&& idx < pins@.len()
            &&& spec_mapping(pins@[idx as int].port, pins@[idx as int].number, timer) is None
            &&& forall|j: int|
                0 <= j < idx ==> (#[trigger] spec_mapping(
                    pins@[j].port,
                    pins@[j].number,
                    timer,
                )) is Some
        },
{
    let ghost orig = pins@;
    let mut rest = pins;
    let total: usize = rest.len();
    let mut bound: Vec<BoundChannelProof> = Vec::new();
    let mut i: usize = 0;
    while rest.len() != 0
        invariant
            orig == pins@,
            total == orig.len(),
            i + rest@.len() == orig.len(),
            rest@ == orig.subrange(i as int, orig.len() as int),
            bound@.len() == i,
            forall|k: int| 0 <= k < orig.len() ==> (#[trigger] orig[k]).mode == PinMode::Default,
            forall|k: int|
                0 <= k < i ==> (#[trigger] spec_mapping(orig[k].port, orig[k].number, timer))
                    is Some,
            forall|k: int|
                0 <= k < i ==> {
                    &&& proof_wf((#[trigger] bound@[k])@)
                    &&& bound@[k]@.timer == timer
                    &&& bound@[k]@.port == orig[k].port
                    &&& bound@[k]@.number == orig[k].number
                },
        decreases rest@.len(),
    {
        let pin = rest.remove(0);
        assert(pin == orig[i as int]);
        match bind(pin, timer) {
            Ok(b) => {
                bound.push(b);
            },
            Err(e) => {
                proof {
                    assert(spec_mapping(orig[i as int].port, orig[i as int].number, timer)
                        is None);
                }
                return Err((i, e));
            },
        }
        i = i + 1;
        proof {
            assert(rest@ =~= orig.subrange(i as int, orig.len() as int));
        }
    }
    Ok(bound)
}

/// The PWM entry point over proofs: translate the frequency once for the
/// timer, program its shared prescaler and auto-reload registers, start the
/// counter, and issue one handle per proof. Each proof must be for this
/// timer, and no two proofs may name one channel — one proof, one handle,
/// one physical channel. The clock subsystem's idempotent enable and reset
/// of the peripheral happen before any of this; they belong to that
/// subsystem, not here.
pub fn configure_pwm(
    timer: PeripheralIdentity,
    proofs: Vec<BoundChannelProof>,
    requested_hz: u32,
    bus_clock_hz: u32,
) -> (r: Result<Vec<Pwm>, PwmError>)
    requires
        forall|i: int|
            0 <= i < proofs@.len() ==> proof_wf((#[trigger] proofs@[i])@) && proofs@[i]@.timer
                == timer.id,
        forall|i: int, j: int|
            0 <= i < proofs@.len() && 0 <= j < proofs@.len() && i != j ==> (
            #[trigger] proofs@[i]@.channel) != (#[trigger] proofs@[j]@.channel),
    ensures
        r is Err <==> requested_hz == 0,
        r matches Err(e) ==> e == PwmError::InvalidFrequency,
        r matches Ok(hs) ==> {
            &&& hs@.len() == proofs@.len()
            &&& forall|i: int|
                0 <= i < hs@.len() ==> (#[trigger] hs@[i])@ == spec_fresh_handle(
                    timer,
                    proofs@[i]@.channel,
                    spec_auto_reload(spec_ratio(bus_clock_hz, requested_hz)) as u32,
                )
            &&& forall|i: int| 0 <= i < hs@.len() ==> view_wf((#[trigger] hs@[i])@)
        },
{
    let width_bits = timer.width.bits();
    let cfg = match derive_timing(bus_clock_hz, requested_hz, width_bits) {
        Ok(cfg) => cfg,
        Err(e) => {
            return Err(e);
        },
    };
    proof {
        crate::timing::lemma_timing_fits(spec_ratio(bus_clock_hz, requested_hz));
    }
    let mut handles: Vec<Pwm> = Vec::new();
    let mut i: usize = 0;
    while i < proofs.len()
        invariant
            i <= proofs@.len(),
            handles@.len() == i,
            cfg.auto_reload == spec_auto_reload(spec_ratio(bus_clock_hz, requested_hz)),
            requested_hz > 0,
            forall|k: int|
                0 <= k < i ==> (#[trigger] handles@[k])@ == spec_fresh_handle(
                    timer,
                    proofs@[k]@.channel,
                    cfg.auto_reload,
                ),
        decreases proofs@.len() - i,
    {
        let h = Pwm::issue(&timer, proofs[i].channel(), cfg.auto_reload);
        handles.push(h);
        i = i + 1;
    }
    Ok(handles)
}

/// Every pin of the set has a capability table entry for `timer`.
pub open spec fn all_pins_mapped(pins: Seq<PinIdentity>, timer: TimerId) -> bool {
    forall|i: int|
        0 <= i < pins.len() ==> (#[trigger] spec_mapping(pins[i].port, pins[i].number, timer))
            is Some
}

/// The channel the capability table assigns a pin on `timer`.
pub open spec fn mapped_channel(pin: PinIdentity, timer: TimerId) -> ChannelIndex
    recommends
        spec_mapping(pin.port, pin.number, timer) is Some,
{
    spec_mapping(pin.port, pin.number, timer)->Some_0.0
}

/// Extension for a timer peripheral: the one-call PWM setup. It binds the
/// pins in order, translates the frequency once, programs the shared
/// registers, starts the counter, and returns one handle per pin. The
/// peripheral is consumed: a timer is configured once, before any handle
/// exists, and its shared registers are never touched again.
pub trait PwmExt: Sized {
    /// The peripheral this instance is, as contracts speak of it.
    spec fn spec_identity_of(self) -> PeripheralIdentity;

    /// Set up PWM on this timer for the given pins at the requested
    /// frequency. A pin without a table entry fails the whole call with
    /// `NoSuchMapping` before any further write; a zero frequency fails
    /// with `InvalidFrequency`; otherwise every pin's handle comes back in
    /// the pins' order.
    fn pwm(self, pins: Vec<PinIdentity>, requested_hz: u32, bus_clock_hz: u32) -> (r: Result<
        Vec<Pwm>,
        PwmError,
    >)
        requires
            forall|i: int|
                0 <= i < pins@.len() ==> (#[trigger] pins@[i]).mode == PinMode::Default,
            forall|i: int, j: int|
                0 <= i < pins@.len() && 0 <= j < pins@.len() && i != j && spec_mapping(
                    pins@[i].port,
                    pins@[i].number,
                    self.spec_identity_of().id,
                ) is Some && spec_mapping(
                    pins@[j].port,
                    pins@[j].number,
                    self.spec_identity_of().id,
                ) is Some ==> (#[trigger] mapped_channel(pins@[i], self.spec_identity_of().id)) != (
                #[trigger] mapped_channel(pins@[j], self.spec_identity_of().id)),
        ensures
            r is Ok <==> (requested_hz != 0 && all_pins_mapped(
                pins@,
                self.spec_identity_of().id,
            )),
            r matches Err(e) ==> e == (if !all_pins_mapped(pins@, self.spec_identity_of().id) {
                PwmError::NoSuchMapping
            } else {
                PwmError::InvalidFrequency
            }),
            r matches Ok(hs) ==> {
                &&& hs@.len() == pins@.len()
                &&& forall|i: int|
                    0 <= i < hs@.len() ==> (#[trigger] hs@[i])@ == spec_fresh_handle(
                        self.spec_identity_of(),
                        mapped_channel(pins@[i], self.spec_identity_of().id),
                        spec_auto_reload(spec_ratio(bus_clock_hz, requested_hz)) as u32,
                    )
            },
    ;
}

impl PwmExt for PeripheralIdentity {
    open spec fn spec_identity_of(self) -> PeripheralIdentity {
        self
    }

    fn pwm(self, pins: Vec<PinIdentity>, requested_hz: u32, bus_clock_hz: u32) -> (r: Result<
        Vec<Pwm>,
        PwmError,
    >) {
        let timer_id = self.id;
        match bind_pins(pins, timer_id) {
            Err((_idx, e)) => Err(e),
            Ok(proofs) => {
                proof {
                    assert forall|i: int, j: int|
                        0 <= i < proofs@.len() && 0 <= j < proofs@.len() && i
                            != j implies (#[trigger] proofs@[i]@.channel) != (
                    #[trigger] proofs@[j]@.channel) by {
                        assert(proof_wf(proofs@[i]@));
                        assert(proof_wf(proofs@[j]@));
                        assert(proofs@[i]@.channel == mapped_channel(pins@[i], timer_id));
                        assert(proofs@[j]@.channel == mapped_channel(pins@[j], timer_id));
                    }
                }
                configure_pwm(self, proofs, requested_hz, bus_clock_hz)
            },
        }
    }
}

} // verus!
