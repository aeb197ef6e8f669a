//! Channel handles: one runtime object per bound physical channel, carrying
//! the channel's own register state (compare value, compare-enable and mode
//! bits) together with the timer-wide constants fixed at setup (counter
//! width, gate presence, auto-reload). Shared per-timer registers are
//! written exactly once before any handle is issued and never mutated
//! afterwards, so a handle can answer `get_max_duty` from the auto-reload
//! top value without any lock discipline.

use vstd::prelude::*;

use crate::identity::ChannelIndex;
use crate::identity::CounterWidth;
use crate::identity::PeripheralIdentity;
use crate::identity::TimerId;

verus! {

/// Register-level state of one channel, as contracts speak of it.
pub struct PwmView {
    pub timer: TimerId,
    pub channel: ChannelIndex,
    pub width: CounterWidth,
    /// Whether the timer routes its outputs through a master output-enable
    /// gate that must be opened besides the channel's own enable bit.
    pub gated: bool,
    /// Top value of the shared auto-reload register, fixed at setup.
    pub auto_reload: u32,
    /// The channel's capture/compare register: the duty threshold.
    pub duty: u32,
    /// The channel's compare-enable bit.
    pub enabled: bool,
    /// The channel's compare mode and preload-enable bits: set once by the
    /// first `enable`, left in place by `disable`.
    pub mode_set: bool,
    /// The master output-enable gate bit, on gated timers.
    pub gate_open: bool,
}

/// All duty values a channel's compare register can hold.
pub open spec fn duty_mask(w: CounterWidth) -> u32 {
    match w {
        CounterWidth::Bits16 => 0xFFFF,
        CounterWidth::Bits32 => 0xFFFF_FFFF,
    }
}

/// What the compare register keeps of a written value: its low bits, as
/// wide as the counter.
pub open spec fn spec_truncate_duty(w: CounterWidth, duty: u32) -> u32 {
    duty & duty_mask(w)
}

/// Effect of `enable` on a channel's registers: compare mode and preload
/// on, compare-enable on, and on gated timers the master gate opened.
/// The compare register is untouched.
pub open spec fn spec_enable(v: PwmView) -> PwmView {
    PwmView { enabled: true, mode_set: true, gate_open: v.gate_open || v.gated, ..v }
}

/// Effect of `disable`: the compare-enable bit alone is cleared; duty and
/// mode bits persist, so a later `enable` resumes the prior duty.
pub open spec fn spec_disable(v: PwmView) -> PwmView {
    PwmView { enabled: false, ..v }
}

/// Effect of `set_duty`: the written value lands in the compare register,
/// truncated to the register's width; nothing else moves.
pub open spec fn spec_set_duty(v: PwmView, duty: u32) -> PwmView {
    PwmView { duty: spec_truncate_duty(v.width, duty), ..v }
}

/// A handle's registers stay within the counter width they model.
pub open spec fn view_wf(v: PwmView) -> bool {
    &&& v.duty <= duty_mask(v.width)
    &&& v.auto_reload <= duty_mask(v.width)
}

/// A software handle bound one-to-one to a physical timer channel. It is
/// exclusively owned by its caller and mutated only through its own
/// methods; no two live handles name the same (timer, channel) pair,
/// which the one-proof-one-handle rule enforces at construction, not at
/// run time.
#[derive(Debug)]
pub struct Pwm {
    timer: TimerId,
    channel: ChannelIndex,
    width: CounterWidth,
    gated: bool,
    auto_reload: u32,
    duty: u32,
    enabled: bool,
    mode_set: bool,
    gate_open: bool,
}

impl View for Pwm {
    type V = PwmView;

    closed spec fn view(&self) -> PwmView {
        PwmView {
            timer: self.timer,
            channel: self.channel,
            width: self.width,
            gated: self.gated,
            auto_reload: self.auto_reload,
            duty: self.duty,
            enabled: self.enabled,
            mode_set: self.mode_set,
            gate_open: self.gate_open,
        }
    }
}

/// The register state `configure_pwm` leaves a fresh handle in: duty reset,
/// channel not yet enabled, gate closed, auto-reload as just programmed.
pub open spec fn spec_fresh_handle(
    timer: PeripheralIdentity,
    channel: ChannelIndex,
    auto_reload: u32,
) -> PwmView {
    PwmView {
        timer: timer.id,
        channel,
        width: timer.width,
        gated: timer.gated,
        auto_reload,
        duty: 0,
        enabled: false,
        mode_set: false,
        gate_open: false,
    }
}

impl Pwm {
    /// Issue the handle for one freshly configured channel. Only the PWM
    /// entry point calls this, once per binding proof.
    pub(crate) fn issue(timer: &PeripheralIdentity, channel: ChannelIndex, auto_reload: u32) -> (h:
        Pwm)
        ensures
            h@ == spec_fresh_handle(*timer, channel, auto_reload),
    {
        Pwm {
            timer: timer.id,
            channel,
            width: timer.width,
            gated: timer.gated,
            auto_reload,
            duty: 0,
            enabled: false,
            mode_set: false,
            gate_open: false,
        }
    }

    /// Start driving the output: select PWM compare mode (output active
    /// while the counter is below the compare value), set preload-enable so
    /// duty changes land only at the next update event, set the channel's
    /// compare-enable bit, and on gated timers open the master output-enable
    /// gate — without that last write the pin stays low whatever the
    /// channel bits say, a quirk of the gated timers this method encodes.
    pub fn enable(&mut self)
        ensures
            final(self)@ == spec_enable(old(self)@),
    {
        self.mode_set = true;
        self.enabled = true;
        if self.gated {
            self.gate_open = true;
        }
    }

    /// Stop driving the output: clear the compare-enable bit and nothing
    /// else. Duty and mode bits persist, so `enable` resumes the prior
    /// duty.
    pub fn disable(&mut self)
        ensures
            final(self)@ == spec_disable(old(self)@),
    {
        self.enabled = false;
    }

    /// Current duty threshold, straight from the compare register.
    pub fn get_duty(&self) -> (d: u32)
        ensures
            d == self@.duty,
    {
        self.duty
    }

    /// The timer's live auto-reload top value; a duty at or above this
    /// keeps the output high for the whole period. Values above it are
    /// legal and deliberately not rejected by `set_duty`.
    pub fn get_max_duty(&self) -> (m: u32)
        ensures
            m == self@.auto_reload,
    {
        self.auto_reload
    }

    /// Write the duty threshold to the compare register. The register
    /// keeps the value's low bits, as wide as the counter; values within
    /// the width are kept exactly.
    pub fn set_duty(&mut self, duty: u32)
        ensures
            final(self)@ == spec_set_duty(old(self)@, duty),
    {
        let stored: u32 = match self.width {
            CounterWidth::Bits16 => duty & 0xFFFF,
            CounterWidth::Bits32 => duty & 0xFFFF_FFFF,
        };
        proof {
            assert(duty & 0xFFFF_FFFFu32 == duty) by (bit_vector);
        }
        self.duty = stored;
    }

    /// The channel this handle drives, for callers that route by channel.
    pub fn channel(&self) -> (c: ChannelIndex)
        ensures
            c == self@.channel,
    {
        self.channel
    }

    /// The timer this handle's channel belongs to.
    pub fn timer(&self) -> (t: TimerId)
        ensures
            t == self@.timer,
    {
        self.timer
    }

    /// Whether the channel's compare-enable bit is set.
    pub fn is_enabled(&self) -> (b: bool)
        ensures
            b == self@.enabled,
    {
        self.enabled
    }
}

/// A duty within the counter width survives the compare register exactly:
/// `set_duty` then `get_duty` round-trips such a value unchanged.
pub proof fn lemma_duty_round_trip(v: PwmView, duty: u32)
    requires
        duty <= duty_mask(v.width),
    ensures
        spec_set_duty(v, duty).duty == duty,
{
    match v.width {
        CounterWidth::Bits16 => {
            assert(duty & 0xFFFFu32 == duty) by (bit_vector)
                requires
                    duty <= 0xFFFFu32,
            ;
        },
        CounterWidth::Bits32 => {
            assert(duty & 0xFFFF_FFFFu32 == duty) by (bit_vector);
        },
    }
}

/// `disable` then `enable` never touches the compare register: a channel
/// resumes at exactly the duty it was set to before being paused.
pub proof fn lemma_reenable_preserves_duty(v: PwmView, duty: u32)
    requires
        duty <= duty_mask(v.width),
    ensures
        spec_enable(spec_disable(spec_set_duty(v, duty))).duty == duty,
        spec_enable(spec_disable(v)).duty == v.duty,
{
    lemma_duty_round_trip(v, duty);
}

/// Every register transition keeps a well-formed handle well-formed.
pub proof fn lemma_transitions_preserve_wf(v: PwmView, duty: u32)
    requires
        view_wf(v),
    ensures
        view_wf(spec_enable(v)),
        view_wf(spec_disable(v)),
        view_wf(spec_set_duty(v, duty)),
{
    let m = duty_mask(v.width);
    assert(duty & m <= m) by (bit_vector);
}

} // verus!
