//! Frequency translator: pure integer arithmetic from (bus clock, requested
//! frequency, counter width) to a (prescaler, auto-reload) pair.
//!
//! Policy, stated once and proved below: the clock ratio is the requested
//! division factor rounded down (`bus / requested`), so the achieved
//! frequency is never below the requested one; the prescaler is the smallest
//! 16-bit value whose divider lets the reload fit even a 16-bit counter
//! (`ceil(ratio / 65536) - 1`); the reload is the ratio divided by that
//! divider, rounded down, minus one. The product of the two dividers lands
//! within one prescaled tick below the exact ratio.

use vstd::arithmetic::div_mod::lemma_div_is_ordered;
use vstd::arithmetic::div_mod::lemma_div_is_ordered_by_denominator;
use vstd::arithmetic::div_mod::lemma_div_multiples_vanish;
use vstd::arithmetic::div_mod::lemma_div_nonincreasing;
use vstd::arithmetic::div_mod::lemma_fundamental_div_mod;
use vstd::arithmetic::mul::lemma_mul_inequality;
use vstd::prelude::*;

use crate::identity::PwmError;

verus! {

/// A timer's shared timing pair, as written to its prescaler and auto-reload
/// registers once at setup. The prescaler register is 16 bits on every timer
/// of the family, whatever the counter width.
#[derive(Clone, Copy, PartialEq, Eq, Structural, Debug)]
pub struct TimerTimingConfig {
    pub prescaler: u16,
    pub auto_reload: u32,
    /// On 32-bit counters the auto-reload register is written as two 16-bit
    /// halves; the caller must write low half then high half while the
    /// counter is held, or a torn intermediate top value becomes visible.
    pub needs_high_half_write: bool,
}

/// The integer division factor between the bus clock and the requested
/// frequency; rounding down is what keeps the achieved frequency at or
/// above the requested one.
pub open spec fn spec_ratio(bus_clock_hz: u32, requested_hz: u32) -> int
    recommends
        requested_hz > 0,
{
    bus_clock_hz as int / requested_hz as int
}

/// Smallest prescaler whose divider brings the ratio under 2^16,
/// `ceil(ratio / 2^16) - 1`, written over floor division.
pub open spec fn spec_prescaler(ratio: int) -> int {
    if ratio <= 1 {
        0
    } else {
        (ratio - 1) / 0x10000
    }
}

/// Counter top value: the ratio divided by the prescaler's divider, rounded
/// down, minus one; zero when the ratio degenerates (requested at or above
/// the bus clock), which runs the counter at the fastest achievable rate.
pub open spec fn spec_auto_reload(ratio: int) -> int {
    if ratio <= 1 {
        0
    } else {
        ratio / (spec_prescaler(ratio) + 1) - 1
    }
}

/// Everything the rest of the subsystem needs of the translated pair, for
/// any ratio a 32-bit bus clock can produce: the prescaler fits its 16-bit
/// register, the reload fits even a 16-bit counter, their dividers never
/// overshoot the ratio, and (for a ratio of at least one) they land within
/// one prescaled tick below it.
pub proof fn lemma_timing_fits(ratio: int)
    requires
        0 <= ratio <= u32::MAX,
    ensures
        0 <= spec_prescaler(ratio) <= 0xFFFF,
        0 <= spec_auto_reload(ratio) <= 0xFFFF,
        (spec_prescaler(ratio) + 1) * (spec_auto_reload(ratio) + 1) <= (if ratio >= 1 {
            ratio
        } else {
            1
        }),
        ratio >= 1 ==> ratio - (spec_prescaler(ratio) + 1) * (spec_auto_reload(ratio) + 1)
            < spec_prescaler(ratio) + 1,
{
    if ratio <= 1 {
        assert(spec_prescaler(ratio) == 0 && spec_auto_reload(ratio) == 0);
    } else {
        let p = spec_prescaler(ratio);
        let p1 = p + 1;
        let a1 = spec_auto_reload(ratio) + 1;
        // The prescaler fits 16 bits: ratio - 1 < 2^16 * 2^16.
        lemma_fundamental_div_mod(ratio - 1, 0x10000);
        assert(ratio - 1 == 0x10000 * p + (ratio - 1) % 0x10000);
        assert(p <= 0xFFFF) by {
            if p > 0xFFFF {
                assert(0x10000 * p >= 0x10000 * 0x10000) by (nonlinear_arith)
                    requires
                        p >= 0x10000,
                ;
            }
        }
        // The chosen divider covers the ratio: ratio <= p1 * 2^16.
        assert(0 <= (ratio - 1) % 0x10000 < 0x10000);
        assert(ratio <= p1 * 0x10000) by (nonlinear_arith)
            requires
                ratio - 1 == 0x10000 * p + (ratio - 1) % 0x10000,
                0 <= (ratio - 1) % 0x10000 < 0x10000,
                p1 == p + 1,
        ;
        // Hence the reload's divider result stays at or under 2^16.
        assert(a1 == ratio / p1);
        lemma_div_is_ordered(ratio, p1 * 0x10000, p1);
        lemma_div_multiples_vanish(0x10000, p1);
        assert(a1 <= 0x10000);
        // And it is at least one, since p1 <= ratio.
        lemma_div_nonincreasing(ratio - 1, 0x10000);
        assert(p1 <= ratio);
        lemma_div_is_ordered_by_denominator(ratio, p1, ratio);
        vstd::arithmetic::div_mod::lemma_div_by_self(ratio);
        assert(a1 >= 1);
        // The dividers never overshoot, and miss by less than one prescaled
        // tick: ratio == p1 * a1 + ratio % p1 with the remainder below p1.
        lemma_fundamental_div_mod(ratio, p1);
        assert(ratio == p1 * a1 + ratio % p1);
    }
}

/// The achieved division factor never exceeds the requested one, so the
/// achieved frequency is never below the requested one:
/// `requested * (p + 1) * (a + 1) <= bus` for any requested frequency
/// between one and the bus clock.
pub proof fn lemma_frequency_at_least_requested(bus_clock_hz: u32, requested_hz: u32)
    requires
        1 <= requested_hz <= bus_clock_hz,
    ensures
        ({
            let ratio = spec_ratio(bus_clock_hz, requested_hz);
            requested_hz * ((spec_prescaler(ratio) + 1) * (spec_auto_reload(ratio) + 1))
                <= bus_clock_hz
        }),
{
    let bus = bus_clock_hz as int;
    let req = requested_hz as int;
    let ratio = spec_ratio(bus_clock_hz, requested_hz);
    assert(ratio >= 1) by {
        lemma_div_is_ordered(req, bus, req);
        vstd::arithmetic::div_mod::lemma_div_by_self(req);
    }
    lemma_timing_fits(ratio);
    let product = (spec_prescaler(ratio) + 1) * (spec_auto_reload(ratio) + 1);
    lemma_mul_inequality(product, ratio, req);
    assert(req * product <= req * ratio) by (nonlinear_arith)
        requires
            product <= ratio,
            req >= 1,
    ;
    lemma_fundamental_div_mod(bus, req);
    assert(req * ratio <= bus);
}

/// Translate a bus clock and a requested frequency into the shared timing
/// pair for a counter of the given width. A requested frequency of zero is
/// unrepresentable and rejected; a requested frequency above the bus clock
/// degenerates to the fastest achievable rate (prescaler 0, reload 0), with
/// one-tick duty granularity, by design and not as an error.
pub fn derive_timing(bus_clock_hz: u32, requested_hz: u32, counter_width_bits: u8) -> (r: Result<
    TimerTimingConfig,
    PwmError,
>)
    requires
        counter_width_bits == 16 || counter_width_bits == 32,
    ensures
        r is Err <==> requested_hz == 0,
        r matches Err(e) ==> e == PwmError::InvalidFrequency,
        r matches Ok(cfg) ==> ({
            let ratio = spec_ratio(bus_clock_hz, requested_hz);
            &&& cfg.prescaler == spec_prescaler(ratio)
            &&& cfg.auto_reload == spec_auto_reload(ratio)
            &&& cfg.needs_high_half_write == (counter_width_bits == 32)
        }),
        requested_hz > bus_clock_hz ==> (r matches Ok(cfg) ==> cfg.prescaler == 0
            && cfg.auto_reload == 0),
{
    if requested_hz == 0 {
        return Err(PwmError::InvalidFrequency);
    }
    let ratio: u32 = bus_clock_hz / requested_hz;
    proof {
        lemma_timing_fits(ratio as int);
        if requested_hz > bus_clock_hz {
            vstd::arithmetic::div_mod::lemma_basic_div(bus_clock_hz as int, requested_hz as int);
        }
    }
    let prescaler: u32 = if ratio <= 1 {
        0
    } else {
        (ratio - 1) / 0x10000
    };
    let divider: u32 = prescaler + 1;
    let reload: u32 = if ratio <= 1 {
        0
    } else {
        ratio / divider - 1
    };
    // The reload provably fits even a 16-bit counter; the clamp is the
    // documented last line of defence should the table of widths ever grow
    // a narrower counter.
    let ceiling: u32 = if counter_width_bits == 16 {
        0xFFFF
    } else {
        0xFFFF_FFFF
    };
    let auto_reload: u32 = if reload > ceiling {
        ceiling
    } else {
        reload
    };
    Ok(
        TimerTimingConfig {
            prescaler: prescaler as u16,
            auto_reload,
            needs_high_half_write: counter_width_bits == 32,
        },
    )
}

} // verus!
