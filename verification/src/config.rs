//! Deriving tick timing and ramp parameters from the configured rates.
//!
//! The increment is the ceiling of `max / steps`, with
//! `steps = ceil(ramp_ms / tick_ms)`, so the ramp reaches full speed in
//! approximately the configured ramp duration at any tick rate.

use vstd::prelude::*;

use vstd::arithmetic::div_mod::{
    lemma_fundamental_div_mod,
    lemma_mod_bound,
    lemma_div_pos_is_pos,
    lemma_div_non_zero,
    lemma_div_nonincreasing,
};

use crate::ramp::{SPEED_SCALE, MAX_SPEED_FP};

verus! {

/// Default tick frequency, in ticks per second.
pub const DEFAULT_TICK_HZ: u32 = 90;

/// Default ramp duration, in milliseconds.
pub const DEFAULT_RAMP_MS: u32 = 200;

/// Default peak speed, in displacement units per second.
pub const DEFAULT_SPEED_UNITS_PER_S: u32 = 500;

/// Highest accepted tick frequency: the tick period must be at least one
/// millisecond.
pub const MAX_TICK_HZ: u32 = 1000;

/// Highest accepted peak speed, so that fixed-point speeds stay within
/// `MAX_SPEED_FP`.
pub const MAX_SPEED_UNITS_PER_S: u32 = 1_000_000;

/// Highest accepted ramp duration: one hour.
pub const MAX_RAMP_MS: u32 = 3_600_000;

/// Ceiling division for non-negative operands.
pub open spec fn div_ceil(a: int, b: int) -> int {
    (a + b - 1) / b
}

/// Ceiling division rounds up to a multiple, never exceeds a positive
/// dividend, and is zero exactly on a zero dividend.
pub proof fn lemma_div_ceil_bounds(a: int, b: int)
    requires
        a >= 0,
        b >= 1,
    ensures
        div_ceil(a, b) >= 0,
        div_ceil(a, b) * b >= a,
        div_ceil(a, b) <= a,
        a == 0 ==> div_ceil(a, b) == 0,
        a >= 1 ==> div_ceil(a, b) >= 1,
{
    let x = a + b - 1;
    let q = x / b;
    let r = x % b;
    lemma_fundamental_div_mod(x, b);
    lemma_mod_bound(x, b);
    lemma_div_pos_is_pos(x, b);
    assert(b * q == a + b - 1 - r);
    assert(q * b >= a) by (nonlinear_arith)
        requires
            b * q == a + b - 1 - r,
            r < b,
    ;
    assert(q <= a) by (nonlinear_arith)
        requires
            b * q == a + b - 1 - r,
            0 <= r,
            b >= 1,
            a >= 0,
            q >= 0,
    ;
    if a == 0 {
        lemma_div_nonincreasing(x, b);
    }
    if a >= 1 {
        assert(q >= 1) by (nonlinear_arith)
            requires
                b * q == a + b - 1 - r,
                r < b,
                b >= 1,
                a >= 1,
        ;
    }
}

/// Timing and ramp parameters shared by the four axis ramps.
#[derive(Clone, Copy, PartialEq, Eq, Structural, Debug)]
pub struct RampSettings {
    /// Tick period, in milliseconds.
    pub tick_ms: u32,
    /// Ticks the ramp takes from rest to full speed.
    pub steps: u32,
    /// Peak speed, in fixed-point units per tick.
    pub max_fp: u32,
    /// Per-tick speed change, in fixed-point units.
    pub inc_fp: u32,
}

impl RampSettings {
    /// The derived values are consistent: the increment covers the peak in
    /// `steps` ticks and every ramp built from them is well formed.
    pub open spec fn wf(&self) -> bool {
        &&& self.tick_ms >= 1
        &&& self.steps >= 1
        &&& self.inc_fp <= self.max_fp <= MAX_SPEED_FP
        &&& self.inc_fp * self.steps >= self.max_fp
        &&& self.max_fp > 0 ==> self.inc_fp >= 1
    }
}

/// Compute the tick period, step count, and fixed-point peak and increment
/// from the configured tick frequency, ramp duration, and peak speed.
pub fn derive_settings(freq_hz: u32, ramp_ms: u32, speed_units_per_s: u32) -> (s: RampSettings)
    requires
        1 <= freq_hz <= MAX_TICK_HZ,
        ramp_ms <= MAX_RAMP_MS,
        speed_units_per_s <= MAX_SPEED_UNITS_PER_S,
    ensures
        s.wf(),
        s.tick_ms == 1000 as int / freq_hz as int,
        s.steps == if div_ceil(ramp_ms as int, s.tick_ms as int) >= 1 {
            div_ceil(ramp_ms as int, s.tick_ms as int)
        } else {
            1
        },
        s.max_fp == speed_units_per_s as int * SPEED_SCALE as int / freq_hz as int,
        s.inc_fp == div_ceil(s.max_fp as int, s.steps as int),
{
    let tick_ms = 1000 / freq_hz;
    proof {
        lemma_div_non_zero(1000, freq_hz as int);
        lemma_div_nonincreasing(1000, freq_hz as int);
        lemma_div_ceil_bounds(ramp_ms as int, tick_ms as int);
    }
    let steps_raw = (ramp_ms + (tick_ms - 1)) / tick_ms;
    let steps = if steps_raw >= 1 {
        steps_raw
    } else {
        1
    };
    let max_wide = speed_units_per_s as u64 * SPEED_SCALE as u64 / freq_hz as u64;
    proof {
        lemma_div_nonincreasing(speed_units_per_s as int * SPEED_SCALE as int, freq_hz as int);
        lemma_div_pos_is_pos(speed_units_per_s as int * SPEED_SCALE as int, freq_hz as int);
        assert(speed_units_per_s as int * SPEED_SCALE as int <= MAX_SPEED_FP as int)
            by (nonlinear_arith)
            requires
                speed_units_per_s <= MAX_SPEED_UNITS_PER_S,
        ;
    }
    let max_fp = max_wide as u32;
    proof {
        lemma_div_ceil_bounds(max_fp as int, steps as int);
    }
    let inc_fp = ((max_fp as u64 + (steps as u64 - 1)) / steps as u64) as u32;
    proof {
        assert(inc_fp as int == div_ceil(max_fp as int, steps as int));
        assert(inc_fp as int * steps as int >= max_fp as int);
        if max_fp > 0 {
            assert(inc_fp >= 1);
        }
    }
    RampSettings { tick_ms, steps, max_fp, inc_fp }
}

} // verus!
