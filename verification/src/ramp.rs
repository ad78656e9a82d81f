//! Per-axis velocity ramping.
//!
//! Speeds are fixed-point integers: `SPEED_SCALE` fixed-point units stand for
//! one displacement unit per tick. Each tick moves the stored speed toward
//! `max` by `inc` while the axis key is held, and back toward zero otherwise,
//! clamped at both ends.

use vstd::prelude::*;

verus! {

/// Fixed-point units per displacement unit.
pub const SPEED_SCALE: u32 = 1000;

/// Upper bound on a fixed-point speed, so that sums and differences of two
/// speeds stay far from `u32`/`i32` limits.
pub const MAX_SPEED_FP: u32 = 1_000_000_000;

/// One tick of the ramp, as a mathematical function: toward `max` when held,
/// toward zero when not, clamped at both ends.
pub open spec fn tick_speed(cur: nat, max: nat, inc: nat, held: bool) -> nat {
    if held {
        if cur + inc <= max {
            (cur + inc) as nat
        } else {
            max
        }
    } else {
        if cur >= inc {
            (cur - inc) as nat
        } else {
            0
        }
    }
}

/// The speed after feeding a whole sequence of held/not-held signals.
pub open spec fn speed_after(cur: nat, max: nat, inc: nat, helds: Seq<bool>) -> nat
    decreases helds.len(),
{
    if helds.len() == 0 {
        cur
    } else {
        speed_after(tick_speed(cur, max, inc, helds[0]), max, inc, helds.drop_first())
    }
}

/// Closed form for a run of held ticks: the speed climbs by `inc` per tick
/// until it is clamped at `max`.
pub proof fn lemma_speed_after_held(cur: nat, max: nat, inc: nat, n: nat)
    requires
        cur <= max,
    ensures
        speed_after(cur, max, inc, Seq::new(n, |i: int| true)) == if cur + n * inc <= max {
            (cur + n * inc) as nat
        } else {
            max
        },
    decreases n,
{
    let helds = Seq::new(n, |i: int| true);
    if n == 0 {
        assert(cur + n * inc == cur) by (nonlinear_arith)
            requires n == 0;
    } else {
        let cur1 = tick_speed(cur, max, inc, true);
        assert(helds.drop_first() =~= Seq::new((n - 1) as nat, |i: int| true));
        lemma_speed_after_held(cur1, max, inc, (n - 1) as nat);
        assert(cur + n * inc == cur + inc + (n - 1) * inc) by (nonlinear_arith)
            requires n >= 1;
        if cur + inc > max {
            assert((n - 1) * inc >= 0) by (nonlinear_arith)
                requires n >= 1;
        }
    }
}

/// Closed form for a run of idle ticks: the speed falls by `inc` per tick
/// until it is clamped at zero; it never goes below zero.
pub proof fn lemma_speed_after_unheld(cur: nat, max: nat, inc: nat, n: nat)
    ensures
        speed_after(cur, max, inc, Seq::new(n, |i: int| false)) == if cur >= n * inc {
            (cur - n * inc) as nat
        } else {
            0
        },
    decreases n,
{
    let helds = Seq::new(n, |i: int| false);
    if n == 0 {
        assert(n * inc == 0) by (nonlinear_arith)
            requires n == 0;
    } else {
        let cur1 = tick_speed(cur, max, inc, false);
        assert(helds.drop_first() =~= Seq::new((n - 1) as nat, |i: int| false));
        lemma_speed_after_unheld(cur1, max, inc, (n - 1) as nat);
        assert(n * inc == inc + (n - 1) * inc) by (nonlinear_arith)
            requires n >= 1;
        if cur < inc {
            assert((n - 1) * inc >= 0) by (nonlinear_arith)
                requires n >= 1;
        }
    }
}

/// Held for `steps` ticks from rest, the ramp arrives exactly at `max`
/// whenever `inc * steps` covers `max` — which the configured increment,
/// the ceiling of `max / steps`, always does.
pub proof fn lemma_ramp_reaches_max(max: nat, inc: nat, steps: nat)
    requires
        inc * steps >= max,
    ensures
        speed_after(0, max, inc, Seq::new(steps, |i: int| true)) == max,
{
    lemma_speed_after_held(0, max, inc, steps);
    assert(steps * inc == inc * steps) by (nonlinear_arith);
}

/// Idle for `steps` ticks from full speed, the ramp arrives exactly at zero
/// under the same covering condition, and the clamp keeps every
/// intermediate speed non-negative.
pub proof fn lemma_ramp_decays_to_zero(max: nat, inc: nat, steps: nat)
    requires
        inc * steps >= max,
    ensures
        speed_after(max, max, inc, Seq::new(steps, |i: int| false)) == 0,
{
    lemma_speed_after_unheld(max, max, inc, steps);
    assert(steps * inc == inc * steps) by (nonlinear_arith);
    if max >= steps * inc {
        assert(max == steps * inc);
    }
}

/// While held, the speed sequence is monotone non-decreasing: a longer run
/// of held ticks never yields a smaller speed.
pub proof fn lemma_ramp_up_monotone(cur: nat, max: nat, inc: nat, k: nat, n: nat)
    requires
        cur <= max,
        k <= n,
    ensures
        speed_after(cur, max, inc, Seq::new(k, |i: int| true)) <= speed_after(cur, max, inc,
            Seq::new(n, |i: int| true)),
{
    lemma_speed_after_held(cur, max, inc, k);
    lemma_speed_after_held(cur, max, inc, n);
    assert(k * inc <= n * inc) by (nonlinear_arith)
        requires k <= n;
}

/// The smoothed, clamped speed of one axis.
pub struct VelocityRamp {
    current: u32,
    max: u32,
    inc: u32,
}

impl VelocityRamp {
    /// The stored speed, in fixed-point units.
    pub closed spec fn speed(&self) -> nat {
        self.current as nat
    }

    /// The clamp ceiling, in fixed-point units.
    pub closed spec fn max_speed(&self) -> nat {
        self.max as nat
    }

    /// The per-tick step, in fixed-point units.
    pub closed spec fn increment(&self) -> nat {
        self.inc as nat
    }

    pub open spec fn wf(&self) -> bool {
        self.speed() <= self.max_speed() && self.increment() <= self.max_speed()
            && self.max_speed() <= MAX_SPEED_FP as nat
    }

    /// A fresh ramp at rest.
    pub fn new(max: u32, inc: u32) -> (r: VelocityRamp)
        requires
            inc <= max <= MAX_SPEED_FP,
        ensures
            r.wf(),
            r.speed() == 0,
            r.max_speed() == max as nat,
            r.increment() == inc as nat,
    {
        VelocityRamp { current: 0, max, inc }
    }

    /// Advance the ramp one tick and return the new speed.
    pub fn tick(&mut self, held: bool) -> (speed: u32)
        requires
            old(self).wf(),
        ensures
            final(self).wf(),
            final(self).max_speed() == old(self).max_speed(),
            final(self).increment() == old(self).increment(),
            final(self).speed() == tick_speed(old(self).speed(), old(self).max_speed(),
                old(self).increment(), held),
            speed as nat == final(self).speed(),
    {
        if held {
            let next = self.current + self.inc;
            self.current = if next <= self.max {
                next
            } else {
                self.max
            };
        } else {
            self.current = if self.current >= self.inc {
                self.current - self.inc
            } else {
                0
            };
        }
        self.current
    }

    /// The stored speed, for callers outside the proof.
    pub fn current_speed(&self) -> (speed: u32)
        ensures
            speed as nat == self.speed(),
    {
        self.current
    }
}

} // verus!
