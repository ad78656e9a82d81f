//! The per-tick emission engine.
//!
//! Each tick, while emulation is enabled: resolve the held-key snapshot to
//! intents, advance the four axis ramps, compute the net displacement, and
//! build the tick's event batch — button state for each button, relative
//! motion only when nonzero, and a closing synchronization marker. While
//! emulation is disabled nothing is emitted and the ramps do not evolve, so
//! motion resumes smoothly after re-enabling.

use vstd::prelude::*;

use crate::actions::{ActionMap, Intents, resolve, resolve_spec};
use crate::config::RampSettings;
use crate::events::{Button, OutEvent, Timestamp};
use crate::keys::KeyStateTracker;
use crate::ramp::{SPEED_SCALE, MAX_SPEED_FP, VelocityRamp, tick_speed};

verus! {

/// Net displacement of one axis from its two opposing fixed-point speeds,
/// truncated toward zero to whole displacement units.
pub open spec fn net_delta(pos: nat, neg: nat) -> int {
    if pos >= neg {
        (((pos - neg) as nat) / (SPEED_SCALE as nat)) as int
    } else {
        -((((neg - pos) as nat) / (SPEED_SCALE as nat)) as int)
    }
}

/// The event batch of one emitting tick: the three button states (always
/// sent), relative x and y motion only when nonzero, then the
/// synchronization marker. Every event carries the tick's timestamp.
pub open spec fn tick_batch(i: Intents, dx: int, dy: int, t: Timestamp) -> Seq<OutEvent> {
    let buttons = seq![
        OutEvent::Button { button: Button::Left, pressed: i.click_left, time: t },
        OutEvent::Button { button: Button::Right, pressed: i.click_right, time: t },
        OutEvent::Button { button: Button::Middle, pressed: i.click_middle, time: t },
    ];
    let with_x = if dx != 0 {
        buttons.push(OutEvent::RelX { delta: dx as i32, time: t })
    } else {
        buttons
    };
    let with_y = if dy != 0 {
        with_x.push(OutEvent::RelY { delta: dy as i32, time: t })
    } else {
        with_x
    };
    with_y.push(OutEvent::Sync { time: t })
}

/// Net displacement from two opposing fixed-point speeds.
pub fn net_displacement(pos: u32, neg: u32) -> (d: i32)
    requires
        pos <= MAX_SPEED_FP,
        neg <= MAX_SPEED_FP,
    ensures
        d as int == net_delta(pos as nat, neg as nat),
{
    if pos >= neg {
        ((pos - neg) / SPEED_SCALE) as i32
    } else {
        (((neg - pos) / SPEED_SCALE) as i32) * -1
    }
}

/// The four axis ramps and the timing they were derived from: the per-tick
/// state of the emission loop.
pub struct MotionEngine {
    settings: RampSettings,
    up: VelocityRamp,
    down: VelocityRamp,
    left: VelocityRamp,
    right: VelocityRamp,
}

impl MotionEngine {
    /// The settings the engine was built from.
    pub closed spec fn settings(&self) -> RampSettings {
        self.settings
    }

    /// Fixed-point speed of the up axis.
    pub closed spec fn up_speed(&self) -> nat {
        self.up.speed()
    }

    /// Fixed-point speed of the down axis.
    pub closed spec fn down_speed(&self) -> nat {
        self.down.speed()
    }

    /// Fixed-point speed of the left axis.
    pub closed spec fn left_speed(&self) -> nat {
        self.left.speed()
    }

    /// Fixed-point speed of the right axis.
    pub closed spec fn right_speed(&self) -> nat {
        self.right.speed()
    }

    /// All four ramps share the settings' peak and increment and are well
    /// formed.
    pub closed spec fn wf(&self) -> bool {
        &&& self.settings.wf()
        &&& self.up.wf() && self.down.wf() && self.left.wf() && self.right.wf()
        &&& self.up.max_speed() == self.settings.max_fp as nat
        &&& self.down.max_speed() == self.settings.max_fp as nat
        &&& self.left.max_speed() == self.settings.max_fp as nat
        &&& self.right.max_speed() == self.settings.max_fp as nat
        &&& self.up.increment() == self.settings.inc_fp as nat
        &&& self.down.increment() == self.settings.inc_fp as nat
        &&& self.left.increment() == self.settings.inc_fp as nat
        &&& self.right.increment() == self.settings.inc_fp as nat
    }

    /// A fresh engine with all four axes at rest.
    pub fn new(settings: RampSettings) -> (e: MotionEngine)
        requires
            settings.wf(),
        ensures
            e.wf(),
            e.settings() == settings,
            e.up_speed() == 0 && e.down_speed() == 0 && e.left_speed() == 0 && e.right_speed()
                == 0,
    {
        MotionEngine {
            settings,
            up: VelocityRamp::new(settings.max_fp, settings.inc_fp),
            down: VelocityRamp::new(settings.max_fp, settings.inc_fp),
            left: VelocityRamp::new(settings.max_fp, settings.inc_fp),
            right: VelocityRamp::new(settings.max_fp, settings.inc_fp),
        }
    }

    /// The tick period the engine was derived for, in milliseconds.
    pub fn tick_ms(&self) -> (t: u32)
        ensures
            t == self.settings().tick_ms,
    {
        self.settings.tick_ms
    }

    /// One tick of the emission loop. While `gate` is false nothing is
    /// emitted and the engine is unchanged. While it is true, the four
    /// ramps advance by the resolved intents and the returned batch holds the
    /// three button states, the nonzero net displacements, and the closing
    /// synchronization marker, all stamped with `now`. The y axis counts
    /// downward motion as positive, so the net y is down minus up.
    pub fn tick(&mut self, gate: bool, keys: &KeyStateTracker, map: &ActionMap, now: Timestamp)
        -> (batch: Option<Vec<OutEvent>>)
        requires
            old(self).wf(),
        ensures
            final(self).wf(),
            final(self).settings() == old(self).settings(),
            !gate ==> batch is None && *final(self) == *old(self),
            gate ==> {
                let i = resolve_spec(keys@, *map);
                let max = old(self).settings().max_fp as nat;
                let inc = old(self).settings().inc_fp as nat;
                &&& final(self).up_speed() == tick_speed(old(self).up_speed(), max, inc, i.up)
                &&& final(self).down_speed() == tick_speed(old(self).down_speed(), max, inc,
                    i.down)
                &&& final(self).left_speed() == tick_speed(old(self).left_speed(), max, inc,
                    i.left)
                &&& final(self).right_speed() == tick_speed(old(self).right_speed(), max, inc,
                    i.right)
                &&& batch matches Some(b) && b@ == tick_batch(
                    i,
                    net_delta(final(self).right_speed(), final(self).left_speed()),
                    net_delta(final(self).down_speed(), final(self).up_speed()),
                    now,
                )
            },
    {
        if !gate {
            return None;
        }
        let intents = resolve(keys, map);
        let up_v = self.up.tick(intents.up);
        let down_v = self.down.tick(intents.down);
        let left_v = self.left.tick(intents.left);
        let right_v = self.right.tick(intents.right);
        let dx = net_displacement(right_v, left_v);
        let dy = net_displacement(down_v, up_v);
        let mut batch: Vec<OutEvent> = Vec::new();
        batch.push(OutEvent::Button { button: Button::Left, pressed: intents.click_left, time: now });
        batch.push(
            OutEvent::Button { button: Button::Right, pressed: intents.click_right, time: now },
        );
        batch.push(
            OutEvent::Button { button: Button::Middle, pressed: intents.click_middle, time: now },
        );
        if dx != 0 {
            batch.push(OutEvent::RelX { delta: dx, time: now });
        }
        if dy != 0 {
            batch.push(OutEvent::RelY { delta: dy, time: now });
        }
        batch.push(OutEvent::Sync { time: now });
        proof {
            assert(batch@ =~= tick_batch(
                resolve_spec(keys@, *map),
                net_delta(self.right_speed(), self.left_speed()),
                net_delta(self.down_speed(), self.up_speed()),
                now,
            ));
        }
        Some(batch)
    }
}

} // verus!
