//! The exclusive-capture lifecycle of the physical device.
//!
//! The controller tracks its own grabbed/released state so that grab and
//! ungrab requests are issued only on edges of the enable flag, never twice in a
//! row, however often the enable flag is written with the same value.

use vstd::prelude::*;

verus! {

/// A capture request the device-owning thread must perform.
#[derive(Clone, Copy, PartialEq, Eq, Structural, Debug)]
pub enum CaptureAction {
    Grab,
    Ungrab,
}

/// The action one gate value elicits from a controller in state `grabbed`.
pub open spec fn capture_step(grabbed: bool, gate: bool) -> Option<CaptureAction> {
    if gate == grabbed {
        None
    } else if gate {
        Some(CaptureAction::Grab)
    } else {
        Some(CaptureAction::Ungrab)
    }
}

/// The actions a controller in state `grabbed` issues over a whole sequence
/// of gate values.
pub open spec fn capture_actions(grabbed: bool, gates: Seq<bool>) -> Seq<CaptureAction>
    decreases gates.len(),
{
    if gates.len() == 0 {
        Seq::empty()
    } else {
        let rest = capture_actions(gates[0], gates.drop_first());
        match capture_step(grabbed, gates[0]) {
            Some(a) => seq![a] + rest,
            None => rest,
        }
    }
}

/// Tracks whether the physical device is currently grabbed, and turns
/// enable-flag values into grab/ungrab requests on edges only.
pub struct CaptureController {
    grabbed: bool,
}

impl CaptureController {
    /// Whether the device is currently grabbed.
    pub closed spec fn is_grabbed(&self) -> bool {
        self.grabbed
    }

    /// A fresh controller: the device starts released.
    pub fn new() -> (c: CaptureController)
        ensures
            !c.is_grabbed(),
    {
        CaptureController { grabbed: false }
    }

    /// Observe the enable flag and return the capture request owed, if any.
    /// Repeated identical values are no-ops; afterwards the controller's
    /// state equals the flag.
    pub fn update(&mut self, gate: bool) -> (action: Option<CaptureAction>)
        ensures
            final(self).is_grabbed() == gate,
            action == capture_step(old(self).is_grabbed(), gate),
    {
        if gate == self.grabbed {
            None
        } else {
            self.grabbed = gate;
            if gate {
                Some(CaptureAction::Grab)
            } else {
                Some(CaptureAction::Ungrab)
            }
        }
    }

    /// The current state, for callers outside the proof.
    pub fn grabbed(&self) -> (r: bool)
        ensures
            r == self.is_grabbed(),
    {
        self.grabbed
    }
}

/// The first action issued over a run, if any, grabs exactly when the run
/// started released.
proof fn lemma_capture_first_action(grabbed: bool, gates: Seq<bool>)
    ensures
        capture_actions(grabbed, gates).len() > 0 ==> capture_actions(grabbed, gates)[0] == (
        if grabbed {
            CaptureAction::Ungrab
        } else {
            CaptureAction::Grab
        }),
    decreases gates.len(),
{
    if gates.len() > 0 {
        if capture_step(grabbed, gates[0]) is None {
            lemma_capture_first_action(gates[0], gates.drop_first());
        }
    }
}

/// Law: over any sequence of gate toggles, including repeated identical
/// ones, the issued capture requests strictly alternate — never two grabs
/// without an ungrab between them, and never two ungrabs without a grab.
pub proof fn lemma_capture_alternates(grabbed: bool, gates: Seq<bool>)
    ensures
        forall|i: int|
            0 <= i && i + 1 < capture_actions(grabbed, gates).len() ==> #[trigger] capture_actions(
                grabbed,
                gates,
            )[i] != capture_actions(grabbed, gates)[i + 1],
        capture_actions(grabbed, gates).len() > 0 ==> capture_actions(grabbed, gates)[0] == (
        if grabbed {
            CaptureAction::Ungrab
        } else {
            CaptureAction::Grab
        }),
    decreases gates.len(),
{
    lemma_capture_first_action(grabbed, gates);
    if gates.len() > 0 {
        let rest = capture_actions(gates[0], gates.drop_first());
        lemma_capture_alternates(gates[0], gates.drop_first());
        match capture_step(grabbed, gates[0]) {
            Some(a) => {
                let whole = seq![a] + rest;
                assert forall|i: int| 0 <= i && i + 1 < whole.len() implies #[trigger] whole[i]
                    != whole[i + 1] by {
                    if i == 0 {
                        if rest.len() > 0 {
                            lemma_capture_first_action(gates[0], gates.drop_first());
                            assert(whole[1] == rest[0]);
                        }
                    } else {
                        assert(whole[i] == rest[i - 1] && whole[i + 1] == rest[i]);
                    }
                }
            },
            None => {},
        }
    }
}

} // verus!
