//! The event-reader loop's per-event decision logic, and the remote
//! enable/disable control commands.
//!
//! The reader thread owns the physical device handle. Each key event it
//! reads updates the enable flag on enable/disable/quit edges, is forwarded
//! to the key-state tracker whether or not emulation is active, and yields
//! the capture request owed for the new flag value, to be performed on that
//! same thread.

use vstd::prelude::*;

use crate::actions::ActionMap;
use crate::capture::{CaptureAction, CaptureController, capture_step};
use crate::events::KeyEvent;
use crate::keys::{KeyStateTracker, apply_event};

verus! {

/// Whether the event is the configured disable trigger: the disable key's
/// release when `disable_on_release` is set, its press otherwise.
pub open spec fn disable_triggered(map: ActionMap, ev: KeyEvent) -> bool {
    map.disable_key == Some(ev.code) && (if map.disable_on_release {
        !ev.pressed
    } else {
        ev.pressed
    })
}

/// The enable flag after one key event: a press of the enable key enables
/// it, the disable trigger disables it, and a press of the quit key while
/// enabled disables it without terminating anything. Every other event
/// leaves the flag alone.
pub open spec fn gate_after(gate: bool, map: ActionMap, ev: KeyEvent) -> bool {
    if ev.pressed && map.enable_key == Some(ev.code) {
        true
    } else if disable_triggered(map, ev) {
        false
    } else if gate && ev.pressed && ev.code == map.quit_key {
        false
    } else {
        gate
    }
}

/// One iteration of the reader loop for a key event: update the enable
/// flag, forward the event to the tracker regardless of the flag (so held
/// keys never desynchronize across a disable), and hand the new flag value
/// to the capture controller.
pub fn reader_step(
    map: &ActionMap,
    ev: &KeyEvent,
    tracker: &mut KeyStateTracker,
    gate: &mut bool,
    capture: &mut CaptureController,
) -> (action: Option<CaptureAction>)
    ensures
        final(tracker)@ == apply_event(old(tracker)@, *ev),
        *final(gate) == gate_after(*old(gate), *map, *ev),
        final(capture).is_grabbed() == *final(gate),
        action == capture_step(old(capture).is_grabbed(), *final(gate)),
{
    let enable_hit = match map.enable_key {
        Some(c) => ev.pressed && c == ev.code,
        None => false,
    };
    let disable_hit = match map.disable_key {
        Some(c) => c == ev.code && (if map.disable_on_release {
            !ev.pressed
        } else {
            ev.pressed
        }),
        None => false,
    };
    if enable_hit {
        *gate = true;
    } else if disable_hit {
        *gate = false;
    } else if *gate && ev.pressed && ev.code == map.quit_key {
        *gate = false;
    }
    tracker.apply(ev);
    capture.update(*gate)
}

/// The two commands of the remote control channel.
#[derive(Clone, Copy, PartialEq, Eq, Structural, Debug)]
pub enum RemoteCommand {
    Enable,
    Disable,
}

/// The bytes of the literal command `enable`, in ASCII.
pub open spec fn enable_bytes() -> Seq<u8> {
    seq![101u8, 110u8, 97u8, 98u8, 108u8, 101u8]
}

/// The bytes of the literal command `disable`, in ASCII.
pub open spec fn disable_bytes() -> Seq<u8> {
    seq![100u8, 105u8, 115u8, 97u8, 98u8, 108u8, 101u8]
}

/// Parse one datagram of the remote control channel: exactly the literal
/// bytes `enable` and `disable` are accepted, anything else is ignored.
pub fn parse_command(data: &[u8]) -> (cmd: Option<RemoteCommand>)
    ensures
        cmd == Some(RemoteCommand::Enable) <==> data@ == enable_bytes(),
        cmd == Some(RemoteCommand::Disable) <==> data@ == disable_bytes(),
        cmd is None <==> data@ != enable_bytes() && data@ != disable_bytes(),
{
    if data.len() == 6 && data[0] == 101 && data[1] == 110 && data[2] == 97 && data[3] == 98
        && data[4] == 108 && data[5] == 101 {
        proof {
            assert(data@ =~= enable_bytes());
        }
        Some(RemoteCommand::Enable)
    } else if data.len() == 7 && data[0] == 100 && data[1] == 105 && data[2] == 115 && data[3]
        == 97 && data[4] == 98 && data[5] == 108 && data[6] == 101 {
        proof {
            assert(data@ =~= disable_bytes());
        }
        Some(RemoteCommand::Disable)
    } else {
        proof {
            if data@ == enable_bytes() {
                assert(data@.len() == 6);
                assert(false);
            }
            if data@ == disable_bytes() {
                assert(data@.len() == 7);
                assert(false);
            }
        }
        None
    }
}

/// The enable flag after one remote command: `enable` enables it, `disable`
/// disables it, exactly as a matching key event would.
pub open spec fn gate_after_command(cmd: RemoteCommand) -> bool {
    match cmd {
        RemoteCommand::Enable => true,
        RemoteCommand::Disable => false,
    }
}

/// Apply a remote command to the enable flag.
pub fn apply_command(gate: &mut bool, cmd: RemoteCommand)
    ensures
        *final(gate) == gate_after_command(cmd),
{
    match cmd {
        RemoteCommand::Enable => {
            *gate = true;
        },
        RemoteCommand::Disable => {
            *gate = false;
        },
    }
}

} // verus!
