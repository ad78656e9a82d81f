//! Plain-value event types crossing the library boundary.
//!
//! Key codes are the raw numeric codes of the input device's code space; the
//! device layer converts its own event types to and from these records.

use vstd::prelude::*;

verus! {

/// Capture time of an event: seconds and microseconds, as the device layer
/// reports them. The library only passes timestamps through.
#[derive(Clone, Copy, PartialEq, Eq, Structural, Debug)]
pub struct Timestamp {
    pub sec: i64,
    pub usec: i64,
}

/// One key-state change read from the physical device.
#[derive(Clone, Copy, PartialEq, Eq, Structural, Debug)]
pub struct KeyEvent {
    pub code: u16,
    pub pressed: bool,
    pub time: Timestamp,
}

/// A pointer button of the virtual device.
#[derive(Clone, Copy, PartialEq, Eq, Structural, Debug)]
pub enum Button {
    Left,
    Right,
    Middle,
}

/// One event for the virtual pointer device. A tick's batch ends with `Sync`,
/// which commits the batch atomically for downstream consumers.
#[derive(Clone, Copy, PartialEq, Eq, Structural, Debug)]
pub enum OutEvent {
    Button { button: Button, pressed: bool, time: Timestamp },
    RelX { delta: i32, time: Timestamp },
    RelY { delta: i32, time: Timestamp },
    Sync { time: Timestamp },
}

} // verus!
