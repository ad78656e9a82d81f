//! The key-to-action mapping and the motion resolver.

use vstd::prelude::*;

use crate::keys::KeyStateTracker;

verus! {

/// Default key codes: I/J/K/L move the pointer, S/D/F click, Escape quits.
pub const DEFAULT_UP_KEY: u16 = 23;

pub const DEFAULT_LEFT_KEY: u16 = 36;

pub const DEFAULT_DOWN_KEY: u16 = 37;

pub const DEFAULT_RIGHT_KEY: u16 = 38;

pub const DEFAULT_CLICK_LEFT_KEY: u16 = 31;

pub const DEFAULT_CLICK_MIDDLE_KEY: u16 = 32;

pub const DEFAULT_CLICK_RIGHT_KEY: u16 = 33;

pub const DEFAULT_QUIT_KEY: u16 = 1;

/// The fixed mapping from key codes to semantic actions, loaded once at
/// startup. Enable and disable keys are optional: the enable flag can also
/// be driven over the remote control channel alone.
#[derive(Clone, Copy, PartialEq, Eq, Structural, Debug)]
pub struct ActionMap {
    pub up_key: u16,
    pub down_key: u16,
    pub left_key: u16,
    pub right_key: u16,
    pub click_left_key: u16,
    pub click_middle_key: u16,
    pub click_right_key: u16,
    pub enable_key: Option<u16>,
    pub disable_key: Option<u16>,
    /// When true, the disable key triggers on release rather than on press.
    pub disable_on_release: bool,
    pub quit_key: u16,
}

impl ActionMap {
    /// The default mapping: IJKL to move, SDF to click, Escape to quit, and
    /// no enable or disable key (the enable flag is driven remotely).
    pub fn new_default() -> (m: ActionMap)
        ensures
            m == default_map(),
    {
        ActionMap {
            up_key: DEFAULT_UP_KEY,
            down_key: DEFAULT_DOWN_KEY,
            left_key: DEFAULT_LEFT_KEY,
            right_key: DEFAULT_RIGHT_KEY,
            click_left_key: DEFAULT_CLICK_LEFT_KEY,
            click_middle_key: DEFAULT_CLICK_MIDDLE_KEY,
            click_right_key: DEFAULT_CLICK_RIGHT_KEY,
            enable_key: None,
            disable_key: None,
            disable_on_release: false,
            quit_key: DEFAULT_QUIT_KEY,
        }
    }
}

/// The default mapping as a value.
pub open spec fn default_map() -> ActionMap {
    ActionMap {
        up_key: DEFAULT_UP_KEY,
        down_key: DEFAULT_DOWN_KEY,
        left_key: DEFAULT_LEFT_KEY,
        right_key: DEFAULT_RIGHT_KEY,
        click_left_key: DEFAULT_CLICK_LEFT_KEY,
        click_middle_key: DEFAULT_CLICK_MIDDLE_KEY,
        click_right_key: DEFAULT_CLICK_RIGHT_KEY,
        enable_key: None,
        disable_key: None,
        disable_on_release: false,
        quit_key: DEFAULT_QUIT_KEY,
    }
}

/// Per-axis directional intents and per-button click intents for one tick.
/// Opposing directions may both be true; they cancel downstream when the net
/// displacement is computed.
#[derive(Clone, Copy, PartialEq, Eq, Structural, Debug)]
pub struct Intents {
    pub up: bool,
    pub down: bool,
    pub left: bool,
    pub right: bool,
    pub click_left: bool,
    pub click_middle: bool,
    pub click_right: bool,
}

/// What the held-key set means under a mapping: each intent is true exactly
/// when the code mapped to that action is held.
pub open spec fn resolve_spec(held: Set<u16>, map: ActionMap) -> Intents {
    Intents {
        up: held.contains(map.up_key),
        down: held.contains(map.down_key),
        left: held.contains(map.left_key),
        right: held.contains(map.right_key),
        click_left: held.contains(map.click_left_key),
        click_middle: held.contains(map.click_middle_key),
        click_right: held.contains(map.click_right_key),
    }
}

/// Map the held-key set to directional and click intents. A pure function of
/// the held set and the mapping: the result is pinned to `resolve_spec`, so
/// identical inputs always produce identical outputs.
pub fn resolve(keys: &KeyStateTracker, map: &ActionMap) -> (r: Intents)
    ensures
        r == resolve_spec(keys@, *map),
{
    Intents {
        up: keys.is_held(map.up_key),
        down: keys.is_held(map.down_key),
        left: keys.is_held(map.left_key),
        right: keys.is_held(map.right_key),
        click_left: keys.is_held(map.click_left_key),
        click_middle: keys.is_held(map.click_middle_key),
        click_right: keys.is_held(map.click_right_key),
    }
}

/// Law: with no key held, every intent is false, under any mapping.
pub proof fn lemma_resolve_no_keys(map: ActionMap)
    ensures
        resolve_spec(Set::empty(), map) == (Intents {
            up: false,
            down: false,
            left: false,
            right: false,
            click_left: false,
            click_middle: false,
            click_right: false,
        }),
{
}

} // verus!
