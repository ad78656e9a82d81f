//! Keyboard-driven pointer emulation: the verified core.
//!
//! Holding directional keys accelerates a virtual pointer along the
//! corresponding axis, and designated keys stand for mouse buttons. The
//! modules here hold the state machines and the per-tick decision logic;
//! device I/O stays outside the library and hands plain values in and out.

pub mod actions;
pub mod capture;
pub mod config;
pub mod engine;
pub mod events;
pub mod keys;
pub mod ramp;
pub mod reader;
