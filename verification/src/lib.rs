//! Core of a menu-bar application's dynamic global-hotkey subsystem.
//!
//! The library owns everything about the single system-wide shortcut that can
//! be decided on plain values: translating a key name to a platform key code,
//! encoding and parsing the persisted configuration record, and the state
//! machine that keeps the in-memory shortcut state consistent with what is
//! registered with the OS hotkey facility. The host GUI layer performs the
//! actual OS registration calls and file reads/writes, and feeds their
//! outcomes back into the state machine.

pub mod config;
pub mod keys;
pub mod shortcut_manager;
