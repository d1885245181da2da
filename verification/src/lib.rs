//! Drives one virtual keyboard on a Wayland compositor for many callers.
//!
//! The library holds the decisions: what the compositor's announcements mean,
//! which objects may be bound, what each call of the daemon does to the
//! device and what it sends. The program around it owns the connection and
//! performs what the library hands out.

pub mod error;
pub mod modifiers;
pub mod keycode;
pub mod registry;
pub mod protocol;
pub mod args;
pub mod state;
pub mod handshake;
pub mod keyboard;
pub mod daemon;
pub mod exclusion;
pub mod lifecycle;
pub mod msg;
pub mod ipc;
pub mod ui;
