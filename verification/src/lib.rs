//! Merges a keyboard and a mouse into one virtual input device and turns mouse
//! movement into arrow-key presses.
//!
//! The verified part of the program lives here: the configuration, the
//! mouse-to-arrow state machine, the keyboard decisions (force-quit combo,
//! Caps-Lock passthrough, key repeat), and the selection and confirmation of
//! input devices. Reading devices, writing to the virtual device, threads and
//! file access are left to the program around this library.

pub mod codes;
pub mod config;
pub mod error;
pub mod arrows;
pub mod arrow_laws;
pub mod keyboard;
pub mod device;
pub mod capabilities;
