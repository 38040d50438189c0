//! A small rule engine that maps the identity of the focused window
//! (its title and the path of the executable that owns it) to a desired
//! pointer speed, together with the apply-only-if-changed reconciliation
//! policy around it.
//!
//! The platform binding (foreground-window notifications, reading and
//! writing the global pointer-speed setting, locating and parsing the
//! configuration file) lives outside this library and hands it plain
//! strings and integers.

pub mod laws;
pub mod matching;
pub mod reconciler;
pub mod rules;
pub mod template;
pub mod wide;
