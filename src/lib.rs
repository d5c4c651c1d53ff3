//! Watchdog timer binding surface.
//!
//! The native watchdog library is reached through two entry points: one that
//! arms a timer under a NUL-terminated tag and one that cancels it by handle.
//! This crate owns the part of that surface that can be checked: the tag is a
//! validated, owned C string, and each operation hands its arguments to the
//! native entry point unchanged and returns what it returned, unchanged.
mod tag;
mod timer;

pub use tag::{is_valid_tag, TimerTag};
pub use timer::{cancel_timer, set_timer};
