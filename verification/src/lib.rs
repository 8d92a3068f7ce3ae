//! Control core of a background utility that toggles a floating window,
//! restores operating-system focus after hiding it, and supports a
//! time-bounded "snooze" mode during which show requests are suppressed.
//!
//! The library is pure logic: it decides, the host performs. Commands
//! from any trigger source (a tray menu, the argument list of a
//! single-instance relaunch, a tray-icon click) are normalized by
//! [`command`] into one closed vocabulary and applied by the
//! [`coordinator`] state machine, which owns the [`focus`] memory and
//! the [`snooze`] clock and answers with directives for an unverified
//! host to execute in order: show or hide the window, emit a UI event,
//! schedule the delayed hide completion that hands focus back. The
//! guarantees are stated and proved in [`laws`].

pub mod command;
pub mod coordinator;
pub mod focus;
pub mod laws;
pub mod snooze;
