//! A keystroke-automation engine: a session is armed with a text payload and
//! a per-character delay range, a global hotkey release triggers playback,
//! and a second hotkey cancels it mid-job.
//!
//! The crate holds the engine's logic: the watcher that reduces raw key
//! events to semantic signals, the controller that owns the arming state and
//! decides whether a signal dispatches a job, and the worker that streams a
//! job's characters with randomized pacing under cooperative cancellation.
//! Delivering raw events, injecting keystrokes and presenting progress are
//! left to the surrounding application.

pub mod controller;
pub mod pacing;
pub mod session;
pub mod watcher;
pub mod worker;
