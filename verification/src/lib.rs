//! A monitor that shows the input mode in the system's pointer images, and
//! the coalescing delay channel that it is built on.
//!
//! Producers report that "something changed"; a single consumer wants one
//! notification per quiet period, and only the latest one. The channel keeps
//! one pending slot that every send overwrites, and a scheduler that moves
//! the pending event into a ready queue once it has stayed unchallenged for
//! the settle delay.
//!
//! Nothing in this crate blocks, sleeps, locks or reads a clock. Every
//! operation is a transition of one plain value, [`channel::Shared`], takes
//! the current time as an argument, and returns what the caller has to do
//! next: whom to wake, how long to wait. The embedding program keeps that
//! value behind its lock, reads its monotonic clock, performs the waits and
//! wake-ups, and calls back in.
//!
//! - [`model`] is the channel as mathematics: its state and transitions.
//! - [`channel`] is the channel as code, each operation tied to the model.
//! - [`trace`] tells what histories of operations are, and [`laws`] proves
//!   what holds of all of them: coalescing, latency, order, closing.
//! - [`cursor`] and [`monitor`] decide which pointer images to install, and
//!   which keyboard events are worth a signal.
pub mod channel;
pub mod cursor;
pub mod laws;
pub mod model;
pub mod monitor;
pub mod trace;
