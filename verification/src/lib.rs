//! The decision logic of a background thread that keeps a timer running.
//!
//! A driver thread polls a timer, advances it, asks it for its next deadline
//! and then sleeps until that deadline or until it is woken. Its controller
//! starts it, hands out the timer's handle, and stops it or lets it go.
//! Everything the two decide is written here as functions from plain values
//! to plain values, each with a contract; the thread itself, its wake token
//! and the shared shutdown flag stay with the caller.
//!
//! - `time`: points and lengths of time.
//! - `sleep`: how long to block, given the next deadline and the clock.
//! - `driver`: the loop of the driver thread, as a state machine.
//! - `controller`: the owner of the thread, and the order of a shutdown.
//! - `protocol`: both sides in one world with the threads around them.
//! - `guarantees`: what holds in that world however its events come.

pub mod controller;
pub mod driver;
pub mod guarantees;
pub mod protocol;
pub mod sleep;
pub mod time;

pub use crate::controller::HelperThread;
