//! Decision logic of an interval timer for workout repetitions.
//!
//! The library reads no keyboard and sleeps not. [`keys`] turns a batch of
//! pending keystrokes into a poll result. [`schedule`] lists the frames of a
//! run, one per second. [`session`] is the state machine that decides, from
//! each poll result, which frame to show next, when to pause and when the run
//! is over; [`laws`] states what holds of its runs. [`screen`] composes the
//! text that draws a frame. A front end performs the actions that a session
//! returns (draw, sleep, read the keyboard) and hands back what it read.
use vstd::prelude::*;

pub mod keys;
pub mod laws;
pub mod schedule;
pub mod screen;
pub mod session;

verus! {

} // verus!
