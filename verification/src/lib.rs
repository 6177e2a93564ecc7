//! A single-job shutdown scheduler: a countdown that can be replaced or
//! cancelled at any time, reports its progress once per tick, and asks for
//! the terminal action exactly once when its deadline is reached.
//!
//! The engine never reads a clock and never performs the terminal action
//! itself. Its driver hands it the current instant, in milliseconds on a
//! clock of the driver's choosing, and carries out the action it returns.

pub mod duration;
pub mod engine;
pub mod future_time;
pub mod laws;
pub mod parse;
