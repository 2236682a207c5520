//! Fixed-cadence scheduling of uptime checks.
//!
//! Every monitor gets a loop of its own that never ends: open a tracing
//! span, probe the target with the prober of the monitor's protocol, report
//! a failure if there was one, close the span, and pause for what is left of
//! the interval. A failed or slow check never stops its loop, and no loop
//! ever waits for another.
//!
//! The library decides and the caller acts. A loop is a state machine that
//! asks for one action at a time; the caller opens the span, awaits the
//! probe, sleeps, and hands back the event that ends the action.
//!
//! - `monitor`: what is checked.
//! - `dispatch`: which prober checks it, and what the prober's answer means.
//! - `cadence`: how long to pause after the work.
//! - `cycle`: the loop of one monitor.
//! - `scheduler`: one loop per monitor, and the probers they share.

pub mod cadence;
mod clock;
pub mod cycle;
pub mod dispatch;
pub mod monitor;
pub mod scheduler;
