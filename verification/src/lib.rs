//! Model of a small board bring-up firmware: a status LED blinking on a fixed
//! period and a parallel-bus TFT display brought to a known visible state,
//! both run by a single-threaded cooperative scheduler.
//!
//! GPIO lines are modeled as exclusively owned values carrying a logic level;
//! the components that drive them (bus adapter, control-line sequencer,
//! bring-up procedure, blink task, scheduler) are verified against that model.

pub mod blink;
pub mod bringup;
pub mod bus;
pub mod level;
pub mod sched;
pub mod sequencer;
