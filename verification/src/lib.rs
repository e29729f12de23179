//! A high-resolution timer driver that serves many asynchronous sleepers from one spinning
//! thread. This crate holds the driver's decisions, its timer queue, the interval arithmetic and
//! the sleep-future state machine; the threads, channels and clock reads live around it.
pub mod time;
pub mod report;
pub mod builder;
pub mod driver;
pub mod util;
pub mod sleep;
pub mod queue;
