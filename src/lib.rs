//! A cooperative task runtime for a single-core microcontroller without an
//! allocator: a bounded ready queue, a single-slot mailbox, a monotonic clock
//! widened from a 24-bit hardware counter, a deadline scheduler that serves
//! many timers from one compare register, and edge-triggered GPIO wake lines.
//!
//! Hardware is represented by plain values: the clock holds the counter and
//! the overflow count, the scheduler holds the compare register's state, and
//! the GPIO lines hold the sampled pin levels. The firmware around the
//! library copies these to and from the real peripherals.
pub mod executor;
pub mod future;
pub mod channel;
pub mod time;
pub mod gpio;
pub mod runtime;
pub mod button;
pub mod led;
