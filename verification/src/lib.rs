//! Event-coalescing state-synchronization core for a small status display.
//!
//! Three cooperative activities share one status record: two producers write
//! individual fields of the record, and a renderer turns a consistent snapshot
//! of it into a fixed set of drawing operations. A single-slot notifier
//! coalesces any number of writes between two renderer wake-ups into exactly
//! one wake-up. The hardware edges (timers, pins, the pixel bus) live outside
//! this crate; the logic here works on plain values.

pub mod status;
pub mod notify;
pub mod store;
pub mod producer;
pub mod render;
pub mod pixels;
