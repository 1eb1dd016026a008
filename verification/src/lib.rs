//! Low-latency mode of Linux serial lines: the flag arithmetic on the serial
//! structure and the two-call exchange with the driver, as a machine that
//! performs no I/O itself.

pub mod errno;
pub mod flags;
pub mod latency;
pub mod port;
pub mod serial;
pub mod toggle;

pub use latency::{disable_low_latency, enable_low_latency, update_low_latency};
