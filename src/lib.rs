//! Decision logic for driving a blocking FTDI serial device from an
//! event-loop caller: the worker's command protocol, the caller-side read
//! buffer with its sticky error, and the wake-up/cancellation protocol of
//! the receive notifier.

pub mod error;
pub mod params;
pub mod protocol;
pub mod worker;
pub mod adapter;
pub mod notifier;

pub use error::{clone_io_error, status_to_io_error, ErrorKind, IoError};
pub use params::{DataBits, Parity, SerialParams, StopBits};
