use vstd::prelude::*;

use crate::error::IoError;
use crate::params::SerialParams;

verus! {

/// An intent sent to the worker thread. The worker takes commands one at
/// a time, in the order they were sent.
#[derive(Debug)]
pub enum Command {
    /// Stop the worker: close the device and exit.
    Cancel,
    /// Check how many bytes the device has queued and pass them on.
    PollRead,
    /// Transmit these bytes, all of them.
    Send(Vec<u8>),
    /// Apply new line settings; the outcome goes back to the requester only.
    SetParams(SerialParams),
    /// Acknowledge once every earlier `Send` has been written to the device.
    Flush,
}

/// A result published by the worker to the caller-side adapter.
#[derive(Debug)]
pub enum Event {
    /// Bytes read from the device.
    Data(Vec<u8>),
    /// A fatal condition: the worker has stopped.
    Error(IoError),
}

} // verus!
