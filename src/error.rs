use vstd::prelude::*;

verus! {

/// The category of an error, kept when the error is cloned.
#[derive(Clone, Copy, Debug, PartialEq, Eq, Structural)]
pub enum ErrorKind {
    /// A driver-reported or channel failure.
    Other,
    /// The driver returned fewer bytes than were already known to be queued.
    TimedOut,
}

/// An error surfaced to the caller: a kind and a human-readable message.
#[derive(Debug)]
pub struct IoError {
    pub kind: ErrorKind,
    pub message: String,
}

/// The lowest and highest status codes that the driver uses for a failure
/// (zero means success).
pub const FIRST_STATUS_CODE: u32 = 1;
pub const LAST_STATUS_CODE: u32 = 19;

/// A code that the driver reports for a failed call.
pub open spec fn is_status_code(code: u32) -> bool {
    FIRST_STATUS_CODE <= code <= LAST_STATUS_CODE
}

/// The text that the driver's binding prints for a failure status.
pub uninterp spec fn status_display(code: u32) -> Seq<char>;

/// Relies on libftd2xx: `FtStatus::from` maps every failure code to its
/// variant (it panics only on zero and on unknown codes, which `requires`
/// leaves out), and the `Display` impl of `FtStatus` gives its text, which
/// depends on the code alone.
#[verifier::external_body]
fn status_text(code: u32) -> (r: String)
    requires
        is_status_code(code),
    ensures
        r@ == status_display(code),
{
    libftd2xx::FtStatus::from(code).to_string()
}

/// The error that reports a driver failure status: kind `Other`, with the
/// driver binding's text for the status.
pub fn status_to_io_error(status: u32) -> (r: IoError)
    requires
        is_status_code(status),
    ensures
        r.kind == ErrorKind::Other,
        r.message@ == status_display(status),
{
    IoError { kind: ErrorKind::Other, message: status_text(status) }
}

/// A copy of `err`: same kind, same message.
pub fn clone_io_error(err: &IoError) -> (r: IoError)
    ensures
        r.same_as(err),
{
    IoError { kind: err.kind, message: err.message.clone() }
}

impl IoError {
    /// Two errors carry the same kind and the same message.
    pub open spec fn same_as(&self, other: &IoError) -> bool {
        self.kind == other.kind && self.message@ == other.message@
    }

    pub fn new(kind: ErrorKind, message: String) -> (r: IoError)
        ensures
            r.kind == kind,
            r.message@ == message@,
    {
        IoError { kind, message }
    }

    pub fn kind(&self) -> (r: ErrorKind)
        ensures
            r == self.kind,
    {
        self.kind
    }

    /// The message, as text (this type has no `Display`).
    pub fn to_string(&self) -> (r: String)
        ensures
            r@ == self.message@,
    {
        self.message.clone()
    }

    /// The error raised when the other end of a command or event channel
    /// has gone away.
    pub fn disconnected() -> (r: IoError)
        ensures
            r.kind == ErrorKind::Other,
            r.message@ == disconnected_message(),
    {
        proof {
            reveal_strlit("Disconnected");
        }
        IoError { kind: ErrorKind::Other, message: "Disconnected".to_string() }
    }

    /// The error raised when the driver hands back fewer bytes than it had
    /// just reported as queued.
    pub fn drain_timeout() -> (r: IoError)
        ensures
            r.kind == ErrorKind::TimedOut,
            r.message@ == drain_timeout_message(),
    {
        proof {
            reveal_strlit("Timeout occurred emptying buffer");
        }
        IoError { kind: ErrorKind::TimedOut, message: "Timeout occurred emptying buffer".to_string() }
    }
}

pub open spec fn disconnected_message() -> Seq<char> {
    "Disconnected"@
}

pub open spec fn drain_timeout_message() -> Seq<char> {
    "Timeout occurred emptying buffer"@
}

} // verus!
