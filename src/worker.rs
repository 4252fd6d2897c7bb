use vstd::prelude::*;

use crate::error::{is_status_code, status_display, status_to_io_error, ErrorKind, IoError};
use crate::params::SerialParams;
use crate::protocol::Command;

verus! {

/// Read timeout configured on the device when it is opened.
pub const READ_TIMEOUT_MS: u64 = 100;

/// Write timeout configured on the device when it is opened.
pub const WRITE_TIMEOUT_MS: u64 = 100;

/// Latency timer configured on the device when it is opened.
pub const LATENCY_TIMER_MS: u64 = 2;

/// One device call of the setup sequence. Opening runs all of them in
/// declaration order; a reconfiguration runs `BaudRate` and then
/// `DataCharacteristics`.
#[derive(Clone, Copy, Debug, PartialEq, Eq, Structural)]
pub enum SetupStep {
    OpenDevice,
    Timeouts,
    Latency,
    BaudRate,
    DataCharacteristics,
    Notifier,
}

/// Which outcome the worker is waiting for.
#[derive(Clone, Copy, Debug, PartialEq, Eq, Structural)]
pub enum Phase {
    /// A step of the open sequence is outstanding.
    Opening(SetupStep),
    /// A step of a `SetParams` request is outstanding.
    Reconfiguring(SetupStep),
    /// The next command is awaited.
    AwaitingCommand,
    /// A write of the unsent rest of a `Send` payload is outstanding.
    Writing,
    /// A query of the device's receive queue is outstanding.
    QueryingQueue,
    /// A read of exactly the queued byte count is outstanding.
    Reading,
    /// Handing the bytes read to the event channel is outstanding.
    Publishing,
    /// The worker has shut down; no device call follows.
    Stopped,
}

/// What a failed setup step reports.
#[derive(Debug)]
pub enum Failure {
    /// The driver returned this failure status.
    Status(u32),
    /// The operating system refused a resource (wait primitive, thread).
    Os(IoError),
}

/// The outcome of writing the unsent rest of a payload.
#[derive(Clone, Copy, Debug, PartialEq, Eq, Structural)]
pub enum WriteOutcome {
    /// Every byte handed over was accepted.
    Complete,
    /// The write timed out after the device accepted `actual` bytes.
    Timeout { actual: usize },
    /// The driver returned this failure status.
    Failed(u32),
}

/// The outcome of reading exactly the queued byte count.
#[derive(Debug)]
pub enum ReadOutcome {
    /// The bytes read.
    Complete(Vec<u8>),
    /// The driver returned fewer bytes than it had reported as queued.
    Timeout,
    /// The driver returned this failure status.
    Failed(u32),
}

/// The next thing the thread that runs the worker must do. After
/// `OpenSucceeded`, `NextCommand`, `ReplyParams` and `AcknowledgeFlush` it
/// waits for the next
/// command; after `OpenFailed` and `Shutdown` it exits.
#[derive(Debug)]
pub enum Request {
    /// Open the device by its serial number.
    OpenDevice,
    SetTimeouts { read_ms: u64, write_ms: u64 },
    SetLatencyTimer { ms: u64 },
    SetBaudRate { baud: u32 },
    SetDataCharacteristics { params: SerialParams },
    /// Register for receive notifications and start the notifier threads.
    StartNotifier,
    /// Report success on the open channel.
    OpenSucceeded,
    /// Report `error` on the open channel, close the device if
    /// `close_device`, and exit.
    OpenFailed { error: IoError, close_device: bool },
    /// Receive the next command.
    NextCommand,
    /// Write all of `data` to the device.
    Write { data: Vec<u8> },
    /// Ask the device how many received bytes it holds.
    QueueStatus,
    /// Read exactly `len` bytes from the device.
    ReadExact { len: usize },
    /// Send `Event::Data(data)` to the adapter.
    Publish { data: Vec<u8> },
    /// Send `result` to the requester of a `SetParams` command.
    ReplyParams { result: Result<(), IoError> },
    /// Tell the requester of a `Flush` command that every earlier write
    /// has reached the device.
    AcknowledgeFlush,
    /// Send `Event::Error` for `fatal` if there is one, close the device,
    /// signal completion, and exit.
    Shutdown { fatal: Option<IoError> },
    /// Nothing: the worker has already shut down.
    Idle,
}

/// The worker's decisions: which device call comes next, given the
/// outcome of the last one. It owns no device; the thread that runs it
/// performs each request and reports the outcome.
pub struct Worker {
    pub phase: Phase,
    /// Line settings of the setup sequence in progress, or last requested.
    pub params: SerialParams,
    /// Payload of the `Send` being written.
    pub pending: Vec<u8>,
    /// How many bytes of `pending` the device has accepted.
    pub offset: usize,
    /// Byte count of the outstanding read.
    pub read_len: usize,
    /// All bytes of the `Send` commands taken so far, in order.
    pub enqueued: Ghost<Seq<u8>>,
    /// All bytes the device has accepted, in order.
    pub accepted: Ghost<Seq<u8>>,
}

/// The error that a failed step reports.
pub open spec fn failure_error(f: Failure, e: IoError) -> bool {
    match f {
        Failure::Status(code) => e.kind == ErrorKind::Other && e.message@ == status_display(code),
        Failure::Os(err) => e == err,
    }
}

pub open spec fn failure_ok(f: Failure) -> bool {
    f matches Failure::Status(code) ==> is_status_code(code)
}

fn into_error(f: Failure) -> (r: IoError)
    requires
        failure_ok(f),
    ensures
        failure_error(f, r),
{
    match f {
        Failure::Status(code) => status_to_io_error(code),
        Failure::Os(err) => err,
    }
}

/// The bytes of `data` from index `from` on.
fn tail_of(data: &Vec<u8>, from: usize) -> (r: Vec<u8>)
    requires
        from <= data.len(),
    ensures
        r@ == data@.subrange(from as int, data.len() as int),
{
    let mut r: Vec<u8> = Vec::new();
    let mut i: usize = from;
    while i < data.len()
        invariant
            from <= i <= data.len(),
            r@ == data@.subrange(from as int, i as int),
        decreases data.len() - i,
    {
        r.push(data[i]);
        i = i + 1;
        assert(r@ =~= data@.subrange(from as int, i as int));
    }
    r
}

/// The request that starts `step` of a setup sequence with `params`.
pub open spec fn starts_step(step: SetupStep, params: SerialParams, r: Request) -> bool {
    match step {
        SetupStep::OpenDevice => r is OpenDevice,
        SetupStep::Timeouts => r == (Request::SetTimeouts {
            read_ms: READ_TIMEOUT_MS,
            write_ms: WRITE_TIMEOUT_MS,
        }),
        SetupStep::Latency => r == (Request::SetLatencyTimer { ms: LATENCY_TIMER_MS }),
        SetupStep::BaudRate => r == (Request::SetBaudRate { baud: params.baud }),
        SetupStep::DataCharacteristics => r == (Request::SetDataCharacteristics { params }),
        SetupStep::Notifier => r is StartNotifier,
    }
}

/// The step of the open sequence that follows `step`.
pub open spec fn next_open_step(step: SetupStep) -> SetupStep {
    match step {
        SetupStep::OpenDevice => SetupStep::Timeouts,
        SetupStep::Timeouts => SetupStep::Latency,
        SetupStep::Latency => SetupStep::BaudRate,
        SetupStep::BaudRate => SetupStep::DataCharacteristics,
        _ => SetupStep::Notifier,
    }
}

impl Worker {
    pub open spec fn wf(&self) -> bool {
        &&& self.phase matches Phase::Reconfiguring(s) ==> (s is BaudRate || s is DataCharacteristics)
        &&& self.phase is Reading ==> self.read_len > 0
        &&& self.phase is Writing ==> {
            &&& self.offset <= self.pending@.len()
            &&& self.enqueued@ == self.accepted@ + self.pending@.subrange(
                self.offset as int,
                self.pending@.len() as int,
            )
        }
        &&& !(self.phase is Writing) && !(self.phase is Stopped) ==> self.enqueued@
            == self.accepted@
    }

    /// Every field but the phase is kept.
    pub open spec fn moved_to(self, post: Worker, phase: Phase) -> bool {
        post == Worker { phase, ..self }
    }

    /// The unsent rest of the payload being written.
    pub open spec fn unsent(self) -> Seq<u8> {
        self.pending@.subrange(self.offset as int, self.pending@.len() as int)
    }

    /// Outcome of `start`.
    pub open spec fn started(params: SerialParams, w: Worker, r: Request) -> bool {
        &&& w.phase == Phase::Opening(SetupStep::OpenDevice)
        &&& w.params == params
        &&& w.enqueued@ == Seq::<u8>::empty()
        &&& w.accepted@ == Seq::<u8>::empty()
        &&& r is OpenDevice
    }

    /// Outcome of `on_setup_result`: on success the next step of the
    /// sequence, or its conclusion; on failure, during opening, the open
    /// fails (closing the device once it was opened); during a
    /// reconfiguration, only the requester learns of it.
    pub open spec fn setup_step(
        pre: Worker,
        result: Result<(), Failure>,
        post: Worker,
        r: Request,
    ) -> bool {
        match pre.phase {
            Phase::Opening(step) => match result {
                Ok(()) => if step is Notifier {
                    pre.moved_to(post, Phase::AwaitingCommand) && r is OpenSucceeded
                } else {
                    &&& pre.moved_to(post, Phase::Opening(next_open_step(step)))
                    &&& starts_step(next_open_step(step), pre.params, r)
                },
                Err(f) => {
                    &&& pre.moved_to(post, Phase::Stopped)
                    &&& r matches Request::OpenFailed { error, close_device }
                    &&& failure_error(f, error)
                    &&& close_device == !(step is OpenDevice)
                },
            },
            Phase::Reconfiguring(step) => match result {
                Ok(()) => if step is BaudRate {
                    &&& pre.moved_to(post, Phase::Reconfiguring(SetupStep::DataCharacteristics))
                    &&& starts_step(SetupStep::DataCharacteristics, pre.params, r)
                } else {
                    pre.moved_to(post, Phase::AwaitingCommand) && r == (Request::ReplyParams {
                        result: Ok(()),
                    })
                },
                Err(f) => {
                    &&& pre.moved_to(post, Phase::AwaitingCommand)
                    &&& r matches Request::ReplyParams { result: Err(error) }
                    &&& failure_error(f, error)
                },
            },
            _ => post == pre && r is Idle,
        }
    }

    /// Outcome of `on_command` (`None`: every sender is gone).
    pub open spec fn command_step(
        pre: Worker,
        cmd: Option<Command>,
        post: Worker,
        r: Request,
    ) -> bool {
        if pre.phase is Stopped {
            post == pre && r is Idle
        } else {
            match cmd {
                None => pre.moved_to(post, Phase::Stopped) && r == (Request::Shutdown {
                    fatal: None,
                }),
                Some(Command::Cancel) => pre.moved_to(post, Phase::Stopped) && r == (
                Request::Shutdown { fatal: None }),
                Some(Command::PollRead) => pre.moved_to(post, Phase::QueryingQueue)
                    && r is QueueStatus,
                Some(Command::Send(data)) => {
                    &&& post.phase == Phase::Writing
                    &&& post.pending == data
                    &&& post.offset == 0
                    &&& post.params == pre.params
                    &&& post.read_len == pre.read_len
                    &&& post.accepted == pre.accepted
                    &&& post.enqueued@ == pre.enqueued@ + data@
                    &&& r matches Request::Write { data: d }
                    &&& d@ == data@
                },
                Some(Command::Flush) => post == pre && r is AcknowledgeFlush,
                Some(Command::SetParams(p)) => {
                    &&& post == Worker {
                        phase: Phase::Reconfiguring(SetupStep::BaudRate),
                        params: p,
                        ..pre
                    }
                    &&& starts_step(SetupStep::BaudRate, p, r)
                },
            }
        }
    }

    /// Outcome of `on_write`: a complete write finishes the payload; a
    /// timeout writes the unsent rest again; a failure shuts down.
    pub open spec fn write_step(pre: Worker, outcome: WriteOutcome, post: Worker, r: Request) -> bool {
        if pre.phase is Stopped {
            post == pre && r is Idle
        } else {
            match outcome {
                WriteOutcome::Complete => {
                    &&& post == Worker {
                        phase: Phase::AwaitingCommand,
                        accepted: Ghost(pre.accepted@ + pre.unsent()),
                        ..pre
                    }
                    &&& r is NextCommand
                },
                WriteOutcome::Timeout { actual } => {
                    &&& post == Worker {
                        offset: (pre.offset + actual) as usize,
                        accepted: Ghost(pre.accepted@ + pre.unsent().take(actual as int)),
                        ..pre
                    }
                    &&& r matches Request::Write { data }
                    &&& data@ == pre.unsent().skip(actual as int)
                },
                WriteOutcome::Failed(code) => {
                    &&& pre.moved_to(post, Phase::Stopped)
                    &&& r matches Request::Shutdown { fatal: Some(e) }
                    &&& e.kind == ErrorKind::Other
                    &&& e.message@ == status_display(code)
                },
            }
        }
    }

    /// Outcome of `on_queue_status`: nothing queued is an idle wake; a
    /// positive count asks for exactly that many bytes.
    pub open spec fn queue_step(
        pre: Worker,
        result: Result<usize, u32>,
        post: Worker,
        r: Request,
    ) -> bool {
        if pre.phase is Stopped {
            post == pre && r is Idle
        } else {
            match result {
                Ok(n) => if n == 0 {
                    pre.moved_to(post, Phase::AwaitingCommand) && r is NextCommand
                } else {
                    &&& post == Worker { phase: Phase::Reading, read_len: n, ..pre }
                    &&& r == (Request::ReadExact { len: n })
                },
                Err(code) => {
                    &&& pre.moved_to(post, Phase::Stopped)
                    &&& r matches Request::Shutdown { fatal: Some(e) }
                    &&& e.kind == ErrorKind::Other
                    &&& e.message@ == status_display(code)
                },
            }
        }
    }

    /// Outcome of `on_read`: the bytes read are published as they are; a
    /// timeout or a failure shuts down.
    pub open spec fn read_step(pre: Worker, outcome: ReadOutcome, post: Worker, r: Request) -> bool {
        if pre.phase is Stopped {
            post == pre && r is Idle
        } else {
            match outcome {
                ReadOutcome::Complete(bytes) => {
                    &&& pre.moved_to(post, Phase::Publishing)
                    &&& r == (Request::Publish { data: bytes })
                },
                ReadOutcome::Timeout => {
                    &&& pre.moved_to(post, Phase::Stopped)
                    &&& r matches Request::Shutdown { fatal: Some(e) }
                    &&& e.kind == ErrorKind::TimedOut
                },
                ReadOutcome::Failed(code) => {
                    &&& pre.moved_to(post, Phase::Stopped)
                    &&& r matches Request::Shutdown { fatal: Some(e) }
                    &&& e.kind == ErrorKind::Other
                    &&& e.message@ == status_display(code)
                },
            }
        }
    }

    /// Outcome of `on_published`: if the adapter is gone, the worker shuts
    /// down without an error event.
    pub open spec fn publish_step(pre: Worker, delivered: bool, post: Worker, r: Request) -> bool {
        if pre.phase is Stopped {
            post == pre && r is Idle
        } else if delivered {
            pre.moved_to(post, Phase::AwaitingCommand) && r is NextCommand
        } else {
            pre.moved_to(post, Phase::Stopped) && r == (Request::Shutdown { fatal: None })
        }
    }

    /// A worker about to open the device with `params`.
    pub fn start(params: SerialParams) -> (res: (Worker, Request))
        ensures
            res.0.wf(),
            Self::started(params, res.0, res.1),
    {
        let w = Worker {
            phase: Phase::Opening(SetupStep::OpenDevice),
            params,
            pending: Vec::new(),
            offset: 0,
            read_len: 0,
            enqueued: Ghost(Seq::empty()),
            accepted: Ghost(Seq::empty()),
        };
        (w, Request::OpenDevice)
    }

    /// The phase, for the thread that runs the worker.
    pub fn phase(&self) -> (r: Phase)
        ensures
            r == self.phase,
    {
        self.phase
    }

    fn setup_request(step: SetupStep, params: SerialParams) -> (r: Request)
        ensures
            starts_step(step, params, r),
    {
        match step {
            SetupStep::OpenDevice => Request::OpenDevice,
            SetupStep::Timeouts => Request::SetTimeouts {
                read_ms: READ_TIMEOUT_MS,
                write_ms: WRITE_TIMEOUT_MS,
            },
            SetupStep::Latency => Request::SetLatencyTimer { ms: LATENCY_TIMER_MS },
            SetupStep::BaudRate => Request::SetBaudRate { baud: params.baud },
            SetupStep::DataCharacteristics => Request::SetDataCharacteristics { params },
            SetupStep::Notifier => Request::StartNotifier,
        }
    }

    /// Takes the outcome of the outstanding setup step.
    pub fn on_setup_result(&mut self, result: Result<(), Failure>) -> (r: Request)
        requires
            old(self).wf(),
            result matches Err(f) ==> failure_ok(f),
        ensures
            final(self).wf(),
            Self::setup_step(*old(self), result, *final(self), r),
    {
        match self.phase {
            Phase::Opening(step) => match result {
                Ok(()) => match step {
                    SetupStep::Notifier => {
                        self.phase = Phase::AwaitingCommand;
                        Request::OpenSucceeded
                    },
                    _ => {
                        let next = match step {
                            SetupStep::OpenDevice => SetupStep::Timeouts,
                            SetupStep::Timeouts => SetupStep::Latency,
                            SetupStep::Latency => SetupStep::BaudRate,
                            SetupStep::BaudRate => SetupStep::DataCharacteristics,
                            _ => SetupStep::Notifier,
                        };
                        self.phase = Phase::Opening(next);
                        Self::setup_request(next, self.params)
                    },
                },
                Err(f) => {
                    self.phase = Phase::Stopped;
                    let close_device = match step {
                        SetupStep::OpenDevice => false,
                        _ => true,
                    };
                    Request::OpenFailed { error: into_error(f), close_device }
                },
            },
            Phase::Reconfiguring(step) => match result {
                Ok(()) => match step {
                    SetupStep::BaudRate => {
                        self.phase = Phase::Reconfiguring(SetupStep::DataCharacteristics);
                        Request::SetDataCharacteristics { params: self.params }
                    },
                    _ => {
                        self.phase = Phase::AwaitingCommand;
                        Request::ReplyParams { result: Ok(()) }
                    },
                },
                Err(f) => {
                    self.phase = Phase::AwaitingCommand;
                    Request::ReplyParams { result: Err(into_error(f)) }
                },
            },
            _ => Request::Idle,
        }
    }

    /// Takes the next command, or `None` once every sender is gone.
    pub fn on_command(&mut self, cmd: Option<Command>) -> (r: Request)
        requires
            old(self).wf(),
            old(self).phase is AwaitingCommand || old(self).phase is Stopped,
        ensures
            final(self).wf(),
            Self::command_step(*old(self), cmd, *final(self), r),
    {
        if let Phase::Stopped = self.phase {
            return Request::Idle;
        }
        match cmd {
            None => {
                self.phase = Phase::Stopped;
                Request::Shutdown { fatal: None }
            },
            Some(Command::Cancel) => {
                self.phase = Phase::Stopped;
                Request::Shutdown { fatal: None }
            },
            Some(Command::PollRead) => {
                self.phase = Phase::QueryingQueue;
                Request::QueueStatus
            },
            Some(Command::Send(data)) => {
                let copy = tail_of(&data, 0);
                assert(data@.subrange(0, data@.len() as int) =~= data@);
                self.phase = Phase::Writing;
                self.pending = data;
                self.offset = 0;
                self.enqueued = Ghost(self.enqueued@ + self.pending@);
                assert(self.pending@.subrange(0, self.pending@.len() as int) =~= self.pending@);
                Request::Write { data: copy }
            },
            Some(Command::Flush) => Request::AcknowledgeFlush,
            Some(Command::SetParams(p)) => {
                self.phase = Phase::Reconfiguring(SetupStep::BaudRate);
                self.params = p;
                Request::SetBaudRate { baud: p.baud }
            },
        }
    }

    /// Takes the outcome of the outstanding write.
    pub fn on_write(&mut self, outcome: WriteOutcome) -> (r: Request)
        requires
            old(self).wf(),
            old(self).phase is Writing || old(self).phase is Stopped,
            outcome matches WriteOutcome::Timeout { actual } ==> old(self).offset + actual
                < old(self).pending@.len(),
            outcome matches WriteOutcome::Failed(code) ==> is_status_code(code),
        ensures
            final(self).wf(),
            Self::write_step(*old(self), outcome, *final(self), r),
    {
        if let Phase::Stopped = self.phase {
            return Request::Idle;
        }
        match outcome {
            WriteOutcome::Complete => {
                self.phase = Phase::AwaitingCommand;
                self.accepted = Ghost(self.accepted@ + self.unsent());
                Request::NextCommand
            },
            WriteOutcome::Timeout { actual } => {
                let len = self.pending.len();
                assert(self.offset + actual < len);
                let ghost pre = *self;
                self.accepted = Ghost(self.accepted@ + self.unsent().take(actual as int));
                self.offset = self.offset + actual;
                let rest = tail_of(&self.pending, self.offset);
                proof {
                    let u = pre.unsent();
                    assert(u.skip(actual as int) =~= rest@);
                    assert(u =~= u.take(actual as int) + u.skip(actual as int));
                    assert(self.unsent() =~= u.skip(actual as int));
                    assert(self.enqueued@ =~= self.accepted@ + self.unsent());
                }
                Request::Write { data: rest }
            },
            WriteOutcome::Failed(code) => {
                self.phase = Phase::Stopped;
                Request::Shutdown { fatal: Some(status_to_io_error(code)) }
            },
        }
    }

    /// Takes the outcome of the outstanding receive-queue query.
    pub fn on_queue_status(&mut self, result: Result<usize, u32>) -> (r: Request)
        requires
            old(self).wf(),
            old(self).phase is QueryingQueue || old(self).phase is Stopped,
            result matches Err(code) ==> is_status_code(code),
        ensures
            final(self).wf(),
            Self::queue_step(*old(self), result, *final(self), r),
    {
        if let Phase::Stopped = self.phase {
            return Request::Idle;
        }
        match result {
            Ok(n) => if n == 0 {
                self.phase = Phase::AwaitingCommand;
                Request::NextCommand
            } else {
                self.phase = Phase::Reading;
                self.read_len = n;
                Request::ReadExact { len: n }
            },
            Err(code) => {
                self.phase = Phase::Stopped;
                Request::Shutdown { fatal: Some(status_to_io_error(code)) }
            },
        }
    }

    /// Takes the outcome of the outstanding read.
    pub fn on_read(&mut self, outcome: ReadOutcome) -> (r: Request)
        requires
            old(self).wf(),
            old(self).phase is Reading || old(self).phase is Stopped,
            outcome matches ReadOutcome::Complete(bytes) ==> old(self).phase is Reading
                ==> bytes@.len() == old(self).read_len,
            outcome matches ReadOutcome::Failed(code) ==> is_status_code(code),
        ensures
            final(self).wf(),
            Self::read_step(*old(self), outcome, *final(self), r),
    {
        if let Phase::Stopped = self.phase {
            return Request::Idle;
        }
        match outcome {
            ReadOutcome::Complete(bytes) => {
                self.phase = Phase::Publishing;
                Request::Publish { data: bytes }
            },
            ReadOutcome::Timeout => {
                self.phase = Phase::Stopped;
                Request::Shutdown { fatal: Some(IoError::drain_timeout()) }
            },
            ReadOutcome::Failed(code) => {
                self.phase = Phase::Stopped;
                Request::Shutdown { fatal: Some(status_to_io_error(code)) }
            },
        }
    }

    /// Takes whether the event carrying the bytes read reached the adapter.
    pub fn on_published(&mut self, delivered: bool) -> (r: Request)
        requires
            old(self).wf(),
            old(self).phase is Publishing || old(self).phase is Stopped,
        ensures
            final(self).wf(),
            Self::publish_step(*old(self), delivered, *final(self), r),
    {
        if let Phase::Stopped = self.phase {
            return Request::Idle;
        }
        if delivered {
            self.phase = Phase::AwaitingCommand;
            Request::NextCommand
        } else {
            self.phase = Phase::Stopped;
            Request::Shutdown { fatal: None }
        }
    }
}

/// Each write handed to the device after a `Send` carries exactly the
/// enqueued bytes that the device has not accepted yet: the device sees
/// the payloads of `Send` commands in the order they were sent, unchanged.
pub proof fn lemma_send_writes_in_order(pre: Worker, cmd: Option<Command>, post: Worker, r: Request)
    requires
        pre.wf(),
        pre.phase is AwaitingCommand,
        Worker::command_step(pre, cmd, post, r),
        r is Write,
    ensures
        r matches Request::Write { data } && post.enqueued@ == post.accepted@ + data@,
{
    if let Some(Command::Send(d)) = cmd {
        assert(pre.enqueued@ == pre.accepted@);
    }
}

/// The same holds of every write that resumes a payload after a timeout.
pub proof fn lemma_retry_writes_in_order(
    pre: Worker,
    outcome: WriteOutcome,
    post: Worker,
    r: Request,
)
    requires
        pre.wf(),
        pre.phase is Writing,
        outcome matches WriteOutcome::Timeout { actual } ==> pre.offset + actual
            < pre.pending@.len(),
        Worker::write_step(pre, outcome, post, r),
        r is Write,
    ensures
        r matches Request::Write { data } && post.enqueued@ == post.accepted@ + data@,
{
    if let WriteOutcome::Timeout { actual } = outcome {
        let u = pre.unsent();
        assert(u =~= u.take(actual as int) + u.skip(actual as int));
        assert(post.enqueued@ =~= post.accepted@ + u.skip(actual as int));
    }
}

/// Once a write completes, the device has accepted every enqueued byte,
/// in order.
pub proof fn lemma_complete_write_flushes_stream(
    pre: Worker,
    post: Worker,
    r: Request,
)
    requires
        pre.wf(),
        pre.phase is Writing,
        Worker::write_step(pre, WriteOutcome::Complete, post, r),
    ensures
        post.accepted@ == post.enqueued@,
        r is NextCommand,
{
}

/// A write that times out after `k` of the `n` unsent bytes is followed by
/// a write of exactly the remaining `n - k` bytes.
pub proof fn lemma_partial_write_recovery(pre: Worker, k: usize, post: Worker, r: Request)
    requires
        pre.wf(),
        pre.phase is Writing,
        pre.offset + k < pre.pending@.len(),
        Worker::write_step(pre, WriteOutcome::Timeout { actual: k }, post, r),
    ensures
        post.phase is Writing,
        r matches Request::Write { data } && data@.len() == pre.unsent().len() - k && data@
            == pre.unsent().subrange(k as int, pre.unsent().len() as int),
{
}

/// A flush is acknowledged only once the device has accepted every byte
/// of every earlier `Send`.
pub proof fn lemma_flush_waits_for_writes(pre: Worker, post: Worker, r: Request)
    requires
        pre.wf(),
        pre.phase is AwaitingCommand,
        Worker::command_step(pre, Some(Command::Flush), post, r),
    ensures
        r is AcknowledgeFlush,
        post.accepted@ == post.enqueued@,
{
}

/// A second `Cancel`, or one after the worker stopped, changes nothing
/// and asks for no second shutdown.
pub proof fn lemma_cancel_is_idempotent(
    w0: Worker,
    w1: Worker,
    w2: Worker,
    r1: Request,
    r2: Request,
)
    requires
        w0.wf(),
        w0.phase is AwaitingCommand || w0.phase is Stopped,
        Worker::command_step(w0, Some(Command::Cancel), w1, r1),
        Worker::command_step(w1, Some(Command::Cancel), w2, r2),
    ensures
        w1.phase is Stopped,
        w2 == w1,
        r2 is Idle,
        !(r1 is Shutdown && r2 is Shutdown),
{
}

/// A poll that finds `n > 0` bytes queued reads exactly `n` bytes and
/// publishes what was read, unchanged.
pub proof fn lemma_poll_publishes_queued_bytes(
    w0: Worker,
    w1: Worker,
    w2: Worker,
    w3: Worker,
    r1: Request,
    r2: Request,
    r3: Request,
    n: usize,
    bytes: Vec<u8>,
)
    requires
        w0.wf(),
        w0.phase is AwaitingCommand,
        n > 0,
        Worker::command_step(w0, Some(Command::PollRead), w1, r1),
        Worker::queue_step(w1, Ok(n), w2, r2),
        Worker::read_step(w2, ReadOutcome::Complete(bytes), w3, r3),
        bytes@.len() == w2.read_len,
    ensures
        bytes@.len() == n,
        r1 is QueueStatus,
        r2 == (Request::ReadExact { len: n }),
        r3 == (Request::Publish { data: bytes }),
        w3.phase is Publishing,
{
}

} // verus!
