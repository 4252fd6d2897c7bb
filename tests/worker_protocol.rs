use async_ftdi::error::{ErrorKind, IoError};
use async_ftdi::params::{DataBits, Parity, SerialParams, StopBits};
use async_ftdi::protocol::Command;
use async_ftdi::worker::{
    Failure, Phase, ReadOutcome, Request, SetupStep, Worker, WriteOutcome, LATENCY_TIMER_MS,
    READ_TIMEOUT_MS, WRITE_TIMEOUT_MS,
};

fn params() -> SerialParams {
    SerialParams {
        baud: 115200,
        data_bits: DataBits::Eight,
        stop_bits: StopBits::One,
        parity: Parity::Even,
    }
}

fn opened() -> Worker {
    let (mut w, r) = Worker::start(params());
    assert!(matches!(r, Request::OpenDevice));
    for _ in 0..5 {
        w.on_setup_result(Ok(()));
    }
    let r = w.on_setup_result(Ok(()));
    assert!(matches!(r, Request::OpenSucceeded));
    assert_eq!(w.phase(), Phase::AwaitingCommand);
    w
}

#[test]
fn open_sequence_configures_then_starts_notifier() {
    let (mut w, r) = Worker::start(params());
    assert!(matches!(r, Request::OpenDevice));
    let r = w.on_setup_result(Ok(()));
    assert!(matches!(
        r,
        Request::SetTimeouts { read_ms: 100, write_ms: 100 }
    ));
    assert_eq!(READ_TIMEOUT_MS, 100);
    assert_eq!(WRITE_TIMEOUT_MS, 100);
    let r = w.on_setup_result(Ok(()));
    assert!(matches!(r, Request::SetLatencyTimer { ms: 2 }));
    assert_eq!(LATENCY_TIMER_MS, 2);
    let r = w.on_setup_result(Ok(()));
    assert!(matches!(r, Request::SetBaudRate { baud: 115200 }));
    let r = w.on_setup_result(Ok(()));
    match r {
        Request::SetDataCharacteristics { params: p } => assert_eq!(p, params()),
        other => panic!("unexpected {:?}", other),
    }
    let r = w.on_setup_result(Ok(()));
    assert!(matches!(r, Request::StartNotifier));
    assert_eq!(w.phase(), Phase::Opening(SetupStep::Notifier));
    let r = w.on_setup_result(Ok(()));
    assert!(matches!(r, Request::OpenSucceeded));
    assert_eq!(w.phase(), Phase::AwaitingCommand);
}

#[test]
fn open_failure_reports_status_and_stops() {
    let (mut w, _) = Worker::start(params());
    // status 2: the device was not found
    let r = w.on_setup_result(Err(Failure::Status(2)));
    match r {
        Request::OpenFailed { error, close_device } => {
            assert_eq!(error.kind, ErrorKind::Other);
            assert_eq!(error.message, "FtStatus::DEVICE_NOT_FOUND");
            assert!(!close_device);
        }
        other => panic!("unexpected {:?}", other),
    }
    assert_eq!(w.phase(), Phase::Stopped);
    assert!(matches!(w.on_command(Some(Command::Cancel)), Request::Idle));
    assert!(matches!(w.on_command(None), Request::Idle));
}

#[test]
fn open_failure_after_open_closes_device() {
    let (mut w, _) = Worker::start(params());
    w.on_setup_result(Ok(()));
    w.on_setup_result(Ok(()));
    w.on_setup_result(Ok(()));
    w.on_setup_result(Ok(()));
    w.on_setup_result(Ok(()));
    let os = IoError::new(ErrorKind::Other, "no resources".to_string());
    match w.on_setup_result(Err(Failure::Os(os))) {
        Request::OpenFailed { error, close_device } => {
            assert_eq!(error.message, "no resources");
            assert!(close_device);
        }
        other => panic!("unexpected {:?}", other),
    }
    assert_eq!(w.phase(), Phase::Stopped);
}

#[test]
fn write_accepted_in_one_call_needs_no_retry() {
    let mut w = opened();
    let r = w.on_command(Some(Command::Send(vec![0xAB, 0xCD])));
    match r {
        Request::Write { data } => assert_eq!(data, vec![0xAB, 0xCD]),
        other => panic!("unexpected {:?}", other),
    }
    let r = w.on_write(WriteOutcome::Complete);
    assert!(matches!(r, Request::NextCommand));
    assert_eq!(w.phase(), Phase::AwaitingCommand);
}

#[test]
fn partial_write_resends_exact_remainder() {
    let mut w = opened();
    w.on_command(Some(Command::Send(vec![1, 2, 3, 4, 5])));
    match w.on_write(WriteOutcome::Timeout { actual: 2 }) {
        Request::Write { data } => assert_eq!(data, vec![3, 4, 5]),
        other => panic!("unexpected {:?}", other),
    }
    match w.on_write(WriteOutcome::Timeout { actual: 0 }) {
        Request::Write { data } => assert_eq!(data, vec![3, 4, 5]),
        other => panic!("unexpected {:?}", other),
    }
    match w.on_write(WriteOutcome::Timeout { actual: 1 }) {
        Request::Write { data } => assert_eq!(data, vec![4, 5]),
        other => panic!("unexpected {:?}", other),
    }
    assert!(matches!(
        w.on_write(WriteOutcome::Complete),
        Request::NextCommand
    ));
}

#[test]
fn write_failure_shuts_down_with_error() {
    let mut w = opened();
    w.on_command(Some(Command::Send(vec![9; 4])));
    w.on_write(WriteOutcome::Timeout { actual: 1 });
    // status 4: input/output error
    match w.on_write(WriteOutcome::Failed(4)) {
        Request::Shutdown { fatal: Some(e) } => {
            assert_eq!(e.kind, ErrorKind::Other);
            assert_eq!(e.message, "FtStatus::IO_ERROR");
        }
        other => panic!("unexpected {:?}", other),
    }
    assert_eq!(w.phase(), Phase::Stopped);
}

#[test]
fn sends_are_written_in_order() {
    let mut w = opened();
    let mut seen: Vec<u8> = Vec::new();
    for payload in [vec![1u8, 2], vec![3u8], vec![4u8, 5, 6]] {
        match w.on_command(Some(Command::Send(payload.clone()))) {
            Request::Write { data } => seen.extend(data),
            other => panic!("unexpected {:?}", other),
        }
        w.on_write(WriteOutcome::Complete);
    }
    assert_eq!(seen, vec![1, 2, 3, 4, 5, 6]);
}

#[test]
fn poll_reads_and_publishes_queued_bytes() {
    let mut w = opened();
    assert!(matches!(
        w.on_command(Some(Command::PollRead)),
        Request::QueueStatus
    ));
    assert!(matches!(
        w.on_queue_status(Ok(3)),
        Request::ReadExact { len: 3 }
    ));
    match w.on_read(ReadOutcome::Complete(vec![0x01, 0x02, 0x03])) {
        Request::Publish { data } => assert_eq!(data, vec![0x01, 0x02, 0x03]),
        other => panic!("unexpected {:?}", other),
    }
    assert!(matches!(w.on_published(true), Request::NextCommand));
}

#[test]
fn empty_queue_is_an_idle_wake() {
    let mut w = opened();
    w.on_command(Some(Command::PollRead));
    assert!(matches!(w.on_queue_status(Ok(0)), Request::NextCommand));
    assert_eq!(w.phase(), Phase::AwaitingCommand);
}

#[test]
fn queue_query_failure_shuts_down() {
    let mut w = opened();
    w.on_command(Some(Command::PollRead));
    // status 3: device not opened
    match w.on_queue_status(Err(3)) {
        Request::Shutdown { fatal: Some(e) } => {
            assert_eq!(e.message, "FtStatus::DEVICE_NOT_OPENED")
        }
        other => panic!("unexpected {:?}", other),
    }
}

#[test]
fn read_timeout_is_fatal() {
    let mut w = opened();
    w.on_command(Some(Command::PollRead));
    w.on_queue_status(Ok(8));
    match w.on_read(ReadOutcome::Timeout) {
        Request::Shutdown { fatal: Some(e) } => {
            assert_eq!(e.kind, ErrorKind::TimedOut);
            assert_eq!(e.message, "Timeout occurred emptying buffer");
        }
        other => panic!("unexpected {:?}", other),
    }
    assert_eq!(w.phase(), Phase::Stopped);
}

#[test]
fn read_failure_is_fatal() {
    let mut w = opened();
    w.on_command(Some(Command::PollRead));
    w.on_queue_status(Ok(1));
    match w.on_read(ReadOutcome::Failed(18)) {
        Request::Shutdown { fatal: Some(e) } => assert_eq!(e.message, "FtStatus::OTHER_ERROR"),
        other => panic!("unexpected {:?}", other),
    }
}

#[test]
fn closed_event_channel_stops_without_error() {
    let mut w = opened();
    w.on_command(Some(Command::PollRead));
    w.on_queue_status(Ok(1));
    w.on_read(ReadOutcome::Complete(vec![7]));
    assert!(matches!(
        w.on_published(false),
        Request::Shutdown { fatal: None }
    ));
}

#[test]
fn cancel_twice_shuts_down_once() {
    let mut w = opened();
    assert!(matches!(
        w.on_command(Some(Command::Cancel)),
        Request::Shutdown { fatal: None }
    ));
    assert!(matches!(w.on_command(Some(Command::Cancel)), Request::Idle));
    assert!(matches!(w.on_write(WriteOutcome::Complete), Request::Idle));
    assert!(matches!(w.on_queue_status(Ok(5)), Request::Idle));
    assert_eq!(w.phase(), Phase::Stopped);
}

#[test]
fn closed_command_channel_shuts_down() {
    let mut w = opened();
    assert!(matches!(
        w.on_command(None),
        Request::Shutdown { fatal: None }
    ));
}

#[test]
fn set_params_applies_baud_then_characteristics() {
    let mut w = opened();
    let p = SerialParams {
        baud: 9600,
        data_bits: DataBits::Seven,
        stop_bits: StopBits::Two,
        parity: Parity::Odd,
    };
    assert!(matches!(
        w.on_command(Some(Command::SetParams(p))),
        Request::SetBaudRate { baud: 9600 }
    ));
    match w.on_setup_result(Ok(())) {
        Request::SetDataCharacteristics { params: q } => assert_eq!(q, p),
        other => panic!("unexpected {:?}", other),
    }
    assert!(matches!(
        w.on_setup_result(Ok(())),
        Request::ReplyParams { result: Ok(()) }
    ));
    assert_eq!(w.phase(), Phase::AwaitingCommand);
}

#[test]
fn set_params_failure_does_not_stop_worker() {
    let mut w = opened();
    let p = SerialParams {
        baud: 1,
        data_bits: DataBits::Eight,
        stop_bits: StopBits::One,
        parity: Parity::No,
    };
    w.on_command(Some(Command::SetParams(p)));
    // status 7: invalid baud rate
    match w.on_setup_result(Err(Failure::Status(7))) {
        Request::ReplyParams { result: Err(e) } => {
            assert_eq!(e.message, "FtStatus::INVALID_BAUD_RATE")
        }
        other => panic!("unexpected {:?}", other),
    }
    assert_eq!(w.phase(), Phase::AwaitingCommand);
    assert!(matches!(
        w.on_command(Some(Command::PollRead)),
        Request::QueueStatus
    ));
}

#[test]
fn flush_is_acknowledged_after_earlier_writes() {
    let mut w = opened();
    w.on_command(Some(Command::Send(vec![1, 2, 3])));
    w.on_write(WriteOutcome::Timeout { actual: 2 });
    w.on_write(WriteOutcome::Complete);
    assert!(matches!(
        w.on_command(Some(Command::Flush)),
        Request::AcknowledgeFlush
    ));
    assert_eq!(w.phase(), Phase::AwaitingCommand);
}
