//! Owned operations, files and TCP sockets.
use nosv::errno::is_retryable;
use nosv::fs::{check_path, complete_open, complete_read, complete_write, File, FileOp, OpenAbi, OpenOptions};
use nosv::io::{
    complete_unit, operation_len, result, runtime_closed_error, unsupported_opcode_error, Filled,
    IoError, IoErrorKind, OwnedOp, OwnedState, StartOp, Transfer, TransferStep,
};
use nosv::net::{
    after_readiness, after_syscall, complete_recv, complete_send, socket_addr, Attempt, Domain,
    Failure, IpAddr, Ipv4Addr, Ipv6Addr, LanePoll, ReadinessStep, ReadyLane, SocketAddr, SyscallStep,
    TcpListener, TcpStream, ToSocketAddrs,
};
use nosv::waker::{PollState, Poller};

fn poller(waker: u32) -> Poller<u32> {
    Poller { waker, registered: false }
}

fn simple(kind: IoErrorKind, message: &'static str) -> IoError {
    IoError::Simple { kind, message }
}

#[test]
fn completion_results_become_counts_or_errors() {
    assert_eq!(result(5), Ok(5));
    assert_eq!(result(0), Ok(0));
    assert_eq!(result(-libc::ENOENT), Err(IoError::Os(libc::ENOENT)));
    assert_eq!(complete_unit(3), Ok(()));
    assert_eq!(complete_unit(-1), Err(IoError::Os(1)));
    assert_eq!(complete_open(4), Ok(4));
    assert_eq!(complete_open(-2), Err(IoError::Os(2)));
    assert_eq!(
        runtime_closed_error(),
        simple(IoErrorKind::BrokenPipe, "nOS-V I/O runtime is closed")
    );
    assert_eq!(
        unsupported_opcode_error(),
        simple(IoErrorKind::Unsupported, "kernel io_uring does not support this operation")
    );
    assert_eq!(runtime_closed_error().describe(), "nOS-V I/O runtime is closed");
}

#[test]
fn transient_errors_are_retried() {
    assert!(is_retryable(Some(libc::EINTR)));
    assert!(is_retryable(Some(libc::EAGAIN)));
    assert!(is_retryable(Some(libc::EBUSY)));
    assert!(!is_retryable(Some(libc::EINVAL)));
    assert!(!is_retryable(None));
}

#[test]
fn owned_operation_runs_once() {
    let mut state: OwnedState<u8, u32> = OwnedState::new();
    let mut op = OwnedOp::new("resources");
    assert!(matches!(op.start(true), Some(StartOp::Enqueue("resources"))));
    assert_eq!(op.enqueued(Ok(())), None);
    assert!(op.start(true).is_none());
    assert_eq!(op.poll(&mut state, poller(1)), PollState::Pending);
    assert_eq!(op.poll(&mut state, poller(2)), PollState::Pending);
    assert_eq!(state.publish(9), Some(2));
    assert_eq!(op.poll(&mut state, poller(3)), PollState::Ready(9));
    assert_eq!(state.result, None);
    assert!(!op.release(&mut state));
    assert!(!state.is_cancelled());
}

#[test]
fn closed_runtime_returns_the_resources() {
    let mut op = OwnedOp::new('r');
    match op.start(false) {
        Some(StartOp::Fail('r', error)) => assert_eq!(error, runtime_closed_error()),
        _ => panic!("the runtime is closed"),
    }
    let mut op = OwnedOp::new('r');
    assert!(matches!(op.start(true), Some(StartOp::Enqueue('r'))));
    assert_eq!(op.enqueued(Err('r')), Some(('r', runtime_closed_error())));
    let mut state: OwnedState<u8, u32> = OwnedState::new();
    assert!(!op.release(&mut state));
}

#[test]
fn abandoned_operation_is_cancelled() {
    let mut state: OwnedState<u8, u32> = OwnedState::new();
    let mut op = OwnedOp::new(());
    assert!(!op.release(&mut state));
    op.start(true);
    op.enqueued(Ok(()));
    assert!(op.release(&mut state));
    assert!(state.is_cancelled());
}

#[test]
fn transfers_cover_the_buffer() {
    let stall = simple(IoErrorKind::WriteZero, "failed to write buffer");
    let mut transfer = File { append: false }.write_all_at(10, 100).unwrap();
    assert_eq!(transfer, Transfer { offset: Some(100), total: 10, moved: 0, stall });
    assert_eq!(
        transfer.next(),
        TransferStep::Issue { file_offset: Some(100), buffer_offset: 0, len: 10 }
    );
    assert_eq!(transfer.advance(Ok(4)), Ok(()));
    assert_eq!(
        transfer.next(),
        TransferStep::Issue { file_offset: Some(104), buffer_offset: 4, len: 6 }
    );
    assert_eq!(transfer.advance(Ok(0)), Err(stall));
    assert_eq!(transfer.advance(Err(IoError::Os(5))), Err(IoError::Os(5)));
    assert_eq!(transfer.advance(Ok(6)), Ok(()));
    assert_eq!(transfer.next(), TransferStep::Finished);
}

#[test]
fn transfers_stay_in_range() {
    let file = File { append: false };
    let overflow =
        TransferStep::Refused(simple(IoErrorKind::InvalidInput, "file offset overflow"));
    assert_eq!(file.read_exact_at(2, u64::MAX).next(), overflow);
    assert_eq!(file.read_exact_at(4, u64::MAX - 1).next(), overflow);
    assert_eq!(file.write_all_at(4, u64::MAX - 2).unwrap().next(), overflow);
    assert_eq!(file.read_exact_at(0, u64::MAX).next(), TransferStep::Finished);
    let mut transfer = file.read_exact_at(4, u64::MAX - 3);
    assert_eq!(
        transfer.next(),
        TransferStep::Issue { file_offset: Some(u64::MAX - 3), buffer_offset: 0, len: 4 }
    );
    assert_eq!(transfer.advance(Ok(3)), Ok(()));
    assert_eq!(
        transfer.next(),
        TransferStep::Issue { file_offset: Some(u64::MAX), buffer_offset: 3, len: 1 }
    );
    assert_eq!(
        transfer.advance(Ok(0)),
        Err(simple(IoErrorKind::UnexpectedEof, "failed to fill whole buffer"))
    );
    let large = u32::MAX as usize;
    let oversized = simple(IoErrorKind::InvalidInput, "buffer is too large for io_uring");
    assert_eq!(operation_len(large, 0), Ok(u32::MAX));
    assert_eq!(operation_len(large + 1, 0), Err(oversized));
    assert_eq!(operation_len(large + 1, 1), Ok(u32::MAX));
    assert_eq!(operation_len(3, 7), Ok(0));
    assert_eq!(file.read_exact_at(large + 1, 0).next(), TransferStep::Refused(oversized));
}

#[test]
fn completions_are_bounded_by_what_was_issued() {
    assert_eq!(complete_read(3, 4, 2, 0), Ok(Filled { count: 3, initialized: 5 }));
    assert_eq!(complete_read(3, 4, 2, 9), Ok(Filled { count: 3, initialized: 9 }));
    assert_eq!(
        complete_read(5, 4, 2, 0),
        Err(simple(IoErrorKind::InvalidData, "kernel returned an oversized read"))
    );
    assert_eq!(complete_read(-5, 4, 2, 0), Err(IoError::Os(5)));
    assert_eq!(complete_write(4, 4), Ok(4));
    assert_eq!(
        complete_write(5, 4),
        Err(simple(IoErrorKind::InvalidData, "kernel returned an oversized write"))
    );
    assert_eq!(complete_recv(1, 4, 0, 0), Ok(Filled { count: 1, initialized: 1 }));
    assert_eq!(
        complete_recv(5, 4, 0, 0),
        Err(simple(IoErrorKind::InvalidData, "kernel returned an oversized receive"))
    );
    assert_eq!(complete_send(2, 4), Ok(2));
    assert_eq!(
        complete_send(5, 4),
        Err(simple(IoErrorKind::InvalidData, "kernel returned an oversized send"))
    );
}

#[test]
fn append_mode_decides_how_files_are_written() {
    let positioned = File { append: false };
    let appending = File { append: true };
    assert_eq!(positioned.write_at(5, 7), Ok(FileOp { file_offset: 7, len: 5 }));
    assert_eq!(positioned.read_at(5, 7), Ok(FileOp { file_offset: 7, len: 5 }));
    assert_eq!(
        positioned.append(5),
        Err(simple(
            IoErrorKind::InvalidInput,
            "append requires a file opened in append mode"
        ))
    );
    let refused = simple(
        IoErrorKind::InvalidInput,
        "positioned writes are not allowed on append-mode files",
    );
    assert_eq!(appending.write_at(5, 7), Err(refused));
    assert_eq!(appending.write_all_at(5, 7), Err(refused));
    assert_eq!(appending.append(5), Ok(FileOp { file_offset: u64::MAX, len: 5 }));
}

#[test]
fn open_flags_follow_the_options() {
    let mut options = OpenOptions::new();
    assert_eq!(
        options.flags(),
        Err(simple(IoErrorKind::InvalidInput, "an access mode is required"))
    );
    options.read(true);
    assert_eq!(options.flags(), Ok((libc::O_RDONLY | libc::O_CLOEXEC, 0o666)));
    options.create(true);
    assert_eq!(
        options.flags(),
        Err(simple(
            IoErrorKind::InvalidInput,
            "truncate and create options require write or append access"
        ))
    );
    options.write(true).truncate(true).mode(0o600);
    assert_eq!(
        options.flags(),
        Ok((libc::O_RDWR | libc::O_CLOEXEC | libc::O_TRUNC | libc::O_CREAT, 0o600))
    );
    options.read(false).create_new(true);
    assert_eq!(
        options.flags(),
        Ok((libc::O_WRONLY | libc::O_CLOEXEC | libc::O_CREAT | libc::O_EXCL, 0o600))
    );
    let mut options = OpenOptions::default();
    options.append(true).custom_flags(libc::O_RDWR | libc::O_NOFOLLOW);
    assert_eq!(
        options.flags(),
        Ok((libc::O_WRONLY | libc::O_CLOEXEC | libc::O_APPEND | libc::O_NOFOLLOW, 0o666))
    );
}

#[test]
fn open_flags_follow_the_platform() {
    let abi = OpenAbi {
        read_only: 0,
        write_only: 1,
        read_write: 2,
        access_mask: 3,
        cloexec: 0x40_0000,
        append: 0x8,
        truncate: 0x400,
        create: 0x200,
        exclusive: 0x800,
    };
    let mut options = OpenOptions::new();
    options.write(true).create_new(true);
    assert_eq!(options.flags_with(&abi), Ok((0x40_0a01, 0o666)));
}

#[test]
fn files_are_opened_with_checked_paths() {
    let nul = simple(IoErrorKind::InvalidInput, "file path contains an interior NUL byte");
    assert_eq!(check_path(b"/tmp/file"), Ok(()));
    assert_eq!(check_path(b"/tmp\0/file"), Err(nul));
    let request = File::open(b"/tmp/file").unwrap();
    assert_eq!(request.flags, libc::O_RDONLY | libc::O_CLOEXEC);
    assert!(!request.file.append);
    assert_eq!(File::open(b"\0"), Err(nul));
    let request = File::create(b"f").unwrap();
    assert_eq!(
        request.flags,
        libc::O_WRONLY | libc::O_CLOEXEC | libc::O_TRUNC | libc::O_CREAT
    );
    assert_eq!(request.mode, 0o666);
    let request = File::create_new(b"f").unwrap();
    assert_eq!(
        request.flags,
        libc::O_WRONLY | libc::O_CLOEXEC | libc::O_CREAT | libc::O_EXCL
    );
    let mut options = OpenOptions::new();
    assert_eq!(
        options.open(b"\0"),
        Err(simple(IoErrorKind::InvalidInput, "an access mode is required"))
    );
    options.append(true);
    assert!(options.open(b"f").unwrap().file.append);
}

fn v4(last: u32, port: u16) -> SocketAddr {
    SocketAddr::V4 { ip: Ipv4Addr { bits: 0x7f00_0000 | last }, port }
}

#[test]
fn addresses_are_copied_in_order() {
    let first = v4(1, 80);
    let second = v4(2, 81);
    assert_eq!(first.to_socket_addrs(), vec![first]);
    assert_eq!([first, second].to_socket_addrs(), vec![first, second]);
    assert_eq!([second, first][..].to_socket_addrs(), vec![second, first]);
    assert_eq!((&first).to_socket_addrs(), vec![first]);
    let ip = Ipv4Addr { bits: 0x7f00_0001 };
    assert_eq!((ip, 80).to_socket_addrs(), vec![first]);
    assert_eq!((IpAddr::V4(ip), 80).to_socket_addrs(), vec![first]);
    let ip = Ipv6Addr { bits: 1 };
    let address = SocketAddr::V6 { ip, port: 9, flowinfo: 0, scope_id: 0 };
    assert_eq!((ip, 9).to_socket_addrs(), vec![address]);
    assert_eq!(address.domain(), Domain::Ipv6);
    assert_eq!(first.domain(), Domain::Ipv4);
}

#[test]
fn connection_falls_back_in_order() {
    let addresses = [v4(1, 1), v4(2, 2)];
    let mut attempts = TcpStream::<()>::connect(&addresses).unwrap();
    assert_eq!(attempts.next(), Attempt::Try(v4(1, 1)));
    attempts.failed(IoError::Os(libc::ECONNREFUSED));
    assert_eq!(attempts.next(), Attempt::Try(v4(2, 2)));
    attempts.failed(IoError::Os(libc::ETIMEDOUT));
    assert_eq!(attempts.next(), Attempt::GiveUp);
    assert_eq!(attempts.give_up(), IoError::Os(libc::ETIMEDOUT));
    let mut attempts = TcpListener::bind(true, &v4(1, 1)).unwrap();
    attempts.failed("refused");
    assert_eq!(attempts.give_up(), "refused");
    let none: [SocketAddr; 0] = [];
    let missing = simple(IoErrorKind::InvalidInput, "no socket addresses supplied");
    assert_eq!(TcpStream::<()>::connect::<_, IoError>(&none).err(), Some(missing));
    assert_eq!(TcpListener::bind::<_, IoError>(true, &none).err(), Some(missing));
    assert_eq!(TcpListener::bind::<_, IoError>(false, &none).err(), Some(runtime_closed_error()));
    assert_eq!(
        TcpListener::bind::<_, IoError>(true, &addresses).unwrap().next(),
        Attempt::Try(v4(1, 1))
    );
}

fn failed(errno: i32) -> Failure<&'static str> {
    Failure { errno: Some(errno), error: "failed" }
}

#[test]
fn system_calls_are_retried_or_awaited() {
    assert_eq!(after_syscall::<_, &str>(Ok(3)), SyscallStep::Done(3));
    assert_eq!(after_syscall::<u8, _>(Err(failed(libc::EINTR))), SyscallStep::Retry);
    assert_eq!(after_syscall::<u8, _>(Err(failed(libc::EAGAIN))), SyscallStep::AwaitReadiness);
    assert_eq!(after_syscall::<u8, _>(Err(failed(libc::ECONNRESET))), SyscallStep::Fail("failed"));
    assert_eq!(
        after_syscall::<u8, _>(Err(Failure { errno: None, error: 7u8 })),
        SyscallStep::Fail(7)
    );
    let non_ip = simple(IoErrorKind::InvalidData, "socket returned a non-IP address");
    assert_eq!(socket_addr(None), Err(non_ip));
    assert_eq!(socket_addr(Some(v4(1, 1))), Ok(v4(1, 1)));
    let listener = TcpListener;
    assert_eq!(
        listener.accept::<char, &str>(Ok(('s', None))),
        SyscallStep::Done(Err(non_ip))
    );
    assert_eq!(
        listener.accept::<char, &str>(Ok(('s', Some(v4(1, 1))))),
        SyscallStep::Done(Ok(('s', v4(1, 1))))
    );
    assert_eq!(listener.accept::<char, _>(Err(failed(libc::EINTR))), SyscallStep::Retry);
    assert_eq!(listener.accept::<char, _>(Err(failed(libc::EMFILE))), SyscallStep::Fail("failed"));
    assert_eq!(listener.accept_events(), libc::POLLIN as u32);
    assert_eq!(after_readiness::<IoError>(PollState::Ready(Ok(()))), ReadinessStep::Retry);
    assert_eq!(after_readiness::<IoError>(PollState::Pending), ReadinessStep::Pending);
    assert_eq!(
        after_readiness(PollState::Ready(Err(IoError::Os(9)))),
        ReadinessStep::Fail(IoError::Os(9))
    );
}

#[test]
fn readiness_lane_keeps_one_operation() {
    let mut stream: TcpStream<char> = TcpStream::from_socket();
    assert!(stream.poll_read(1));
    assert!(!stream.poll_read(0));
    assert_eq!(stream.write_ready.events, libc::POLLOUT as u32);
    let lane: &mut ReadyLane<char> = &mut stream.read_ready;
    match lane.begin() {
        LanePoll::Create(events) => assert_eq!(events, libc::POLLIN as u32),
        LanePoll::Existing(_) => panic!("the lane was empty"),
    }
    lane.finish('p', false);
    match lane.begin() {
        LanePoll::Existing(operation) => assert_eq!(operation, 'p'),
        LanePoll::Create(_) => panic!("the operation is pending"),
    }
    lane.finish('p', true);
    assert_eq!(lane.operation, None);
}

#[test]
fn stream_transfers_have_their_own_errors() {
    let stream: TcpStream<()> = TcpStream::from_socket();
    assert_eq!(stream.recv(9), Ok(9));
    assert_eq!(stream.send(9), Ok(9));
    let oversized = simple(IoErrorKind::InvalidInput, "buffer is too large for io_uring");
    assert_eq!(stream.recv(u32::MAX as usize + 1), Err(oversized));
    assert_eq!(stream.send(u32::MAX as usize + 1), Err(oversized));
    let mut transfer = stream.recv_exact(4);
    assert_eq!(
        transfer.next(),
        TransferStep::Issue { file_offset: None, buffer_offset: 0, len: 4 }
    );
    assert_eq!(
        transfer.advance(Ok(0)),
        Err(simple(IoErrorKind::UnexpectedEof, "connection closed early"))
    );
    let mut transfer = stream.send_all(4);
    assert_eq!(
        transfer.advance(Ok(0)),
        Err(simple(IoErrorKind::WriteZero, "failed to send buffer"))
    );
}
