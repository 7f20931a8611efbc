//! Numeric-address TCP sockets.
//!
//! Hostname resolution is intentionally not performed on runtime workers: every
//! address is numeric.
use vstd::prelude::*;
use crate::errno::{eagain, eintr};
use crate::io::{
    complete_drain, complete_fill, operation_len, runtime_closed_error, Filled, IoError,
    IoErrorKind, Transfer,
};
use crate::sealed::Sealed;
use crate::waker::PollState;

verus! {

/// An IPv4 address.
#[derive(Clone, Copy, Debug, PartialEq, Eq, Structural)]
pub struct Ipv4Addr {
    /// The address in network order, most significant octet first.
    pub bits: u32,
}

/// An IPv6 address.
#[derive(Clone, Copy, Debug, PartialEq, Eq, Structural)]
pub struct Ipv6Addr {
    /// The address in network order, most significant octet first.
    pub bits: u128,
}

/// An address of either family.
#[derive(Clone, Copy, Debug, PartialEq, Eq, Structural)]
pub enum IpAddr {
    /// An IPv4 address.
    V4(Ipv4Addr),
    /// An IPv6 address.
    V6(Ipv6Addr),
}

/// A numeric internet socket address.
#[derive(Clone, Copy, Debug, PartialEq, Eq, Structural)]
pub enum SocketAddr {
    /// An IPv4 socket address.
    V4 {
        /// Address.
        ip: Ipv4Addr,
        /// Port.
        port: u16,
    },
    /// An IPv6 socket address.
    V6 {
        /// Address.
        ip: Ipv6Addr,
        /// Port.
        port: u16,
        /// Flow information.
        flowinfo: u32,
        /// Scope identifier.
        scope_id: u32,
    },
}

/// Address family of a socket.
#[derive(Clone, Copy, Debug, PartialEq, Eq, Structural)]
pub enum Domain {
    /// IPv4 communication.
    Ipv4,
    /// IPv6 communication.
    Ipv6,
}

impl SocketAddr {
    /// The socket address of `ip` and `port`, without flow information or scope.
    pub open spec fn of(ip: IpAddr, port: u16) -> Self {
        match ip {
            IpAddr::V4(ip) => SocketAddr::V4 { ip, port },
            IpAddr::V6(ip) => SocketAddr::V6 { ip, port, flowinfo: 0, scope_id: 0 },
        }
    }

    /// Creates the socket address of `ip` and `port`.
    pub fn new(ip: IpAddr, port: u16) -> (address: Self)
        ensures
            address == SocketAddr::of(ip, port),
    {
        match ip {
            IpAddr::V4(ip) => SocketAddr::V4 { ip, port },
            IpAddr::V6(ip) => SocketAddr::V6 { ip, port, flowinfo: 0, scope_id: 0 },
        }
    }

    /// Returns whether this is an IPv4 address.
    pub fn is_ipv4(&self) -> (ipv4: bool)
        ensures
            ipv4 == (self is V4),
    {
        match self {
            SocketAddr::V4 { .. } => true,
            SocketAddr::V6 { .. } => false,
        }
    }

    /// Returns the family of the socket that reaches this address.
    pub fn domain(&self) -> (domain: Domain)
        ensures
            domain == (if self is V4 {
                Domain::Ipv4
            } else {
                Domain::Ipv6
            }),
    {
        if self.is_ipv4() {
            Domain::Ipv4
        } else {
            Domain::Ipv6
        }
    }
}

/// Conversion to one or more numeric socket addresses.
pub trait ToSocketAddrs: Sealed {
    /// The numeric candidates in fallback order.
    spec fn candidates(&self) -> Seq<SocketAddr>;

    /// Copies the numeric candidates in fallback order.
    fn to_socket_addrs(&self) -> (addresses: Vec<SocketAddr>)
        ensures
            addresses@ == self.candidates(),
    ;
}

impl ToSocketAddrs for SocketAddr {
    open spec fn candidates(&self) -> Seq<SocketAddr> {
        seq![*self]
    }

    fn to_socket_addrs(&self) -> (addresses: Vec<SocketAddr>) {
        vec![*self]
    }
}

impl ToSocketAddrs for (IpAddr, u16) {
    open spec fn candidates(&self) -> Seq<SocketAddr> {
        seq![SocketAddr::of(self.0, self.1)]
    }

    fn to_socket_addrs(&self) -> (addresses: Vec<SocketAddr>) {
        vec![SocketAddr::new(self.0, self.1)]
    }
}

impl ToSocketAddrs for (Ipv4Addr, u16) {
    open spec fn candidates(&self) -> Seq<SocketAddr> {
        seq![SocketAddr::of(IpAddr::V4(self.0), self.1)]
    }

    fn to_socket_addrs(&self) -> (addresses: Vec<SocketAddr>) {
        vec![SocketAddr::new(IpAddr::V4(self.0), self.1)]
    }
}

impl ToSocketAddrs for (Ipv6Addr, u16) {
    open spec fn candidates(&self) -> Seq<SocketAddr> {
        seq![SocketAddr::of(IpAddr::V6(self.0), self.1)]
    }

    fn to_socket_addrs(&self) -> (addresses: Vec<SocketAddr>) {
        vec![SocketAddr::new(IpAddr::V6(self.0), self.1)]
    }
}

impl ToSocketAddrs for [SocketAddr] {
    open spec fn candidates(&self) -> Seq<SocketAddr> {
        self@
    }

    fn to_socket_addrs(&self) -> (addresses: Vec<SocketAddr>) {
        let mut addresses: Vec<SocketAddr> = Vec::new();
        let mut i: usize = 0;
        while i < self.len()
            invariant
                i <= self@.len(),
                addresses@ == self@.take(i as int),
            decreases self@.len() - i,
        {
            addresses.push(self[i]);
            i = i + 1;
            assert(addresses@ =~= self@.take(i as int));
        }
        assert(self@.take(i as int) =~= self@);
        addresses
    }
}

impl<const N: usize> ToSocketAddrs for [SocketAddr; N] {
    open spec fn candidates(&self) -> Seq<SocketAddr> {
        self@
    }

    fn to_socket_addrs(&self) -> (addresses: Vec<SocketAddr>) {
        self.as_slice().to_socket_addrs()
    }
}

impl<T: ToSocketAddrs + ?Sized> ToSocketAddrs for &T {
    open spec fn candidates(&self) -> Seq<SocketAddr> {
        (**self).candidates()
    }

    fn to_socket_addrs(&self) -> (addresses: Vec<SocketAddr>) {
        (**self).to_socket_addrs()
    }
}

/// Length of the queue of pending connections of a listener.
pub const LISTEN_BACKLOG: i32 = 1024;

/// The error of connecting or binding to no address at all.
pub open spec fn no_address_error() -> IoError {
    IoError::Simple { kind: IoErrorKind::InvalidInput, message: "no socket addresses supplied" }
}

/// What to do next with a list of candidate addresses.
#[derive(Clone, Copy, Debug, PartialEq, Eq)]
pub enum Attempt {
    /// Try this address.
    Try(SocketAddr),
    /// Every address failed; report the last error.
    GiveUp,
}

/// Fallback over candidate addresses: the first that succeeds is used.
///
/// `E` is the error of an attempt.
pub struct Attempts<E> {
    addresses: Vec<SocketAddr>,
    next: usize,
    last: Option<E>,
}

/// Progress of [`Attempts`].
#[verifier::ext_equal]
pub struct AttemptsView<E> {
    /// Candidates in order.
    pub addresses: Seq<SocketAddr>,
    /// Number of candidates that failed.
    pub failed: int,
    /// Error of the last one that failed.
    pub last: Option<E>,
}

impl<E> AttemptsView<E> {
    /// There is a candidate, and each that failed left an error.
    pub open spec fn wf(self) -> bool {
        &&& self.addresses.len() > 0
        &&& 0 <= self.failed <= self.addresses.len()
        &&& self.failed > 0 ==> self.last is Some
    }

    /// No candidate has been tried.
    pub open spec fn start(addresses: Seq<SocketAddr>) -> Self {
        AttemptsView { addresses, failed: 0, last: None }
    }

    /// The next step.
    pub open spec fn step(self) -> Attempt {
        if self.failed < self.addresses.len() {
            Attempt::Try(self.addresses[self.failed])
        } else {
            Attempt::GiveUp
        }
    }

    /// The current candidate failed.
    pub open spec fn fail(self, error: E) -> Self {
        AttemptsView { failed: self.failed + 1, last: Some(error), ..self }
    }

    /// The address in use, or the error, when each candidate has the outcome
    /// that `outcome` gives it.
    pub open spec fn resolved(self, outcome: spec_fn(SocketAddr) -> Result<(), E>) -> Result<
        SocketAddr,
        E,
    >
        decreases self.addresses.len() - self.failed,
        when self.failed <= self.addresses.len()
    {
        match self.step() {
            Attempt::Try(address) => match outcome(address) {
                Ok(_) => Ok(address),
                Err(error) => self.fail(error).resolved(outcome),
            },
            Attempt::GiveUp => Err(self.last->0),
        }
    }
}

impl<E> View for Attempts<E> {
    type V = AttemptsView<E>;

    closed spec fn view(&self) -> AttemptsView<E> {
        AttemptsView {
            addresses: self.addresses@,
            failed: self.next as int,
            last: self.last,
        }
    }
}

impl<E> Attempts<E> {
    /// Begins with the first candidate.
    pub fn new<A: ToSocketAddrs + ?Sized>(addresses: &A) -> (attempts: Result<Self, IoError>)
        ensures
            match attempts {
                Ok(attempts) => {
                    &&& addresses.candidates().len() > 0
                    &&& attempts@ == AttemptsView::<E>::start(addresses.candidates())
                    &&& attempts@.wf()
                },
                Err(error) => {
                    &&& addresses.candidates().len() == 0
                    &&& error == no_address_error()
                },
            },
    {
        let addresses = addresses.to_socket_addrs();
        if addresses.len() == 0 {
            return Err(
                IoError::Simple {
                    kind: IoErrorKind::InvalidInput,
                    message: "no socket addresses supplied",
                },
            );
        }
        Ok(Attempts { addresses, next: 0, last: None })
    }

    /// Returns the next step.
    pub fn next(&self) -> (attempt: Attempt)
        requires
            self@.wf(),
        ensures
            attempt == self@.step(),
    {
        if self.next < self.addresses.len() {
            return Attempt::Try(self.addresses[self.next]);
        }
        Attempt::GiveUp
    }

    /// Records that the candidate of the last step failed.
    pub fn failed(&mut self, error: E)
        requires
            old(self)@.wf(),
            old(self)@.step() is Try,
        ensures
            final(self)@.wf(),
            final(self)@ == old(self)@.fail(error),
    {
        assert(self.next < self.addresses.len());
        self.last = Some(error);
        self.next = self.next + 1;
    }

    /// Returns the error of the last candidate, after every one failed.
    pub fn give_up(self) -> (error: E)
        requires
            self@.wf(),
            self@.step() is GiveUp,
        ensures
            Some(error) == self@.last,
    {
        self.last.unwrap()
    }
}

/// The first candidate that succeeds is used, and those before it are tried in
/// order.
pub proof fn lemma_first_success_is_used<E>(
    attempts: AttemptsView<E>,
    outcome: spec_fn(SocketAddr) -> Result<(), E>,
    chosen: int,
)
    requires
        attempts.wf(),
        attempts.failed <= chosen < attempts.addresses.len(),
        outcome(attempts.addresses[chosen]) is Ok,
        forall|i: int|
            attempts.failed <= i < chosen ==> outcome(#[trigger] attempts.addresses[i]) is Err,
    ensures
        attempts.resolved(outcome) == Ok::<SocketAddr, E>(attempts.addresses[chosen]),
    decreases chosen - attempts.failed,
{
    if attempts.failed < chosen {
        let error = outcome(attempts.addresses[attempts.failed])->Err_0;
        lemma_first_success_is_used(attempts.fail(error), outcome, chosen);
    }
}

/// When every candidate fails, the error of the last one is reported as it is.
pub proof fn lemma_last_error_is_reported<E>(
    attempts: AttemptsView<E>,
    outcome: spec_fn(SocketAddr) -> Result<(), E>,
)
    requires
        attempts.wf(),
        attempts.failed < attempts.addresses.len(),
        forall|i: int|
            attempts.failed <= i < attempts.addresses.len() ==> outcome(
                #[trigger] attempts.addresses[i],
            ) is Err,
    ensures
        attempts.resolved(outcome) == Err::<SocketAddr, E>(outcome(attempts.addresses.last())->Err_0),
    decreases attempts.addresses.len() - attempts.failed,
{
    let error = outcome(attempts.addresses[attempts.failed])->Err_0;
    if attempts.failed + 1 < attempts.addresses.len() {
        lemma_last_error_is_reported(attempts.fail(error), outcome);
    } else {
        assert(attempts.fail(error).resolved(outcome) == Err::<SocketAddr, E>(error));
    }
}

/// Accepts only internet socket address families.
///
/// `address` is absent when the socket reported another family.
pub fn socket_addr(address: Option<SocketAddr>) -> (result: Result<SocketAddr, IoError>)
    ensures
        result == (match address {
            Some(address) => Ok::<SocketAddr, IoError>(address),
            None => Err(
                IoError::Simple {
                    kind: IoErrorKind::InvalidData,
                    message: "socket returned a non-IP address",
                },
            ),
        }),
{
    match address {
        Some(address) => Ok(address),
        None => Err(
            IoError::Simple {
                kind: IoErrorKind::InvalidData,
                message: "socket returned a non-IP address",
            },
        ),
    }
}

/// A failed system call.
#[derive(Clone, Copy, Debug, PartialEq, Eq)]
pub struct Failure<E> {
    /// Error number, if the failure carries one.
    pub errno: Option<i32>,
    /// The failure itself.
    pub error: E,
}

/// What to do after a nonblocking system call.
///
/// `E` is the error of the call.
#[derive(Clone, Copy, Debug, PartialEq, Eq)]
pub enum SyscallStep<T, E> {
    /// The call succeeded.
    Done(T),
    /// A signal interrupted the call; make it again.
    Retry,
    /// The call would block; wait for readiness.
    AwaitReadiness,
    /// The call failed.
    Fail(E),
}

/// What follows a nonblocking system call with this outcome.
pub open spec fn syscall_step<T, E>(outcome: Result<T, Failure<E>>) -> SyscallStep<T, E> {
    match outcome {
        Ok(value) => SyscallStep::Done(value),
        Err(failure) => if failure.errno == Some(4i32) {
            SyscallStep::Retry
        } else if failure.errno == Some(11i32) {
            SyscallStep::AwaitReadiness
        } else {
            SyscallStep::Fail(failure.error)
        },
    }
}

/// Decides how to go on after a nonblocking system call.
pub fn after_syscall<T, E>(outcome: Result<T, Failure<E>>) -> (step: SyscallStep<T, E>)
    ensures
        step == syscall_step(outcome),
{
    match outcome {
        Ok(value) => SyscallStep::Done(value),
        Err(failure) => {
            if let Some(errno) = failure.errno {
                if errno == eintr() {
                    return SyscallStep::Retry;
                }
                if errno == eagain() {
                    return SyscallStep::AwaitReadiness;
                }
            }
            SyscallStep::Fail(failure.error)
        },
    }
}

/// What to do after polling for readiness.
///
/// `E` is the error of the readiness operation.
#[derive(Clone, Copy, Debug, PartialEq, Eq)]
pub enum ReadinessStep<E> {
    /// Make the system call again.
    Retry,
    /// Readiness is pending.
    Pending,
    /// The operation failed.
    Fail(E),
}

/// Decides how to go on after polling for readiness.
pub fn after_readiness<E>(polled: PollState<Result<(), E>>) -> (step: ReadinessStep<E>)
    ensures
        step == (match polled {
            PollState::Ready(Ok(_)) => ReadinessStep::Retry,
            PollState::Ready(Err(error)) => ReadinessStep::Fail(error),
            PollState::Pending => ReadinessStep::Pending,
        }),
{
    match polled {
        PollState::Ready(Ok(_)) => ReadinessStep::Retry,
        PollState::Ready(Err(error)) => ReadinessStep::Fail(error),
        PollState::Pending => ReadinessStep::Pending,
    }
}

/// `libc::POLLIN`, which is 1 on Linux.
#[verifier::external_body]
fn pollin() -> (events: u32)
    ensures
        events == 1,
{
    libc::POLLIN as u32
}

/// `libc::POLLOUT`, which is 4 on Linux.
#[verifier::external_body]
fn pollout() -> (events: u32)
    ensures
        events == 4,
{
    libc::POLLOUT as u32
}

/// One persistent readiness request for a borrowed-I/O direction.
///
/// `O` is the readiness operation.
pub struct ReadyLane<O> {
    /// Poll event mask of the direction.
    pub events: u32,
    /// Readiness operation, if one is pending.
    pub operation: Option<O>,
}

/// What a lane polls.
pub enum LanePoll<O> {
    /// A new operation for these events.
    Create(u32),
    /// The pending operation.
    Existing(O),
}

impl<O> ReadyLane<O> {
    /// Creates the empty lane of borrowed reads.
    pub fn for_reads() -> (lane: Self)
        ensures
            lane == (ReadyLane::<O> { events: 1, operation: None }),
    {
        ReadyLane { events: pollin(), operation: None }
    }

    /// Creates the empty lane of borrowed writes.
    pub fn for_writes() -> (lane: Self)
        ensures
            lane == (ReadyLane::<O> { events: 4, operation: None }),
    {
        ReadyLane { events: pollout(), operation: None }
    }

    /// Begins a poll: the pending operation is polled, or a new one is created.
    pub fn begin(&mut self) -> (poll: LanePoll<O>)
        ensures
            poll == (match old(self).operation {
                Some(operation) => LanePoll::Existing(operation),
                None => LanePoll::Create(old(self).events),
            }),
            *final(self) == (ReadyLane::<O> { operation: None, ..*old(self) }),
    {
        match self.operation.take() {
            Some(operation) => LanePoll::Existing(operation),
            None => LanePoll::Create(self.events),
        }
    }

    /// Ends a poll: an operation that is ready leaves the lane.
    pub fn finish(&mut self, operation: O, ready: bool)
        ensures
            *final(self) == (ReadyLane::<O> {
                events: old(self).events,
                operation: if ready {
                    None
                } else {
                    Some(operation)
                },
            }),
    {
        self.operation = if ready {
            None
        } else {
            Some(operation)
        };
    }
}

/// A connected, nonblocking TCP stream, as far as its operations keep state.
///
/// `O` is the readiness operation.
pub struct TcpStream<O> {
    /// Independent borrowed-read readiness lane.
    pub read_ready: ReadyLane<O>,
    /// Independent borrowed-write readiness lane.
    pub write_ready: ReadyLane<O>,
}

impl<O> TcpStream<O> {
    /// Plans connecting to the first address that accepts.
    ///
    /// `E` is the error of an attempt.
    pub fn connect<A: ToSocketAddrs + ?Sized, E>(addresses: &A) -> (attempts: Result<
        Attempts<E>,
        IoError,
    >)
        ensures
            match attempts {
                Ok(attempts) => {
                    &&& addresses.candidates().len() > 0
                    &&& attempts@ == AttemptsView::<E>::start(addresses.candidates())
                    &&& attempts@.wf()
                },
                Err(error) => {
                    &&& addresses.candidates().len() == 0
                    &&& error == no_address_error()
                },
            },
    {
        Attempts::new(addresses)
    }

    /// Creates a stream with idle readiness lanes.
    pub fn from_socket() -> (stream: Self)
        ensures
            stream == (TcpStream::<O> {
                read_ready: ReadyLane { events: 1, operation: None },
                write_ready: ReadyLane { events: 4, operation: None },
            }),
    {
        TcpStream { read_ready: ReadyLane::for_reads(), write_ready: ReadyLane::for_writes() }
    }

    /// Decides whether a borrowed read of up to `remaining` bytes makes a system
    /// call; a full buffer is ready at once.
    pub fn poll_read(&self, remaining: usize) -> (receive: bool)
        ensures
            receive == (remaining > 0),
    {
        remaining > 0
    }

    /// Plans one receive into a buffer of `total` bytes.
    pub fn recv(&self, total: usize) -> (len: Result<u32, IoError>)
        ensures
            len == (if total > u32::MAX {
                Err::<u32, IoError>(crate::io::oversized_error())
            } else {
                Ok(total as u32)
            }),
    {
        operation_len(total, 0)
    }

    /// Plans receives that fill a buffer of `total` bytes.
    pub fn recv_exact(&self, total: usize) -> (transfer: Transfer)
        ensures
            transfer.wf(),
            transfer == (Transfer {
                offset: None,
                total,
                moved: 0,
                stall: IoError::Simple {
                    kind: IoErrorKind::UnexpectedEof,
                    message: "connection closed early",
                },
            }),
    {
        Transfer::new(
            None,
            total,
            IoError::Simple { kind: IoErrorKind::UnexpectedEof, message: "connection closed early" },
        )
    }

    /// Plans one send of the `total` initialized bytes of a buffer.
    pub fn send(&self, total: usize) -> (len: Result<u32, IoError>)
        ensures
            len == (if total > u32::MAX {
                Err::<u32, IoError>(crate::io::oversized_error())
            } else {
                Ok(total as u32)
            }),
    {
        operation_len(total, 0)
    }

    /// Plans sends of all `total` initialized bytes of a buffer.
    pub fn send_all(&self, total: usize) -> (transfer: Transfer)
        ensures
            transfer.wf(),
            transfer == (Transfer {
                offset: None,
                total,
                moved: 0,
                stall: IoError::Simple {
                    kind: IoErrorKind::WriteZero,
                    message: "failed to send buffer",
                },
            }),
    {
        Transfer::new(
            None,
            total,
            IoError::Simple { kind: IoErrorKind::WriteZero, message: "failed to send buffer" },
        )
    }
}

/// A nonblocking TCP listener.
#[derive(Clone, Copy, Debug, PartialEq, Eq, Structural)]
pub struct TcpListener;

impl TcpListener {
    /// Plans binding a listener: the runtime must accept operations.
    ///
    /// `E` is the error of an attempt.
    pub fn bind<A: ToSocketAddrs + ?Sized, E>(running: bool, addresses: &A) -> (attempts: Result<
        Attempts<E>,
        IoError,
    >)
        ensures
            match attempts {
                Ok(attempts) => {
                    &&& running
                    &&& addresses.candidates().len() > 0
                    &&& attempts@ == AttemptsView::<E>::start(addresses.candidates())
                    &&& attempts@.wf()
                },
                Err(error) => if running {
                    addresses.candidates().len() == 0 && error == no_address_error()
                } else {
                    error == crate::io::closed_error()
                },
            },
    {
        if !running {
            return Err(runtime_closed_error());
        }
        Attempts::new(addresses)
    }

    /// Returns the events that a listener waits for before it accepts.
    pub fn accept_events(&self) -> (events: u32)
        ensures
            events == 1,
    {
        pollin()
    }

    /// Decides how to go on after an attempt to accept a connection.
    ///
    /// The attempt yields the connection and the peer's address. A connection
    /// whose peer has no internet address ends in an error of its own.
    pub fn accept<S, E>(&self, outcome: Result<(S, Option<SocketAddr>), Failure<E>>) -> (step:
        SyscallStep<Result<(S, SocketAddr), IoError>, E>)
        ensures
            step == (match outcome {
                Ok((socket, address)) => SyscallStep::Done(
                    match address {
                        Some(address) => Ok::<(S, SocketAddr), IoError>((socket, address)),
                        None => Err(
                            IoError::Simple {
                                kind: IoErrorKind::InvalidData,
                                message: "socket returned a non-IP address",
                            },
                        ),
                    },
                ),
                Err(failure) => syscall_step(
                    Err::<Result<(S, SocketAddr), IoError>, Failure<E>>(failure),
                ),
            }),
    {
        match outcome {
            Ok((socket, address)) => match socket_addr(address) {
                Ok(address) => SyscallStep::Done(Ok((socket, address))),
                Err(error) => SyscallStep::Done(Err(error)),
            },
            Err(failure) => after_syscall(Err(failure)),
        }
    }
}

/// Converts the completion of a receive.
pub fn complete_recv(cqe: i32, remaining: usize, buffer_offset: usize, initialized: usize) -> (filled:
    Result<Filled, IoError>)
    requires
        cqe > i32::MIN,
        buffer_offset + remaining <= usize::MAX,
    ensures
        filled == crate::io::filled(
            cqe,
            remaining,
            buffer_offset,
            initialized,
            "kernel returned an oversized receive",
        ),
{
    complete_fill(
        cqe,
        remaining,
        buffer_offset,
        initialized,
        "kernel returned an oversized receive",
    )
}

/// Converts the completion of a send.
pub fn complete_send(cqe: i32, remaining: usize) -> (count: Result<usize, IoError>)
    requires
        cqe > i32::MIN,
    ensures
        count == crate::io::drained(cqe, remaining, "kernel returned an oversized send"),
{
    complete_drain(cqe, remaining, "kernel returned an oversized send")
}

} // verus!
