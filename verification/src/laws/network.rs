//! Addresses, attempts at them, readiness and transfers of sockets.
use vstd::prelude::*;
use crate::io::{Filled, IoError, IoErrorKind, Transfer, TransferStep};
use crate::net::{
    after_readiness, after_syscall, complete_recv, complete_send, socket_addr, Attempt, Attempts,
    Domain, Failure, IpAddr, Ipv4Addr, Ipv6Addr, LanePoll, ReadinessStep, ReadyLane, SocketAddr,
    SyscallStep, TcpListener, TcpStream, ToSocketAddrs,
};
use crate::waker::PollState;

verus! {

/// An address keeps its host and port and belongs to the domain of its host; a
/// version 6 address built from these two has no flow information and no scope.
pub proof fn lemma_address_belongs_to_its_domain(
    ip: IpAddr,
    port: u16,
    address: SocketAddr,
    ipv4: bool,
    domain: Domain,
)
    requires
        call_ensures(SocketAddr::new, (ip, port), address),
        call_ensures(SocketAddr::is_ipv4, (&address,), ipv4),
        call_ensures(SocketAddr::domain, (&address,), domain),
    ensures
        ipv4 <==> ip is V4,
        ipv4 <==> domain is Ipv4,
        ip matches IpAddr::V4(host) ==> address == (SocketAddr::V4 { ip: host, port }),
        ip matches IpAddr::V6(host) ==> address == (SocketAddr::V6 {
            ip: host,
            port,
            flowinfo: 0,
            scope_id: 0,
        }),
{
}

/// One address, or a host with a port, names that address alone; a slice or an
/// array names its addresses in order, and a reference what it refers to.
pub proof fn lemma_addresses_are_named_in_order(
    address: SocketAddr,
    ip: IpAddr,
    v4: Ipv4Addr,
    v6: Ipv6Addr,
    port: u16,
    several: &[SocketAddr],
)
    ensures
        address.candidates() == seq![address],
        (ip, port).candidates().len() == 1,
        (v4, port).candidates() == seq![SocketAddr::V4 { ip: v4, port }],
        (v6, port).candidates() == seq![
            SocketAddr::V6 { ip: v6, port, flowinfo: 0, scope_id: 0 },
        ],
        ip matches IpAddr::V4(host) ==> (ip, port).candidates() == (host, port).candidates(),
        ip matches IpAddr::V6(host) ==> (ip, port).candidates() == (host, port).candidates(),
        several.candidates() == several@,
        (&several).candidates() == several@,
{
}

/// Connecting needs an address and nothing else; listening also needs a running
/// runtime, whose absence is reported first.
pub proof fn lemma_attempts_need_an_address<A: ToSocketAddrs + ?Sized, E, O>(
    addresses: &A,
    running: bool,
    attempts: Result<Attempts<E>, IoError>,
    connecting: Result<Attempts<E>, IoError>,
    listening: Result<Attempts<E>, IoError>,
)
    requires
        call_ensures(Attempts::<E>::new::<A>, (addresses,), attempts),
        call_ensures(TcpStream::<O>::connect::<A, E>, (addresses,), connecting),
        call_ensures(TcpListener::bind::<A, E>, (running, addresses), listening),
    ensures
        attempts is Ok <==> addresses.candidates().len() > 0,
        connecting is Ok <==> attempts is Ok,
        listening is Ok <==> running && attempts is Ok,
        attempts matches Err(error) ==> error is Simple && error->kind == IoErrorKind::InvalidInput
            && error->message == "no socket addresses supplied" && connecting == Err::<
            Attempts<E>,
            IoError,
        >(error) && (running ==> listening == Err::<Attempts<E>, IoError>(error)),
        !running ==> listening->Err_0 is Simple && listening->Err_0->kind
            == IoErrorKind::BrokenPipe,
{
}

/// The first attempt is made at the first address, whoever asks for it.
pub proof fn lemma_first_address_is_tried_first<A: ToSocketAddrs + ?Sized, E, O>(
    addresses: &A,
    connecting: Attempts<E>,
    listening: Attempts<E>,
    first: Attempt,
    other: Attempt,
)
    requires
        call_ensures(
            TcpStream::<O>::connect::<A, E>,
            (addresses,),
            Ok::<Attempts<E>, IoError>(connecting),
        ),
        call_ensures(
            TcpListener::bind::<A, E>,
            (true, addresses),
            Ok::<Attempts<E>, IoError>(listening),
        ),
        call_ensures(Attempts::<E>::next, (&connecting,), first),
        call_ensures(Attempts::<E>::next, (&listening,), other),
    ensures
        first == Attempt::Try(addresses.candidates()[0]),
        other == first,
        connecting@.addresses == addresses.candidates(),
        connecting@.failed == 0,
{
}

/// After a failure the address behind the failed one is tried; after the failure of
/// the last address its error is the outcome.
pub proof fn lemma_next_address_is_tried_next<E>(
    attempts: &mut Attempts<E>,
    tried: Attempt,
    error: E,
    next: Attempt,
    reported: E,
)
    requires
        old(attempts)@.wf(),
        call_ensures(Attempts::<E>::next, (&*old(attempts),), tried),
        tried is Try,
        call_ensures(Attempts::<E>::failed, (attempts, error), ()),
        call_ensures(Attempts::<E>::next, (&*final(attempts),), next),
        call_ensures(Attempts::<E>::give_up, (*final(attempts),), reported),
    ensures
        ({
            let addresses = old(attempts)@.addresses;
            let at = old(attempts)@.failed;
            &&& 0 <= at < addresses.len()
            &&& tried->0 == addresses[at]
            &&& final(attempts)@.addresses == addresses
            &&& final(attempts)@.failed == at + 1
            &&& at + 1 < addresses.len() ==> next == Attempt::Try(addresses[at + 1])
            &&& at + 1 == addresses.len() ==> next is GiveUp
            &&& reported == error
        }),
{
}

/// A call that was interrupted is repeated, one that would block waits, and any
/// other failure is handed on; a result is the outcome. An accepted connection
/// without an address of a known domain is invalid data.
pub proof fn lemma_calls_end_as_they_returned<T, S, E>(
    value: T,
    failure: Failure<E>,
    done: SyscallStep<T, E>,
    failed: SyscallStep<T, E>,
    socket: S,
    address: Option<SocketAddr>,
    accepted: SyscallStep<Result<(S, SocketAddr), IoError>, E>,
    refused: SyscallStep<Result<(S, SocketAddr), IoError>, E>,
    converted: Result<SocketAddr, IoError>,
    listener: TcpListener,
)
    requires
        call_ensures(after_syscall::<T, E>, (Ok(value),), done),
        call_ensures(after_syscall::<T, E>, (Err(failure),), failed),
        call_ensures(
            TcpListener::accept::<S, E>,
            (&listener, Ok::<(S, Option<SocketAddr>), Failure<E>>((socket, address))),
            accepted,
        ),
        call_ensures(
            TcpListener::accept::<S, E>,
            (&listener, Err::<(S, Option<SocketAddr>), Failure<E>>(failure)),
            refused,
        ),
        call_ensures(socket_addr, (address,), converted),
    ensures
        done == SyscallStep::<T, E>::Done(value),
        failed is Retry <==> failure.errno == Some(4i32),
        failed is AwaitReadiness <==> failure.errno == Some(11i32),
        failed is Fail <==> failure.errno != Some(4i32) && failure.errno != Some(11i32),
        failed is Fail ==> failed->Fail_0 == failure.error,
        refused is Retry <==> failed is Retry,
        refused is AwaitReadiness <==> failed is AwaitReadiness,
        refused is Fail <==> failed is Fail,
        refused is Fail ==> refused->Fail_0 == failure.error,
        address matches Some(known) ==> converted == Ok::<SocketAddr, IoError>(known) && accepted
            == SyscallStep::<Result<(S, SocketAddr), IoError>, E>::Done(Ok((socket, known))),
        address is None ==> converted is Err && converted->Err_0 is Simple && converted->Err_0->kind
            == IoErrorKind::InvalidData && accepted == SyscallStep::<
            Result<(S, SocketAddr), IoError>,
            E,
        >::Done(Err(converted->Err_0)),
{
}

/// Readiness repeats the call, its failure is handed on, and until it is there the
/// call waits.
pub proof fn lemma_readiness_decides<E>(
    error: E,
    ready: ReadinessStep<E>,
    failed: ReadinessStep<E>,
    waiting: ReadinessStep<E>,
)
    requires
        call_ensures(after_readiness::<E>, (PollState::Ready(Ok(())),), ready),
        call_ensures(after_readiness::<E>, (PollState::Ready(Err(error)),), failed),
        call_ensures(after_readiness::<E>, (PollState::Pending,), waiting),
    ensures
        ready is Retry,
        failed == ReadinessStep::Fail(error),
        waiting is Pending,
{
}

/// A lane waits with one operation at a time, for its own events: an operation that
/// is not ready is taken up again, and one that is ready makes room for another.
pub proof fn lemma_lane_keeps_one_operation<O>(
    lane: &mut ReadyLane<O>,
    first: LanePoll<O>,
    finished: &mut ReadyLane<O>,
    operation: O,
    ready: bool,
    again: &mut ReadyLane<O>,
    second: LanePoll<O>,
)
    requires
        call_ensures(ReadyLane::<O>::begin, (lane,), first),
        *old(finished) == *final(lane),
        call_ensures(ReadyLane::<O>::finish, (finished, operation, ready), ()),
        *old(again) == *final(finished),
        call_ensures(ReadyLane::<O>::begin, (again,), second),
    ensures
        old(lane).operation matches Some(kept) ==> first == LanePoll::Existing(kept),
        old(lane).operation is None ==> first == LanePoll::<O>::Create(old(lane).events),
        !ready ==> second == LanePoll::Existing(operation),
        ready ==> second == LanePoll::<O>::Create(old(lane).events),
        final(again).events == old(lane).events,
{
}

/// Reading waits for input and writing for output, on lanes that begin without an
/// operation; a listener waits for input.
pub proof fn lemma_lanes_wait_for_their_events<O>(
    reads: ReadyLane<O>,
    writes: ReadyLane<O>,
    stream: TcpStream<O>,
    listener: TcpListener,
    accepting: u32,
)
    requires
        call_ensures(ReadyLane::<O>::for_reads, (), reads),
        call_ensures(ReadyLane::<O>::for_writes, (), writes),
        call_ensures(TcpStream::<O>::from_socket, (), stream),
        call_ensures(TcpListener::accept_events, (&listener,), accepting),
    ensures
        reads.events == 1 && reads.operation is None,
        writes.events == 4 && writes.operation is None,
        stream.read_ready == reads,
        stream.write_ready == writes,
        accepting == reads.events,
{
}

/// One receive or send moves the whole buffer, if the kernel takes as much at once;
/// nothing is read into a full buffer.
pub proof fn lemma_one_transfer_moves_the_buffer<O>(
    stream: TcpStream<O>,
    total: usize,
    remaining: usize,
    reads: bool,
    received: Result<u32, IoError>,
    sent: Result<u32, IoError>,
)
    requires
        call_ensures(TcpStream::<O>::poll_read, (&stream, remaining), reads),
        call_ensures(TcpStream::<O>::recv, (&stream, total), received),
        call_ensures(TcpStream::<O>::send, (&stream, total), sent),
    ensures
        reads <==> remaining > 0,
        received is Ok <==> total <= 0xffff_ffff,
        received matches Ok(len) ==> len == total,
        received matches Err(error) ==> error is Simple && error->kind == IoErrorKind::InvalidInput,
        sent == received,
{
}

/// An exact receive and a complete send begin with the whole buffer and end with an
/// error of their own when the peer closes the connection or takes nothing.
pub proof fn lemma_exact_transfers_begin_with_the_buffer<O>(
    stream: TcpStream<O>,
    total: usize,
    receive: Transfer,
    send: Transfer,
    receiving: TransferStep,
    sending: TransferStep,
)
    requires
        call_ensures(TcpStream::<O>::recv_exact, (&stream, total), receive),
        call_ensures(TcpStream::<O>::send_all, (&stream, total), send),
        call_ensures(Transfer::next, (&receive,), receiving),
        call_ensures(Transfer::next, (&send,), sending),
    ensures
        receive.total == total && receive.moved == 0 && receive.offset is None,
        send.total == total && send.moved == 0 && send.offset is None,
        receive.stall is Simple && receive.stall->kind == IoErrorKind::UnexpectedEof,
        send.stall is Simple && send.stall->kind == IoErrorKind::WriteZero,
        total == 0 ==> receiving is Finished && sending is Finished,
        0 < total <= 0xffff_ffff ==> receiving is Issue && receiving->len == total
            && receiving->buffer_offset == 0 && receiving->file_offset is None && sending
            == receiving,
{
}

/// What was received or sent is what the kernel answered, and its errors are handed
/// on with their numbers.
pub proof fn lemma_kernel_counts_are_handed_on(
    cqe: i32,
    remaining: usize,
    buffer_offset: usize,
    initialized: usize,
    received: Result<Filled, IoError>,
    sent: Result<usize, IoError>,
)
    requires
        cqe > i32::MIN,
        buffer_offset + remaining <= usize::MAX,
        call_ensures(complete_recv, (cqe, remaining, buffer_offset, initialized), received),
        call_ensures(complete_send, (cqe, remaining), sent),
    ensures
        cqe < 0 ==> received is Err && received->Err_0 is Os && received->Err_0->0 == 0 - cqe
            && sent is Err && sent->Err_0 is Os && sent->Err_0->0 == 0 - cqe,
        0 <= cqe <= remaining ==> received is Ok && received->Ok_0.count == cqe
            && received->Ok_0.initialized >= initialized && received->Ok_0.initialized
            >= buffer_offset + cqe && (received->Ok_0.initialized == initialized
            || received->Ok_0.initialized == buffer_offset + cqe) && sent is Ok && sent->Ok_0 == cqe,
        cqe > remaining ==> received is Err && received->Err_0 is Simple && received->Err_0->kind
            == IoErrorKind::InvalidData && sent is Err && sent->Err_0 is Simple
            && sent->Err_0->kind == IoErrorKind::InvalidData,
{
}

} // verus!
