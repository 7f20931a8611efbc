//! Driver state machine: routing, cancellation, buffering and admission.
use nosv::clock::Duration;
use nosv::error::InitError;
use nosv::io::{IoError, IoErrorKind};
use nosv::io_uring::admission::SubmitEntries;
use nosv::io_uring::completion::{
    Completion, CompletionError, Cqe, Sqe, SubmissionErrorKind, Violation,
};
use nosv::io_uring::config::{InvalidIoUringConfig, IoUringConfig};
use nosv::io_uring::context::{ContextKind, ContextPhase, CqeContext, Delivery};
use nosv::io_uring::driver::{CancelSqe, DriverData};
use nosv::io_uring::handles::IoUringHandle;
use nosv::io_uring::owned::{Owned, OwnedAdmission, OwnedOutcome, OwnedStep};
use nosv::io_uring::run::{has_backlog, PreparedRing, RunDecision, RunStep};
use nosv::io_uring::submission::SubmissionState;
use nosv::park::{DriverGate, DriverPark};
use nosv::waker::{PollState, Poller};

const CQE_F_MORE: u32 = 1 << 1;

fn poller(waker: u32) -> Poller<u32> {
    Poller { waker, registered: false }
}

fn cqe(user_data: u64, result: i32, flags: u32) -> Cqe {
    Cqe { user_data, result, flags, big_cqe: None }
}

fn context(kind: ContextKind, index: usize, original_user_data: u64) -> CqeContext {
    CqeContext {
        kind,
        phase: ContextPhase::Submitted,
        index,
        original_user_data,
        submission: 0,
        target: None,
        cancel_queued: false,
        cancel_seen: false,
    }
}

fn driver(state: SubmissionState<u32>, contexts: Vec<(u64, CqeContext)>) -> DriverData<u32> {
    let mut data = DriverData::new();
    data.submissions.insert(0, state);
    data.next_submission = 1;
    for (pointer, context) in contexts {
        data.contexts.insert(pointer, context);
        data.next_pointer = data.next_pointer.max(pointer + 1);
    }
    data
}

#[test]
fn configuration_validation() {
    assert!(IoUringConfig::default().validate().is_ok());
    assert_eq!(
        IoUringConfig { entries: 0, ..IoUringConfig::default() }.validate(),
        Err(InvalidIoUringConfig::ZeroEntries)
    );
    assert_eq!(
        IoUringConfig { entries: 3, ..IoUringConfig::default() }.validate(),
        Err(InvalidIoUringConfig::EntriesNotPowerOfTwo)
    );
    assert_eq!(
        IoUringConfig { reap_size: 0, ..IoUringConfig::default() }.validate(),
        Err(InvalidIoUringConfig::ZeroReapSize)
    );
    assert_eq!(
        IoUringConfig { poll_interval: Duration::zero(), ..IoUringConfig::default() }.validate(),
        Err(InvalidIoUringConfig::ZeroPollInterval)
    );
    assert_eq!(
        IoUringConfig { max_buffered_completions: 0, ..IoUringConfig::default() }.validate(),
        Err(InvalidIoUringConfig::ZeroCompletionBuffer)
    );
}

#[test]
fn configuration_defaults_and_texts() {
    let config = IoUringConfig::default();
    assert_eq!(config.entries, 256);
    assert_eq!(config.reap_size, 256);
    assert_eq!(config.poll_interval, Duration::from_micros(50));
    assert_eq!(config.max_buffered_completions, 65_536);
    for entries in [1u32, 2, 64, 1 << 31] {
        assert_eq!(IoUringConfig { entries, ..config }.validate(), Ok(IoUringConfig { entries, ..config }));
    }
    for entries in [6u32, 255, u32::MAX] {
        assert_eq!(
            IoUringConfig { entries, ..config }.validate(),
            Err(InvalidIoUringConfig::EntriesNotPowerOfTwo)
        );
    }
    assert_eq!(
        InvalidIoUringConfig::ZeroEntries.description(),
        "io_uring entries must be non-zero"
    );
    assert_eq!(
        InvalidIoUringConfig::EntriesNotPowerOfTwo.description(),
        "io_uring entries must be a power of two"
    );
    assert_eq!(
        InvalidIoUringConfig::ZeroCompletionBuffer.description(),
        "io_uring completion buffer limit must be non-zero"
    );
    assert_eq!(
        CompletionError::BufferOverflow.description(),
        "io_uring completion buffer overflowed; cancellation was requested"
    );
}

#[test]
fn ring_capabilities_are_required() {
    let ring = PreparedRing::new(IoUringConfig::default()).unwrap();
    assert_eq!(ring.config(), IoUringConfig::default());
    assert_eq!(
        PreparedRing::new(IoUringConfig { entries: 0, ..IoUringConfig::default() }),
        Err(InitError::InvalidIoUringConfig(InvalidIoUringConfig::ZeroEntries))
    );
    assert_eq!(ring.created(Ok(true)), Ok(()));
    assert_eq!(
        ring.created(Ok(false)),
        Err(InitError::IoUring(IoError::Simple {
            kind: IoErrorKind::Unsupported,
            message: "kernel io_uring does not provide IORING_FEAT_NODROP",
        }))
    );
    assert_eq!(ring.created(Err(IoError::Os(1))), Err(InitError::IoUring(IoError::Os(1))));
    assert_eq!(ring.probed(Ok(true)), Ok(()));
    assert_eq!(
        ring.probed(Ok(false)),
        Err(InitError::IoUring(IoError::Simple {
            kind: IoErrorKind::Unsupported,
            message: "kernel io_uring does not support IORING_OP_ASYNC_CANCEL",
        }))
    );
    assert_eq!(ring.probed(Err(IoError::Os(2))), Err(InitError::IoUring(IoError::Os(2))));
}

#[test]
fn pointer_context_preserves_metadata() {
    let mut data: DriverData<u32> = DriverData::new();
    let id = data.register_submission(1).unwrap();
    let mut submit = SubmitEntries { id, pending: None, next_index: 9, closed: false, done: false };
    // The next SQE is the tenth one of its iterator.
    let mut state = SubmissionState::new(1);
    state.originals = 9;
    state.accepted = 9;
    state.original_terminal = 9;
    data.submissions.insert(id, state);
    let mut entries = vec![Sqe { user_data: u64::MAX, operation: () }].into_iter();
    let mut wakes = Vec::new();
    let admission = submit.admit_entries(&mut data, &mut entries, 4, &mut wakes).unwrap();
    let pointer = admission.originals[0].user_data;
    assert_ne!(pointer, 0);
    let context = data.contexts.get(pointer).unwrap();
    assert_eq!(context.original_user_data, u64::MAX);
    assert_eq!(context.index, 9);
    assert_eq!(context.kind, ContextKind::Original);
    assert_eq!(context.phase, ContextPhase::Staged);
}

#[test]
fn park_decisions() {
    let mut data: DriverData<u32> = DriverData::new();
    assert_eq!(data.decide(false), RunDecision::Pause);
    assert_eq!(data.decide(true), RunDecision::Yield);
    data.shutdown = true;
    assert_eq!(data.decide(false), RunDecision::Stop);
}

#[test]
fn active_driver_waits_and_keeps_running() {
    let mut state = SubmissionState::new(4);
    state.originals = 1;
    state.accepted = 1;
    let mut data = driver(state, vec![(1, context(ContextKind::Original, 0, 5))]);
    assert_eq!(data.decide(false), RunDecision::Wait);
    assert_eq!(data.decide(true), RunDecision::Yield);
    data.begin_shutdown();
    assert_eq!(data.decide(false), RunDecision::Yield);
    assert!(has_backlog(256, 256, true));
    assert!(has_backlog(3, 256, false));
    assert!(!has_backlog(3, 256, true));
}

#[test]
fn pass_parks_unless_notified() {
    let data: DriverData<u32> = DriverData::new();
    let mut gate = DriverGate { raw: Some(7u32), phase: DriverPark::Running, notified: true };
    assert_eq!(data.after_pass(&mut gate, false), RunStep::Continue);
    assert!(!gate.notified);
    assert_eq!(gate.phase, DriverPark::Running);
    assert_eq!(data.after_pass(&mut gate, false), RunStep::Pause);
    assert_eq!(gate.phase, DriverPark::Paused);
}

#[test]
fn original_dispatch_restores_user_data_and_retires_context() {
    let mut state = SubmissionState::new(4);
    state.iterator_finished = true;
    state.originals = 1;
    state.accepted = 1;
    let pointer = 1;
    let mut data = driver(state, vec![(pointer, context(ContextKind::Original, 3, 0x55aa))]);
    let mut wakes = Vec::new();
    assert!(data.dispatch(cqe(pointer, -libc::EIO, 0), &mut wakes).unwrap().is_none());
    assert!(data.contexts.is_empty());
    let mut state = data.submissions.remove(0).unwrap();
    let completion = state.normal.pop_front().unwrap();
    assert_eq!(completion.index, 3);
    assert_eq!(completion.cqe.user_data, 0x55aa);
    assert_eq!(completion.cqe.result, -libc::EIO);
    assert_eq!(state.original_terminal, 1);
}

fn cancellation_order(cancel_first: bool) {
    let mut state = SubmissionState::new(4);
    state.delivery = Delivery::Cancelling;
    state.iterator_finished = true;
    state.originals = 1;
    state.accepted = 1;
    state.cancels = 1;
    let original_pointer = 1;
    let cancel_pointer = 2;
    let original =
        CqeContext { cancel_queued: true, ..context(ContextKind::Original, 1, 99) };
    let cancel =
        CqeContext { target: Some(original_pointer), ..context(ContextKind::Cancel, 1, 99) };
    let mut data = driver(state, vec![(original_pointer, original), (cancel_pointer, cancel)]);
    let mut wakes = Vec::new();
    if cancel_first {
        data.dispatch(cqe(cancel_pointer, 0, 0), &mut wakes).unwrap();
        data.dispatch(cqe(original_pointer, -libc::ECANCELED, 0), &mut wakes).unwrap();
    } else {
        data.dispatch(cqe(original_pointer, -libc::ECANCELED, 0), &mut wakes).unwrap();
        assert!(data.contexts.contains(original_pointer));
        data.dispatch(cqe(cancel_pointer, 0, 0), &mut wakes).unwrap();
    }
    assert!(data.contexts.is_empty());
    let mut state = data.submissions.remove(0).unwrap();
    assert_eq!(state.original_terminal, 1);
    assert_eq!(state.cancel_terminal, 1);
    let completion = state.cancellations.pop_front().unwrap();
    assert_eq!(completion.index, 1);
    assert_eq!(completion.cqe.user_data, 99);
}

#[test]
fn cancellation_cqes_are_order_independent() {
    cancellation_order(false);
    cancellation_order(true);
}

#[test]
fn loom_completion_and_detach_destroy_only_at_terminal_cqe() {
    for detach_first in [false, true] {
        let mut data: DriverData<u32> = DriverData::new();
        let handle = IoUringHandle { max_buffered_completions: 4 };
        let mut submit: SubmitEntries<()> = handle.submit_entries(&mut data, true).unwrap();
        let mut wakes = Vec::new();
        let mut entries = vec![Sqe { user_data: 8, operation: () }].into_iter();
        let admission = submit.admit_entries(&mut data, &mut entries, 4, &mut wakes).unwrap();
        let pointer = admission.originals[0].user_data;
        data.submit_staged(Ok(1), &mut wakes).unwrap();
        if detach_first {
            submit.release(&mut data);
            assert!(data.contexts.contains(pointer));
            assert_eq!(data.dispatch(cqe(pointer, 0, 0), &mut wakes), Ok(None));
            // The queued cancellation still refers to the context.
            assert!(data.contexts.contains(pointer));
            let cancels = data.stage_cancellations(4).unwrap();
            assert_eq!(cancels.len(), 1);
            data.submit_staged(Ok(1), &mut wakes).unwrap();
            data.dispatch(cqe(cancels[0].user_data, 0, 0), &mut wakes).unwrap();
        } else {
            assert_eq!(data.dispatch(cqe(pointer, 0, 0), &mut wakes), Ok(None));
            submit.release(&mut data);
        }
        assert!(data.contexts.is_empty());
        data.begin_shutdown();
        assert_eq!(data.decide(false), RunDecision::Stop);
    }
}

#[test]
fn multishot_context_is_retained_until_more_flag_clears() {
    assert!(io_uring::cqueue::more(CQE_F_MORE));
    let mut state = SubmissionState::new(4);
    state.iterator_finished = true;
    state.originals = 1;
    state.accepted = 1;
    let pointer = 1;
    let mut data = driver(state, vec![(pointer, context(ContextKind::Original, 0, 77))]);
    let mut wakes = Vec::new();
    data.dispatch(cqe(pointer, 1, CQE_F_MORE), &mut wakes).unwrap();
    assert!(data.contexts.contains(pointer));
    assert_eq!(data.submissions.get(0).unwrap().original_terminal, 0);
    data.dispatch(cqe(pointer, 2, 0), &mut wakes).unwrap();
    assert!(data.contexts.is_empty());
    let mut state = data.submissions.remove(0).unwrap();
    assert_eq!(state.original_terminal, 1);
    assert_eq!(state.normal.len(), 2);
    assert_eq!(state.normal.pop_front().unwrap().cqe.user_data, 77);
    assert_eq!(state.normal.pop_front().unwrap().cqe.user_data, 77);
}

#[test]
fn other_flags_do_not_announce_completions() {
    let mut state = SubmissionState::new(4);
    state.originals = 1;
    state.accepted = 1;
    let mut data = driver(state, vec![(1, context(ContextKind::Original, 0, 77))]);
    data.dispatch(cqe(1, 1, !CQE_F_MORE), &mut Vec::new()).unwrap();
    assert!(data.contexts.is_empty());
}

#[test]
fn completion_limit_closes_delivery_and_reports_overflow_once() {
    let mut state = SubmissionState::new(1);
    state.iterator_finished = true;
    state.originals = 2;
    state.accepted = 2;
    let pointers = [1, 2];
    let contexts = (0..2)
        .map(|index| (pointers[index], context(ContextKind::Original, index, index as u64)))
        .collect();
    let mut data = driver(state, contexts);
    let mut wakes = Vec::new();
    assert!(data.dispatch(cqe(pointers[0], 0, 0), &mut wakes).unwrap().is_none());
    let overflow =
        data.dispatch(cqe(pointers[1], 0, 0), &mut wakes).unwrap().expect("overflow state");
    assert_eq!(overflow, 0);
    let state = data.submissions.get(0).unwrap();
    assert_eq!(state.delivery, Delivery::Overflow);
    assert!(state.normal_overflow);
    assert_eq!(state.normal.len(), 1);
    assert_eq!(state.original_terminal, 2);
}

#[test]
fn overflow_follows_the_buffered_completions_once() {
    let mut state = SubmissionState::new(1);
    state.iterator_finished = true;
    state.originals = 2;
    state.accepted = 2;
    let mut data = driver(
        state,
        vec![
            (1, context(ContextKind::Original, 0, 10)),
            (2, context(ContextKind::Original, 1, 11)),
        ],
    );
    let mut wakes = Vec::new();
    assert_eq!(data.reap(vec![cqe(1, 0, 0), cqe(2, 0, 0)], &mut wakes), Ok(()));
    let mut state = data.submissions.remove(0).unwrap();
    assert_eq!(
        state.poll_next(poller(1)),
        PollState::Ready(Some(Ok(Completion { index: 0, cqe: cqe(10, 0, 0) })))
    );
    assert_eq!(
        state.poll_next(poller(1)),
        PollState::Ready(Some(Err(CompletionError::BufferOverflow)))
    );
    assert_eq!(state.poll_next(poller(1)), PollState::Ready(None));
}

#[test]
fn reaping_cancels_what_overflowed() {
    let mut state = SubmissionState::new(1);
    state.originals = 3;
    state.accepted = 3;
    let mut data = driver(
        state,
        vec![
            (1, context(ContextKind::Original, 0, 10)),
            (2, context(ContextKind::Original, 1, 11)),
            (3, context(ContextKind::Original, 2, 12)),
        ],
    );
    let mut wakes = Vec::new();
    data.reap(vec![cqe(1, 0, 0), cqe(2, 0, 0)], &mut wakes).unwrap();
    let cancels = data.stage_cancellations(8).unwrap();
    assert_eq!(cancels, vec![CancelSqe { user_data: 4, target: 3 }]);
    assert_eq!(data.submissions.get(0).unwrap().cancels, 1);
}

#[test]
fn protocol_violations_are_reported() {
    let mut state = SubmissionState::new(1);
    state.originals = 2;
    state.accepted = 1;
    state.cancels = 1;
    let staged = CqeContext {
        phase: ContextPhase::Staged,
        ..context(ContextKind::Original, 1, 0)
    };
    let original = CqeContext { cancel_queued: true, ..context(ContextKind::Original, 0, 0) };
    let cancel = CqeContext { target: Some(1), ..context(ContextKind::Cancel, 0, 0) };
    let mut data = driver(state, vec![(1, original), (2, cancel), (3, staged)]);
    data.staged.push_back(3);
    let mut wakes = Vec::new();
    assert_eq!(data.dispatch(cqe(0, 0, 0), &mut wakes), Err(Violation::NullContext));
    assert_eq!(data.dispatch(cqe(9, 0, 0), &mut wakes), Err(Violation::UnknownContext));
    assert_eq!(data.dispatch(cqe(3, 0, 0), &mut wakes), Err(Violation::UnsubmittedContext));
    assert_eq!(
        data.dispatch(cqe(2, 0, CQE_F_MORE), &mut wakes),
        Err(Violation::MultishotCancellation)
    );
    assert_eq!(data.submit_staged(Ok(2), &mut wakes), Err(Violation::UnstagedAccepted));
    assert_eq!(data.submit_staged(Err(Some(libc::EINTR)), &mut wakes), Ok(()));
    assert_eq!(data.submit_staged(Err(Some(libc::EAGAIN)), &mut wakes), Ok(()));
    assert_eq!(data.submit_staged(Err(Some(libc::EBUSY)), &mut wakes), Ok(()));
    assert_eq!(data.staged.len(), 1);
    assert_eq!(data.submit_staged(Err(Some(libc::EINVAL)), &mut wakes), Err(Violation::SubmitFailed));
    assert_eq!(data.submit_staged(Err(None), &mut wakes), Err(Violation::SubmitFailed));
    data.next_submission = u64::MAX;
    assert_eq!(data.register_submission(1), Err(Violation::SubmissionsExhausted));
    data.next_pointer = u64::MAX;
    let mut submit: SubmitEntries<()> =
        SubmitEntries { id: 0, pending: None, next_index: 2, closed: false, done: false };
    let mut entries = Vec::new().into_iter();
    assert_eq!(
        submit.admit_entries(&mut data, &mut entries, 1, &mut wakes).err(),
        Some(Violation::PointersExhausted)
    );
    assert!(wakes.is_empty());
}

#[test]
fn admission_crosses_the_ring_depth() {
    let mut data: DriverData<u32> = DriverData::new();
    let handle = IoUringHandle { max_buffered_completions: 8 };
    let mut submit: SubmitEntries<char> = handle.submit_entries(&mut data, true).unwrap();
    let mut wakes = Vec::new();
    let mut entries = "abc".chars().map(|operation| Sqe { user_data: 7, operation });
    let first = submit.admit_entries(&mut data, &mut entries, 2, &mut wakes).unwrap();
    assert!(first.notify);
    assert_eq!(
        first.originals,
        vec![Sqe { user_data: 1, operation: 'a' }, Sqe { user_data: 2, operation: 'b' }]
    );
    assert_eq!(submit.pending, Some((2, Sqe { user_data: 7, operation: 'c' })));
    assert!(matches!(submit.poll(&mut data, poller(5)), PollState::Pending));
    data.submit_staged(Ok(2), &mut wakes).unwrap();
    assert_eq!(wakes, vec![5]);
    let second = submit.admit_entries(&mut data, &mut entries, 2, &mut wakes).unwrap();
    assert_eq!(second.originals, vec![Sqe { user_data: 3, operation: 'c' }]);
    data.submit_staged(Ok(1), &mut wakes).unwrap();
    let stream = match submit.poll(&mut data, poller(5)) {
        PollState::Ready(Ok(stream)) => stream,
        _ => panic!("admission is complete"),
    };
    assert!(submit.done);
    // Completions arrive out of order and carry the caller's tag.
    data.reap(vec![cqe(3, 30, 0), cqe(1, 10, 0)], &mut wakes).unwrap();
    let next = stream.next();
    assert_eq!(
        next.poll(&mut data, poller(6)),
        PollState::Ready(Some(Ok(Completion { index: 2, cqe: cqe(7, 30, 0) })))
    );
    assert_eq!(
        next.poll(&mut data, poller(6)),
        PollState::Ready(Some(Ok(Completion { index: 0, cqe: cqe(7, 10, 0) })))
    );
    assert_eq!(next.poll(&mut data, poller(6)), PollState::Pending);
    wakes.clear();
    data.reap(vec![cqe(2, 20, 0)], &mut wakes).unwrap();
    assert_eq!(wakes, vec![6]);
    assert_eq!(
        next.poll(&mut data, poller(6)),
        PollState::Ready(Some(Ok(Completion { index: 1, cqe: cqe(7, 20, 0) })))
    );
    assert_eq!(next.poll(&mut data, poller(6)), PollState::Ready(None));
}

#[test]
fn explicit_async_cancel_reports_and_drains_original() {
    let mut data: DriverData<u32> = DriverData::new();
    let handle = IoUringHandle { max_buffered_completions: 8 };
    let mut submit: SubmitEntries<()> = handle.submit_entries(&mut data, true).unwrap();
    let mut wakes = Vec::new();
    let mut entries = vec![Sqe { user_data: 0xcafe, operation: () }].into_iter();
    submit.admit_entries(&mut data, &mut entries, 4, &mut wakes).unwrap();
    data.submit_staged(Ok(1), &mut wakes).unwrap();
    let stream = match submit.poll(&mut data, poller(1)) {
        PollState::Ready(Ok(stream)) => stream,
        _ => panic!("admission is complete"),
    };
    let mut cancellation = stream.cancel(&mut data);
    let drained = cancellation.wait_drained();
    assert_eq!(drained.poll(&mut data, poller(2)), PollState::Pending);
    let cancels = data.stage_cancellations(4).unwrap();
    assert_eq!(cancels, vec![CancelSqe { user_data: 2, target: 1 }]);
    data.submit_staged(Ok(1), &mut wakes).unwrap();
    wakes.clear();
    data.reap(vec![cqe(2, 0, 0)], &mut wakes).unwrap();
    assert_eq!(drained.poll(&mut data, poller(2)), PollState::Pending);
    data.reap(vec![cqe(1, -libc::ECANCELED, 0)], &mut wakes).unwrap();
    assert_eq!(wakes, vec![2]);
    assert_eq!(drained.poll(&mut data, poller(2)), PollState::Ready(()));
    assert_eq!(
        cancellation.next().poll(&mut data, poller(3)),
        PollState::Ready(Some(Ok(Completion { index: 0, cqe: cqe(0xcafe, 0, 0) })))
    );
    assert_eq!(cancellation.next().poll(&mut data, poller(3)), PollState::Ready(None));
    cancellation.release(&mut data);
    data.begin_shutdown();
    assert_eq!(data.decide(false), RunDecision::Stop);
}

#[test]
fn cancellation_is_requested_once() {
    let mut state = SubmissionState::new(4);
    state.originals = 1;
    state.accepted = 1;
    let mut data = driver(state, vec![(1, context(ContextKind::Original, 0, 5))]);
    data.request_cancel(0, Delivery::Cancelling);
    data.request_cancel(0, Delivery::Cancelling);
    assert_eq!(data.cancel_queue.len(), 1);
    assert_eq!(data.cancel_queue[0].target, 1);
    assert_eq!(data.submissions.get(0).unwrap().cancels, 1);
    assert_eq!(data.submissions.get(0).unwrap().delivery, Delivery::Cancelling);
}

#[test]
fn closed_runtime_refuses_admission() {
    let mut data: DriverData<u32> = DriverData::new();
    let handle = IoUringHandle { max_buffered_completions: 8 };
    let mut closed: SubmitEntries<()> = handle.submit_entries(&mut data, false).unwrap();
    match closed.poll(&mut data, poller(1)) {
        PollState::Ready(Err(error)) => {
            assert_eq!(error.kind(), SubmissionErrorKind::RuntimeClosed);
            assert_eq!(error.description(), "the io_uring runtime is closed");
            assert_eq!(error.into_cancellation().id, closed.id);
        }
        _ => panic!("the runtime is closed"),
    }
    let mut late: SubmitEntries<()> = handle.submit_entries(&mut data, true).unwrap();
    data.begin_shutdown();
    let mut wakes = Vec::new();
    let mut entries = vec![Sqe { user_data: 1, operation: () }].into_iter();
    let admission = late.admit_entries(&mut data, &mut entries, 4, &mut wakes).unwrap();
    assert!(admission.originals.is_empty() && admission.cancels.is_empty() && admission.notify);
    match late.poll(&mut data, poller(1)) {
        PollState::Ready(Err(error)) => {
            assert_eq!(error.kind(), SubmissionErrorKind::RuntimeClosed)
        }
        _ => panic!("the driver is closed"),
    }
}

#[test]
fn overflow_during_admission_is_an_error() {
    let mut data: DriverData<u32> = DriverData::new();
    let handle = IoUringHandle { max_buffered_completions: 1 };
    let mut submit: SubmitEntries<()> = handle.submit_entries(&mut data, true).unwrap();
    let mut wakes = Vec::new();
    let mut entries = (0..3).map(|tag| Sqe { user_data: tag, operation: () });
    submit.admit_entries(&mut data, &mut entries, 2, &mut wakes).unwrap();
    data.submit_staged(Ok(2), &mut wakes).unwrap();
    data.reap(vec![cqe(1, 0, 0), cqe(2, 0, 0)], &mut wakes).unwrap();
    match submit.poll(&mut data, poller(1)) {
        PollState::Ready(Err(error)) => {
            assert_eq!(error.kind(), SubmissionErrorKind::CompletionBufferOverflow);
            assert_eq!(
                error.description(),
                "completion buffering overflowed during admission"
            );
        }
        _ => panic!("the buffer overflowed"),
    }
}

#[test]
fn dropped_stream_is_cancelled_and_drained_by_shutdown() {
    let mut data: DriverData<u32> = DriverData::new();
    let handle = IoUringHandle { max_buffered_completions: 8 };
    let mut submit: SubmitEntries<()> = handle.submit_entries(&mut data, true).unwrap();
    let mut wakes = Vec::new();
    let mut entries = vec![Sqe { user_data: 0xdead, operation: () }].into_iter();
    submit.admit_entries(&mut data, &mut entries, 4, &mut wakes).unwrap();
    data.submit_staged(Ok(1), &mut wakes).unwrap();
    let mut stream = match submit.poll(&mut data, poller(1)) {
        PollState::Ready(Ok(stream)) => stream,
        _ => panic!("admission is complete"),
    };
    stream.release(&mut data);
    assert!(!stream.active);
    data.begin_shutdown();
    assert_eq!(data.decide(false), RunDecision::Yield);
    let cancels = data.stage_cancellations(1).unwrap();
    data.submit_staged(Ok(1), &mut wakes).unwrap();
    assert_eq!(data.decide(false), RunDecision::Wait);
    data.reap(
        vec![cqe(1, -libc::ECANCELED, 0), cqe(cancels[0].user_data, 0, 0)],
        &mut wakes,
    )
    .unwrap();
    assert_eq!(data.decide(false), RunDecision::Stop);
    assert!(data.submissions.get(0).unwrap().normal.is_empty());
}

#[test]
fn large_completions_keep_their_payload() {
    let mut state = SubmissionState::new(4);
    state.originals = 1;
    state.accepted = 1;
    let mut data = driver(state, vec![(1, context(ContextKind::Original, 0, 5))]);
    let large = Cqe { user_data: 1, result: 0, flags: 0, big_cqe: Some((3, 4)) };
    data.dispatch(large, &mut Vec::new()).unwrap();
    let mut state = data.submissions.remove(0).unwrap();
    assert_eq!(
        state.normal.pop_front().unwrap().cqe,
        Cqe { user_data: 5, result: 0, flags: 0, big_cqe: Some((3, 4)) }
    );
}

/// Answers every SQE with success, in order, in passes of at most `reap_size`.
fn answer(data: &mut DriverData<u32>, queue: &mut Vec<u64>, reap_size: usize) {
    while !queue.is_empty() {
        let count = reap_size.min(queue.len());
        let cqes: Vec<Cqe> = queue.drain(..count).map(|pointer| cqe(pointer, 0, 0)).collect();
        assert!(has_backlog(cqes.len(), reap_size, queue.is_empty()) || queue.is_empty());
        data.reap(cqes, &mut Vec::new()).unwrap();
    }
}

/// Admits what fits into a ring of `depth` entries and has the kernel accept it.
fn push(
    data: &mut DriverData<u32>,
    submit: &mut SubmitEntries<()>,
    entries: &mut impl Iterator<Item = Sqe<()>>,
    depth: usize,
    queue: &mut Vec<u64>,
) {
    let admission = submit.admit_entries(data, entries, depth, &mut Vec::new()).unwrap();
    queue.extend(admission.originals.iter().map(|entry| entry.user_data));
    data.submit_staged(Ok(admission.originals.len()), &mut Vec::new()).unwrap();
}

#[test]
fn raw_nop_restores_user_data_from_block_on() {
    let mut data: DriverData<u32> = DriverData::new();
    let handle = IoUringHandle { max_buffered_completions: 65_536 };
    let mut submit: SubmitEntries<()> = handle.submit_entries(&mut data, true).unwrap();
    let mut queue = Vec::new();
    let mut entries = vec![Sqe { user_data: 0xfeed_beef, operation: () }].into_iter();
    push(&mut data, &mut submit, &mut entries, 256, &mut queue);
    let stream = match submit.poll(&mut data, poller(1)) {
        PollState::Ready(Ok(stream)) => stream,
        _ => panic!("admission is complete"),
    };
    answer(&mut data, &mut queue, 256);
    assert_eq!(
        stream.next().poll(&mut data, poller(1)),
        PollState::Ready(Some(Ok(Completion { index: 0, cqe: cqe(0xfeed_beef, 0, 0) })))
    );
    assert_eq!(stream.next().poll(&mut data, poller(1)), PollState::Ready(None));
    data.begin_shutdown();
    assert_eq!(data.decide(false), RunDecision::Stop);
}

#[test]
fn concurrent_spawned_bursts_cross_ring_depth_and_reap_size() {
    let mut data: DriverData<u32> = DriverData::new();
    let handle = IoUringHandle { max_buffered_completions: 128 };
    let mut first: SubmitEntries<()> = handle.submit_entries(&mut data, true).unwrap();
    let mut second: SubmitEntries<()> = handle.submit_entries(&mut data, true).unwrap();
    let mut first_entries = (0..40).map(|value| Sqe { user_data: value, operation: () });
    let mut second_entries = (0..40).map(|value| Sqe { user_data: 1000 + value, operation: () });
    let mut queue = Vec::new();
    let (mut first_stream, mut second_stream) = (None, None);
    while first_stream.is_none() || second_stream.is_none() {
        if first_stream.is_none() {
            push(&mut data, &mut first, &mut first_entries, 8, &mut queue);
            if let PollState::Ready(result) = first.poll(&mut data, poller(1)) {
                first_stream = Some(result.unwrap());
            }
        }
        if second_stream.is_none() {
            push(&mut data, &mut second, &mut second_entries, 8, &mut queue);
            if let PollState::Ready(result) = second.poll(&mut data, poller(2)) {
                second_stream = Some(result.unwrap());
            }
        }
        answer(&mut data, &mut queue, 2);
    }
    for (stream, base) in [(first_stream.unwrap(), 0), (second_stream.unwrap(), 1000)] {
        let mut seen = Vec::new();
        while let PollState::Ready(Some(completion)) = stream.next().poll(&mut data, poller(3)) {
            let completion = completion.unwrap();
            assert_eq!(completion.cqe.user_data, base + completion.index as u64);
            seen.push(completion.index);
        }
        assert_eq!(seen.len(), 40);
        assert_eq!(seen.iter().copied().max(), Some(39));
    }
    data.begin_shutdown();
    assert_eq!(data.decide(false), RunDecision::Stop);
}

#[test]
fn large_entries_use_the_same_raw_submission_api() {
    let mut data: DriverData<u32> = DriverData::new();
    let handle = IoUringHandle { max_buffered_completions: 65_536 };
    let mut submit: SubmitEntries<()> = handle.submit_entries(&mut data, true).unwrap();
    let mut queue = Vec::new();
    let mut entries = vec![Sqe { user_data: 0x1234_5678, operation: () }].into_iter();
    push(&mut data, &mut submit, &mut entries, 256, &mut queue);
    let stream = match submit.poll(&mut data, poller(1)) {
        PollState::Ready(Ok(stream)) => stream,
        _ => panic!("admission is complete"),
    };
    let large = |user_data: u64| Cqe { user_data, result: 0, flags: 0, big_cqe: Some((1, 2)) };
    data.reap(vec![large(queue[0])], &mut Vec::new()).unwrap();
    assert_eq!(
        stream.next().poll(&mut data, poller(1)),
        PollState::Ready(Some(Ok(Completion { index: 0, cqe: large(0x1234_5678) })))
    );
    assert_eq!(stream.next().poll(&mut data, poller(1)), PollState::Ready(None));
}

#[test]
fn shutdown_refuses_a_pending_admission() {
    let mut data: DriverData<u32> = DriverData::new();
    let handle = IoUringHandle { max_buffered_completions: 8 };
    let mut submit: SubmitEntries<()> = handle.submit_entries(&mut data, true).unwrap();
    let mut entries = (0..4).map(|value| Sqe { user_data: value, operation: () });
    push(&mut data, &mut submit, &mut entries, 2, &mut Vec::new());
    assert!(matches!(submit.poll(&mut data, poller(1)), PollState::Pending));
    data.begin_shutdown();
    let admission = submit.admit_entries(&mut data, &mut entries, 2, &mut Vec::new()).unwrap();
    assert!(admission.originals.is_empty() && admission.cancels.is_empty());
    match submit.poll(&mut data, poller(1)) {
        PollState::Ready(Err(error)) => {
            assert_eq!(error.kind(), SubmissionErrorKind::RuntimeClosed);
        }
        _ => panic!("the driver is shutting down"),
    }
    // Nothing is retained for a detached submission, but retirement is counted.
    data.reap(vec![cqe(1, 0, 0), cqe(2, 0, 0)], &mut Vec::new()).unwrap();
    let state = data.submissions.get(0).unwrap();
    assert!(state.normal.is_empty());
    assert_eq!((state.original_terminal, state.cancels), (2, 2));
}

#[test]
fn admission_stops_at_the_last_index() {
    let mut data: DriverData<u32> = DriverData::new();
    let handle = IoUringHandle { max_buffered_completions: 8 };
    let mut submit: SubmitEntries<()> = handle.submit_entries(&mut data, true).unwrap();
    let mut state = data.submissions.remove(0).unwrap();
    state.originals = usize::MAX;
    state.accepted = usize::MAX;
    state.original_terminal = usize::MAX;
    data.submissions.insert(0, state);
    submit.next_index = usize::MAX;
    let mut none = std::iter::empty();
    assert!(submit.admit_entries(&mut data, &mut none, 2, &mut Vec::new()).is_ok());
    let mut one = std::iter::once(Sqe { user_data: 5, operation: () });
    assert!(matches!(
        submit.admit_entries(&mut data, &mut one, 2, &mut Vec::new()),
        Err(Violation::IndexExhausted)
    ));
}

/// Admits one owned operation and lets the kernel accept it.
fn owned(data: &mut DriverData<u32>) -> Owned<()> {
    let handle = IoUringHandle { max_buffered_completions: 1 };
    let mut submit = handle.submit_entries(data, true).unwrap();
    let mut entries = vec![Sqe { user_data: 0, operation: () }].into_iter();
    submit.admit_entries(data, &mut entries, 1, &mut Vec::new()).unwrap();
    match Owned::Admitting(submit).advance(data, false, poller(0)) {
        OwnedStep::Wait(operation) => {
            data.submit_staged(Ok(1), &mut Vec::new()).unwrap();
            operation
        }
        _ => panic!("the kernel has not accepted the entry"),
    }
}

/// Moves an operation as far as possible.
fn drive(
    data: &mut DriverData<u32>,
    mut operation: Owned<()>,
    cancelled: bool,
) -> Result<Owned<()>, OwnedOutcome> {
    loop {
        operation = match operation.advance(data, cancelled, poller(0)) {
            OwnedStep::Continue(operation) => operation,
            OwnedStep::Wait(operation) => return Ok(operation),
            OwnedStep::Finish(outcome) => return Err(outcome),
        };
    }
}

#[test]
fn owned_operation_reports_its_result() {
    let mut data: DriverData<u32> = DriverData::new();
    let operation = owned(&mut data);
    let Ok(operation) = drive(&mut data, operation, false) else {
        panic!("the operation runs");
    };
    assert!(matches!(operation, Owned::Running(_)));
    data.reap(vec![cqe(1, 17, 0)], &mut Vec::new()).unwrap();
    assert_eq!(drive(&mut data, operation, false).err(), Some(OwnedOutcome::Completed(17)));
    assert!(data.contexts.is_empty());
}

#[test]
fn owned_operation_keeps_its_resources_until_it_retires() {
    let mut data: DriverData<u32> = DriverData::new();
    let operation = owned(&mut data);
    let Ok(operation) = drive(&mut data, operation, true) else {
        panic!("the kernel still uses the resources");
    };
    assert!(matches!(operation, Owned::Retiring(_, OwnedOutcome::Cancelled)));
    let cancels = data.stage_cancellations(1).unwrap();
    data.submit_staged(Ok(1), &mut Vec::new()).unwrap();
    data.reap(vec![cqe(cancels[0].user_data, 0, 0)], &mut Vec::new()).unwrap();
    let Ok(operation) = drive(&mut data, operation, true) else {
        panic!("the kernel still uses the resources");
    };
    data.reap(vec![cqe(1, -libc::ECANCELED, 0)], &mut Vec::new()).unwrap();
    assert_eq!(drive(&mut data, operation, true).err(), Some(OwnedOutcome::Cancelled));
}

#[test]
fn owned_operation_is_closed_by_shutdown() {
    let mut data: DriverData<u32> = DriverData::new();
    assert_eq!(data.offer_owned(true), OwnedAdmission::Accept);
    assert_eq!(
        data.offer_owned(false),
        OwnedAdmission::Fail(IoError::Simple {
            kind: IoErrorKind::Unsupported,
            message: "kernel io_uring does not support this operation",
        })
    );
    let operation = owned(&mut data);
    data.begin_shutdown();
    assert_eq!(data.offer_owned(true), OwnedAdmission::Return);
    let Ok(operation) = drive(&mut data, operation, false) else {
        panic!("the kernel still uses the resources");
    };
    let cancels = data.stage_cancellations(1).unwrap();
    data.submit_staged(Ok(1), &mut Vec::new()).unwrap();
    data.reap(
        vec![cqe(1, -libc::ECANCELED, 0), cqe(cancels[0].user_data, 0, 0)],
        &mut Vec::new(),
    )
    .unwrap();
    assert_eq!(drive(&mut data, operation, false).err(), Some(OwnedOutcome::Closed));
    assert_eq!(data.decide(false), RunDecision::Stop);
}
