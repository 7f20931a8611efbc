//! Drivers that park: no notification is lost, and a descriptor is released once.
use vstd::prelude::*;
use crate::error::NativeError;
use crate::park::{DriverGate, DriverWake, EarlyCompletion, ParkMode, StartStep};

verus! {

/// A driver that was notified while it ran does not park: it makes another pass, and
/// may park only after that.
pub proof fn lemma_notified_driver_makes_another_pass<R: Copy>(
    gate: &mut DriverGate<R>,
    wake: Option<DriverWake<R>>,
    parking: &mut DriverGate<R>,
    mode: ParkMode,
    parks: bool,
    later: &mut DriverGate<R>,
    again: bool,
)
    requires
        old(gate).wf(),
        old(gate).phase is Running,
        call_ensures(DriverGate::<R>::notify, (gate,), wake),
        *old(parking) == *final(gate),
        call_ensures(DriverGate::<R>::park, (parking, mode), parks),
        *old(later) == *final(parking),
        call_ensures(DriverGate::<R>::park, (later, mode), again),
    ensures
        wake is None,
        !parks,
        final(parking).phase is Running,
        again,
{
}

/// A parked driver is woken by the first notification alone, with the descriptor it
/// runs by and in the way it waits; after it resumed it makes another pass.
pub proof fn lemma_parked_driver_is_woken_once<R: Copy>(
    gate: &mut DriverGate<R>,
    mode: ParkMode,
    parks: bool,
    notified: &mut DriverGate<R>,
    first: Option<DriverWake<R>>,
    again: &mut DriverGate<R>,
    second: Option<DriverWake<R>>,
    resumed: &mut DriverGate<R>,
    parking: &mut DriverGate<R>,
    parks_again: bool,
)
    requires
        old(gate).wf(),
        old(gate).raw is Some,
        !old(gate).notified,
        mode !is Yield,
        call_ensures(DriverGate::<R>::park, (gate, mode), parks),
        *old(notified) == *final(gate),
        call_ensures(DriverGate::<R>::notify, (notified,), first),
        *old(again) == *final(notified),
        call_ensures(DriverGate::<R>::notify, (again,), second),
        *old(resumed) == *final(again),
        call_ensures(DriverGate::<R>::resumed, (resumed,), ()),
        *old(parking) == *final(resumed),
        call_ensures(DriverGate::<R>::park, (parking, mode), parks_again),
    ensures
        parks,
        first is Some,
        first->0.raw == old(gate).raw->0,
        first->0.deadline <==> mode is Wait,
        second is None,
        !parks_again,
        final(parking).phase is Running,
{
}

/// A driver that yields or was resumed runs; only a pass without a notification
/// parks, in the mode that was asked for, and keeps its descriptor.
pub proof fn lemma_driver_parks_as_asked<R>(gate: &mut DriverGate<R>, mode: ParkMode, parks: bool)
    requires
        old(gate).wf(),
        old(gate).raw is Some,
        call_ensures(DriverGate::<R>::park, (gate, mode), parks),
    ensures
        parks <==> !old(gate).notified,
        !final(gate).notified,
        final(gate).raw == old(gate).raw,
        !parks || mode is Yield ==> final(gate).phase is Running,
        parks && mode is Wait ==> final(gate).phase is DeadlineWait,
        parks && mode is Pause ==> final(gate).phase is Paused,
{
}

/// A notification is kept by a driver that is still being built, and wakes nobody.
pub proof fn lemma_early_notification_is_kept<R: Copy>(
    fresh: DriverGate<R>,
    gate: &mut DriverGate<R>,
    wake: Option<DriverWake<R>>,
    installed: &mut DriverGate<R>,
    raw: R,
    parking: &mut DriverGate<R>,
    mode: ParkMode,
    parks: bool,
)
    requires
        call_ensures(DriverGate::<R>::building, (), fresh),
        *old(gate) == fresh,
        call_ensures(DriverGate::<R>::notify, (gate,), wake),
        *old(installed) == *final(gate),
        call_ensures(DriverGate::<R>::install, (installed, raw), ()),
        *old(parking) == *final(installed),
        call_ensures(DriverGate::<R>::park, (parking, mode), parks),
    ensures
        fresh.raw is None && !fresh.notified && fresh.phase is Building,
        wake is None,
        final(installed).raw == Some(raw),
        final(installed).phase is Running,
        !parks,
{
}

/// A stopped driver hands its descriptor out to be destroyed, once; one that has not
/// stopped keeps it. Nobody is woken through a destroyed descriptor.
pub proof fn lemma_driver_retires_after_it_stopped<R: Copy>(
    gate: &mut DriverGate<R>,
    raw: Result<R, EarlyCompletion>,
    again: &mut DriverGate<R>,
    second: Result<R, EarlyCompletion>,
    notified: &mut DriverGate<R>,
    wake: Option<DriverWake<R>>,
)
    requires
        old(gate).wf(),
        call_ensures(DriverGate::<R>::retire, (gate,), raw),
        *old(again) == *final(gate),
        call_ensures(DriverGate::<R>::retire, (again,), second),
        *old(notified) == *final(gate),
        call_ensures(DriverGate::<R>::notify, (notified,), wake),
    ensures
        raw is Ok <==> old(gate).phase is Terminal,
        raw is Ok ==> Some(raw->Ok_0) == old(gate).raw && final(gate).raw is None
            && final(gate).phase is Destroyed && second is Err && wake is None,
        raw is Err ==> *final(gate) == *old(gate),
{
}

/// Stopping ends the last pass: the descriptor is then there to be retired.
pub proof fn lemma_stopped_driver_can_retire<R>(
    gate: &mut DriverGate<R>,
    stopped: &mut DriverGate<R>,
    raw: Result<R, EarlyCompletion>,
)
    requires
        old(gate).wf(),
        old(gate).raw is Some,
        call_ensures(DriverGate::<R>::stop, (gate,), ()),
        *old(stopped) == *final(gate),
        call_ensures(DriverGate::<R>::retire, (stopped,), raw),
    ensures
        raw is Ok && Some(raw->Ok_0) == old(gate).raw,
        final(gate).notified == old(gate).notified,
{
}

/// A driver starts with three native steps. Whichever fails, its error is reported
/// and a descriptor that was made is handed out to be destroyed; the owner is taken
/// back only from a task that was ready to run.
pub proof fn lemma_failed_start_releases_the_descriptor<R: Copy>(
    created: Result<R, NativeError>,
    first: StartStep<R>,
    gate: &mut DriverGate<R>,
    raw: R,
    metadata: Result<(), NativeError>,
    second: StartStep<R>,
    submitting: &mut DriverGate<R>,
    submitted: Result<(), NativeError>,
    third: StartStep<R>,
)
    requires
        old(gate).wf(),
        call_ensures(DriverGate::<R>::created, (created,), first),
        call_ensures(DriverGate::<R>::metadata_read, (gate, raw, metadata), second),
        *old(submitting) == *final(gate),
        call_ensures(DriverGate::<R>::submitted, (submitting, submitted), third),
    ensures
        created matches Ok(made) ==> first == StartStep::ReadMetadata(made),
        created matches Err(cause) ==> first is Failed && first->error == cause && first->destroy
            is None && !first->reclaim_owner,
        metadata is Ok ==> second == StartStep::Submit(raw) && final(gate).raw == Some(raw)
            && final(gate).phase is Running && final(gate).notified == old(gate).notified,
        metadata matches Err(cause) ==> second is Failed && second->error == cause
            && second->destroy == Some(raw) && !second->reclaim_owner && *final(gate) == *old(gate),
        submitted is Ok ==> third is Started && *final(submitting) == *old(submitting),
        submitted matches Err(cause) ==> third is Failed && third->error == cause && third->destroy
            == old(submitting).raw && third->reclaim_owner && final(submitting).raw is None
            && final(submitting).phase is Destroyed,
{
}

/// Rolling back hands out the descriptor, if there is one, and leaves none.
pub proof fn lemma_rollback_hands_out_the_descriptor<R>(
    gate: &mut DriverGate<R>,
    raw: Option<R>,
    again: &mut DriverGate<R>,
    second: Option<R>,
)
    requires
        call_ensures(DriverGate::<R>::rollback, (gate,), raw),
        *old(again) == *final(gate),
        call_ensures(DriverGate::<R>::rollback, (again,), second),
    ensures
        raw == old(gate).raw,
        final(gate).raw is None && final(gate).phase is Destroyed,
        second is None,
{
}

} // verus!
