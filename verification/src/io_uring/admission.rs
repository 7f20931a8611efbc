//! Admission of an SQE iterator into the shared submission queue.
use vstd::prelude::*;
use vstd::std_specs::iter::IteratorSpec;
use crate::io_uring::completion::{Sqe, Violation};
use crate::io_uring::context::{ContextKind, ContextPhase, CqeContext, Delivery};
use crate::io_uring::driver::{lemma_submission_inserted, CancelSqe, DriverData};
use crate::io_uring::model::DriverView;
use crate::io_uring::submission::{SubmissionState, SubmissionView};

verus! {

/// Future that admits an SQE iterator into the shared submission queue.
///
/// Completion CQEs can arrive while admission is still in progress and count
/// against the submission's buffering limit. If the future is dropped, any
/// not-yet-staged SQE is dropped with it, while already staged or submitted
/// operations are cancelled and their completion delivery is detached.
pub struct SubmitEntries<E> {
    /// Submission that the admitted SQEs belong to.
    pub id: u64,
    /// SQE removed from the iterator but not yet staged because the SQ was full.
    pub pending: Option<(usize, Sqe<E>)>,
    /// Iterator index assigned to the next yielded SQE.
    pub next_index: usize,
    /// Whether the originating runtime was already unavailable at construction.
    pub closed: bool,
    /// Whether the future has returned its one terminal result.
    pub done: bool,
}

/// SQEs to push after one admission step, in this order.
pub struct Admission<E> {
    /// Cancellation SQEs, which take precedence.
    pub cancels: Vec<CancelSqe>,
    /// Original SQEs, tagged with their context pointers.
    pub originals: Vec<Sqe<E>>,
    /// Whether the driver has to be notified.
    pub notify: bool,
}

/// The tags of a sequence of SQEs.
pub open spec fn tags<E>(items: Seq<Sqe<E>>) -> Seq<u64> {
    items.map_values(|item: Sqe<E>| item.user_data)
}

/// The first `count` SQEs with consecutive context pointers in place of tags.
pub open spec fn tagged<E>(items: Seq<Sqe<E>>, pointer: u64, count: int) -> Seq<Sqe<E>> {
    Seq::new(
        count as nat,
        |i: int| Sqe { user_data: (pointer + i) as u64, operation: items[i].operation },
    )
}

impl<W> DriverView<W> {
    /// Originals with these tags are staged in order.
    pub open spec fn originals_staged(self, id: u64, user_data: Seq<u64>) -> Self
        decreases user_data.len(),
    {
        if user_data.len() == 0 {
            self
        } else {
            let before = self.originals_staged(id, user_data.drop_last());
            before.original_staged(
                id,
                before.submissions[id].originals as usize,
                user_data.last(),
            )
        }
    }
}

impl<E> SubmitEntries<E> {
    /// The SQE that waits for a free slot, if any.
    pub open spec fn waiting(self) -> Seq<Sqe<E>> {
        match self.pending {
            Some((index, entry)) => seq![entry],
            None => Seq::empty(),
        }
    }

    /// The driver knows this submission and has counted what it staged.
    pub open spec fn linked<W>(self, driver: DriverView<W>) -> bool {
        &&& driver.submissions.contains_key(self.id)
        &&& driver.submissions[self.id].held
        &&& driver.submissions[self.id].originals + self.waiting().len() == self.next_index
        &&& self.pending matches Some((index, _)) ==> index + 1 == self.next_index
    }

    /// Free slots that remain for originals once cancellations are staged.
    pub open spec fn room<W>(driver: DriverView<W>, space: usize) -> int {
        space - vstd::math::min(space as int, driver.cancel_queue.len() as int)
    }

    /// How many of `remaining` entries the iterator has to yield: one more than
    /// fits, so that the end of the iterator is noticed.
    pub open spec fn pulled<W>(self, driver: DriverView<W>, space: usize, remaining: nat) -> int {
        vstd::math::min(
            remaining as int,
            Self::room(driver, space) + 1 - self.waiting().len() as int,
        )
    }

    /// What results from admitting `items` with `space` free slots.
    pub open spec fn entries_admitted<W>(
        self,
        driver: DriverView<W>,
        items: Seq<Sqe<E>>,
        space: usize,
        next: Self,
        next_driver: DriverView<W>,
        originals: Seq<Sqe<E>>,
    ) -> bool {
        let free = Self::room(driver, space);
        self.admitted(
            driver.cancels_staged((space - free) as nat),
            items,
            free,
            next,
            next_driver,
            originals,
        )
    }

    /// What results from admitting `items` with `free` slots for originals.
    pub open spec fn admitted<W>(
        self,
        driver: DriverView<W>,
        items: Seq<Sqe<E>>,
        free: int,
        next: Self,
        next_driver: DriverView<W>,
        originals: Seq<Sqe<E>>,
    ) -> bool {
        let count = vstd::math::min(items.len() as int, free);
        let staged = driver.originals_staged(self.id, tags(items.take(count)));
        let first = driver.submissions[self.id].originals;
        &&& self.waiting().is_prefix_of(items)
        &&& originals == tagged(items, driver.next_pointer, count)
        &&& next.id == self.id
        &&& next.closed == self.closed
        &&& next.done == self.done
        &&& if items.len() <= free {
            &&& next_driver == staged.with_submission(
                self.id,
                staged.submissions[self.id].finished(),
            )
            &&& next.pending is None
            &&& next.next_index == first + items.len()
        } else {
            &&& next_driver == staged
            &&& next.pending == Some(((first + free) as usize, items[free]))
            &&& next.next_index == first + free + 1
        }
    }

    /// Fills free SQ slots from an iterator.
    ///
    /// `space` is the number of free SQ slots. Queued cancellations are staged
    /// first. Each original then receives a context pointer in place of its
    /// caller `user_data`, which is retained for CQE restoration. An SQE that
    /// does not fit stays pending with its assigned index for the next poll.
    pub fn admit_entries<W, I: Iterator<Item = Sqe<E>>>(
        &mut self,
        data: &mut DriverData<W>,
        iterator: &mut I,
        space: usize,
        wakes: &mut Vec<W>,
    ) -> (admission: Result<Admission<E>, Violation>)
        requires
            old(data)@.wf(),
            old(self).linked(old(data)@),
        ensures
            final(data)@.wf(),
            !old(data)@.accepting ==> {
                &&& admission matches Ok(none)
                &&& none.cancels@.len() == 0 && none.originals@.len() == 0 && none.notify
                &&& *final(self) == *old(self)
                &&& final(wakes)@ == old(wakes)@
                &&& old(data)@.cancel_requested(
                    set![old(self).id],
                    Delivery::Cancelling,
                    final(data)@,
                )
            },
            old(data)@.accepting && old(data)@.next_pointer + space > u64::MAX ==> {
                &&& admission == Err::<Admission<E>, Violation>(Violation::PointersExhausted)
                &&& final(data)@ == old(data)@
                &&& *final(self) == *old(self)
            },
            admission matches Err(violation) ==> {
                &&& old(data)@.accepting
                &&& violation == Violation::PointersExhausted || violation
                    == Violation::IndexExhausted
                &&& violation == Violation::PointersExhausted ==> old(data)@.next_pointer + space
                    > u64::MAX
                &&& violation == Violation::IndexExhausted ==> old(self).next_index + space
                    >= usize::MAX
            },
            old(data)@.accepting && old(data)@.next_pointer + space <= u64::MAX
                && IteratorSpec::obeys_prophetic_iter_laws(&*old(iterator)) ==> (admission is Err
                <==> old(self).next_index + old(self).pulled(
                old(data)@,
                space,
                IteratorSpec::remaining(&*old(iterator)).len(),
            ) > usize::MAX),
            old(data)@.accepting && admission is Ok ==> {
                let free = Self::room(old(data)@, space);
                &&& admission->Ok_0.cancels@ == Seq::new(
                    (space - free) as nat,
                    |i: int|
                        CancelSqe {
                            user_data: (old(data)@.next_pointer + i) as u64,
                            target: old(data)@.cancel_queue[i].target,
                        },
                )
                &&& final(self).linked(final(data)@)
                &&& exists|items: Seq<Sqe<E>>|
                    {
                        &&& #[trigger] old(self).entries_admitted(
                            old(data)@,
                            items,
                            space,
                            *final(self),
                            final(data)@,
                            admission->Ok_0.originals@,
                        )
                        &&& admission->Ok_0.notify == (items.len() > 0)
                        &&& final(wakes)@ == old(wakes)@ + crate::waker::taken(
                            items.len() <= free,
                            old(data)@.submissions[old(self).id].admission_waker,
                        )
                        &&& IteratorSpec::obeys_prophetic_iter_laws(&*old(iterator)) ==> {
                            &&& items == old(self).waiting() + IteratorSpec::remaining(&*old(iterator))
                            &&& IteratorSpec::remaining(&*final(iterator)) == items.skip(
                                vstd::math::min(items.len() as int, free + 1),
                            )
                        }
                    }
            },
    {
        if !data.accepting {
            data.request_cancel(self.id, Delivery::Cancelling);
            return Ok(Admission { cancels: Vec::new(), originals: Vec::new(), notify: true });
        }
        let pointers: u64 = u64::MAX - data.next_pointer;
        if (space as u128) > (pointers as u128) {
            return Err(Violation::PointersExhausted);
        }
        let cancels = match data.stage_cancellations(space) {
            Ok(cancels) => cancels,
            Err(violation) => {
                return Err(violation);
            },
        };
        let free: usize = space - cancels.len();
        let ghost driver = data@;
        let ghost mut items: Seq<Sqe<E>> = self.waiting();
        let ghost all = self.waiting() + IteratorSpec::remaining(&*iterator);
        let mut originals: Vec<Sqe<E>> = Vec::new();
        let mut staged: usize = 0;
        proof {
            assert(driver.originals_staged(self.id, tags(items.take(0))) == driver) by {
                assert(tags(items.take(0)) =~= Seq::<u64>::empty());
            }
        }
        loop
            invariant_except_break
                data@.wf(),
                staged <= free,
                data@.next_pointer == driver.next_pointer + staged,
                self.id == old(self).id,
                self.closed == old(self).closed,
                self.done == old(self).done,
                data@ == driver.originals_staged(self.id, tags(items.take(staged as int))),
                data@.submissions.contains_key(self.id),
                data@.submissions[self.id] == (SubmissionView {
                    originals: driver.submissions[self.id].originals + staged,
                    ..driver.submissions[self.id]
                }),
                self.linked(data@),
                items == items.take(staged as int) + self.waiting(),
                items.len() == staged + self.waiting().len(),
                old(self).waiting().is_prefix_of(items),
                originals@ == tagged(items, driver.next_pointer, staged as int),
                wakes@ == old(wakes)@,
                IteratorSpec::obeys_prophetic_iter_laws(&*iterator) == IteratorSpec::obeys_prophetic_iter_laws(&*old(iterator)),
                IteratorSpec::obeys_prophetic_iter_laws(&*old(iterator)) ==> all == items + IteratorSpec::remaining(&*iterator),
            invariant
                old(data)@.accepting,
                old(data)@.next_pointer + space <= u64::MAX,
                free <= space,
                free == Self::room(old(data)@, space),
                driver.next_pointer + free <= u64::MAX,
                driver.submissions.contains_key(old(self).id),
                driver.submissions[old(self).id].originals + old(self).waiting().len() == old(
                    self,
                ).next_index,
                all == old(self).waiting() + IteratorSpec::remaining(&*old(iterator)),
            ensures
                data@.wf(),
                self.linked(data@),
                old(self).admitted(
                    driver,
                    items,
                    free as int,
                    *self,
                    data@,
                    originals@,
                ),
                wakes@ == old(wakes)@ + crate::waker::taken(
                    items.len() <= free,
                    driver.submissions[self.id].admission_waker,
                ),
                IteratorSpec::obeys_prophetic_iter_laws(&*old(iterator)) ==> all == items + IteratorSpec::remaining(&*iterator),
                IteratorSpec::obeys_prophetic_iter_laws(&*old(iterator)) && items.len() <= free
                    ==> IteratorSpec::remaining(&*iterator).len() == 0,
                items.len() <= free + 1,
            decreases free - staged,
        {
            let ghost rest = IteratorSpec::remaining(&*iterator);
            if self.pending.is_none() {
                match iterator.next() {
                    Some(entry) => {
                        let index: usize = self.next_index;
                        if index == usize::MAX {
                            proof {
                                if IteratorSpec::obeys_prophetic_iter_laws(&*old(iterator)) {
                                    assert(rest.len() > 0);
                                    assert(all.len() == items.len() + rest.len());
                                }
                            }
                            return Err(Violation::IndexExhausted);
                        }
                        self.next_index = index + 1;
                        proof {
                            let longer = items.push(entry);
                            assert(longer.take(staged as int) =~= items.take(staged as int));
                            assert(tagged(longer, driver.next_pointer, staged as int) =~= tagged(
                                items,
                                driver.next_pointer,
                                staged as int,
                            ));
                            items = longer;
                        }
                        self.pending = Some((index, entry));
                        assert(items =~= items.take(staged as int) + self.waiting());
                    },
                    None => {
                        assert(items.take(staged as int) =~= items);
                        assert(data.submissions@.contains_key(self.id));
                        let ghost step = data@;
                        let ghost table = data.submissions@;
                        let mut state: SubmissionState<W> = data.submissions.remove(
                            self.id,
                        ).unwrap();
                        assert(step.submission_wf(self.id));
                        state.finish_iterator(wakes);
                        proof {
                            lemma_submission_inserted(table, self.id, state);
                            step.lemma_with_submission(self.id, state@);
                        }
                        data.submissions.insert(self.id, state);
                        assert(data@ =~= step.with_submission(self.id, state@));
                        assert(old(self).admitted(driver, items, free as int, *self, data@, originals@));
                        break;
                    },
                }
            }
            if staged == free {
                assert(old(self).admitted(driver, items, free as int, *self, data@, originals@));
                assert(wakes@ =~= old(wakes)@ + crate::waker::taken(
                    false,
                    driver.submissions[self.id].admission_waker,
                ));
                break;
            }
            let (index, entry) = self.pending.take().unwrap();
            let pointer: u64 = data.next_pointer;
            let ghost step = data@;
            let ghost table = data.submissions@;
            proof {
                step.lemma_original_staged(self.id, index, entry.user_data);
                let more = items.take(staged + 1);
                assert(tags(more).drop_last() =~= tags(items.take(staged as int)));
                assert(tags(more).last() == entry.user_data);
                assert(more =~= items);
            }
            data.next_pointer = pointer + 1;
            data.contexts.insert(
                pointer,
                CqeContext {
                    kind: ContextKind::Original,
                    phase: ContextPhase::Staged,
                    index,
                    original_user_data: entry.user_data,
                    submission: self.id,
                    target: None,
                    cancel_queued: false,
                    cancel_seen: false,
                },
            );
            data.staged.push_back(pointer);
            assert(data.submissions@.contains_key(self.id));
            let mut state: SubmissionState<W> = data.submissions.remove(self.id).unwrap();
            state.originals = state.originals + 1;
            proof {
                lemma_submission_inserted(table, self.id, state);
            }
            data.submissions.insert(self.id, state);
            originals.push(Sqe { user_data: pointer, operation: entry.operation });
            staged = staged + 1;
            proof {
                assert(data@ =~= step.original_staged(self.id, index, entry.user_data));
                assert(items =~= items.take(staged as int) + self.waiting());
                assert(originals@ =~= tagged(items, driver.next_pointer, staged as int));
            }
        }
        let notify = originals.len() > 0 || self.pending.is_some();
        proof {
            let shown = if IteratorSpec::obeys_prophetic_iter_laws(&*old(iterator)) {
                all
            } else {
                items
            };
            let count = vstd::math::min(items.len() as int, free as int);
            assert(shown.take(count) =~= items.take(count));
            assert(tagged(shown, driver.next_pointer, count) =~= tagged(
                items,
                driver.next_pointer,
                count,
            ));
            assert(old(self).admitted(driver, shown, free as int, *self, data@, originals@));
            if IteratorSpec::obeys_prophetic_iter_laws(&*old(iterator)) {
                let rest = IteratorSpec::remaining(&*iterator);
                let consumed = vstd::math::min(shown.len() as int, free + 1);
                assert(consumed == items.len());
                assert(rest =~= shown.skip(consumed));
            }
            assert(old(self).entries_admitted(
                old(data)@,
                shown,
                space,
                *self,
                data@,
                originals@,
            ));
        }
        let result: Result<Admission<E>, Violation> = Ok(Admission { cancels, originals, notify });
        assert(result->Ok_0.originals@ == originals@);
        result
    }
}

} // verus!
