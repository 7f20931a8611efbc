//! Registered wakers and tables.
use vstd::prelude::*;
use crate::table::Table;
use crate::waker::{replace_waker, take_waker, Poller};

verus! {

/// Whoever polls is registered afterwards: with the waker of the poll, unless the
/// waker that was there wakes the same task.
pub proof fn lemma_poller_is_registered<W>(slot: &mut Option<W>, poller: Poller<W>)
    requires
        call_ensures(replace_waker::<W>, (slot, poller), ()),
    ensures
        *final(slot) is Some,
        *old(slot) is None || !poller.registered ==> *final(slot) == Some(poller.waker),
        *old(slot) is Some && poller.registered ==> *final(slot) == *old(slot),
{
}

/// A waker that is due is woken once: it is handed out behind those that were due
/// before it, and its place is empty afterwards. One that is not due stays.
pub proof fn lemma_due_waker_is_woken_once<W>(
    due: bool,
    slot: &mut Option<W>,
    wakes: &mut Vec<W>,
    again: &mut Option<W>,
    later: &mut Vec<W>,
)
    requires
        call_ensures(take_waker::<W>, (due, slot, wakes), ()),
        *old(again) == *final(slot),
        old(later)@ == final(wakes)@,
        call_ensures(take_waker::<W>, (due, again, later), ()),
    ensures
        due && *old(slot) is Some ==> final(wakes)@ == old(wakes)@.push((*old(slot))->0),
        due ==> *final(slot) is None,
        !due ==> *final(slot) == *old(slot),
        !due || *old(slot) is None ==> final(wakes)@ == old(wakes)@,
        final(later)@ == final(wakes)@,
{
}

/// A table gives back what was last put under a key, and nothing that was taken out;
/// the other keys keep what they have.
pub proof fn lemma_table_gives_back_what_was_put<V>(
    table: &mut Table<V>,
    key: u64,
    value: V,
    previous: Option<V>,
    other: u64,
    before: Option<&V>,
    after: Option<&V>,
    found: Option<&V>,
    held: bool,
    removed_from: &mut Table<V>,
    removed: Option<V>,
    gone: Option<&V>,
    kept: Option<&V>,
)
    requires
        other != key,
        call_ensures(Table::<V>::insert, (table, key, value), previous),
        call_ensures(Table::<V>::get, (&*old(table), other), before),
        call_ensures(Table::<V>::get, (&*final(table), other), after),
        call_ensures(Table::<V>::get, (&*final(table), key), found),
        call_ensures(Table::<V>::contains, (&*final(table), key), held),
        *old(removed_from) == *final(table),
        call_ensures(Table::<V>::remove, (removed_from, key), removed),
        call_ensures(Table::<V>::get, (&*final(removed_from), key), gone),
        call_ensures(Table::<V>::get, (&*final(removed_from), other), kept),
    ensures
        found == Some(&value),
        held,
        after == before,
        removed == Some(value),
        gone is None,
        kept == before,
{
}

/// A table is empty exactly if it has no keys, and a new one has none.
pub proof fn lemma_table_lists_its_keys<V>(
    fresh: Table<V>,
    table: Table<V>,
    keys: Vec<u64>,
    empty: bool,
    key: u64,
    held: bool,
    new_empty: bool,
)
    requires
        call_ensures(Table::<V>::new, (), fresh),
        call_ensures(Table::<V>::is_empty, (&fresh,), new_empty),
        call_ensures(Table::<V>::keys, (&table,), keys),
        call_ensures(Table::<V>::is_empty, (&table,), empty),
        call_ensures(Table::<V>::contains, (&table, key), held),
    ensures
        new_empty,
        empty <==> keys@.len() == 0,
        held <==> keys@.contains(key),
        keys@.no_duplicates(),
{
    assert(held <==> keys@.to_set().contains(key));
    if keys@.len() == 0 {
        assert(table@.dom() =~= Set::empty());
        assert(table@ =~= Map::empty());
    } else {
        assert(keys@.to_set().contains(keys@[0]));
    }
}

} // verus!
