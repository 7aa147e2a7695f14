//! The operations on the parts of a task that several threads work on at once.
//!
//! Each writes into the journal of its caller what it did and what it found.
use core::cell::Cell;
use core::sync::atomic::Ordering;
use core::task::Waker;

use portable_atomic::AtomicUsize;
use vstd::prelude::*;

use crate::journal::{Event, Journal, Slot};

verus! {

use crate::journal::order_of;

/// The atomic integer of `portable_atomic`, which holds the state word of a task.
#[verifier::external_type_specification]
#[verifier::external_body]
pub struct ExAtomicUsize(portable_atomic::AtomicUsize);

/// The handle of the standard library that wakes whoever awaits a task.
#[verifier::external_type_specification]
#[verifier::external_body]
pub struct ExWaker(core::task::Waker);

/// The mutable place of the standard library, which serves as the awaiter slot of a task. Its value
/// in contracts is its identity, whatever it holds.
#[verifier::external_type_specification]
#[verifier::external_body]
#[verifier::reject_recursive_types(T)]
pub struct ExCell<T: ?Sized>(core::cell::Cell<T>);

/// `portable_atomic::AtomicUsize::new`, which makes an atomic integer that holds the given value.
/// From then on the journal is kept on it.
#[verifier::external_body]
pub(crate) fn make(value: usize, journal: &mut Journal) -> (cell: AtomicUsize)
    requires
        old(journal).state() is None,
    ensures
        final(journal).state() == Some(cell),
        final(journal).slot() == old(journal).slot(),
        final(journal)@ == old(journal)@.push(Event::Made { on: cell, value }),
{
    AtomicUsize::new(value)
}

/// `portable_atomic::AtomicUsize::load`.
///
/// The value that it reads is the one that some thread wrote last: nothing is said of it. The
/// call panics with the two orderings that are left out.
#[verifier::external_body]
pub(crate) fn load(cell: &AtomicUsize, order: Ordering, journal: &mut Journal) -> (seen: usize)
    requires
        old(journal).state() == Some(*cell),
        order != Ordering::Release,
        order != Ordering::AcqRel,
    ensures
        final(journal).adds(
            Event::Loaded { on: *cell, seen, order: order_of(order) },
            *old(journal),
        ),
{
    cell.load(order)
}

/// `portable_atomic::AtomicUsize::store`.
///
/// Any thread may overwrite the value right away: nothing is said of later reads. The call panics
/// with the two orderings that are left out.
#[verifier::external_body]
pub(crate) fn store(cell: &AtomicUsize, value: usize, order: Ordering, journal: &mut Journal)
    requires
        old(journal).state() == Some(*cell),
        order != Ordering::Acquire,
        order != Ordering::AcqRel,
    ensures
        final(journal).adds(
            Event::Stored { on: *cell, value, order: order_of(order) },
            *old(journal),
        ),
{
    cell.store(value, order)
}

/// `portable_atomic::AtomicUsize::fetch_add`, which adds with wrap-around and returns the previous
/// value. That value depends on the other threads: nothing is said of it.
#[verifier::external_body]
pub(crate) fn fetch_add(
    cell: &AtomicUsize,
    amount: usize,
    order: Ordering,
    journal: &mut Journal,
) -> (prev: usize)
    requires
        old(journal).state() == Some(*cell),
    ensures
        final(journal).adds(
            Event::Added { on: *cell, amount, prev, order: order_of(order) },
            *old(journal),
        ),
{
    cell.fetch_add(amount, order)
}

/// `portable_atomic::AtomicUsize::fetch_sub`, which subtracts with wrap-around and returns the
/// previous value. That value depends on the other threads: nothing is said of it.
#[verifier::external_body]
pub(crate) fn fetch_sub(
    cell: &AtomicUsize,
    amount: usize,
    order: Ordering,
    journal: &mut Journal,
) -> (prev: usize)
    requires
        old(journal).state() == Some(*cell),
    ensures
        final(journal).adds(
            Event::Subtracted { on: *cell, amount, prev, order: order_of(order) },
            *old(journal),
        ),
{
    cell.fetch_sub(amount, order)
}

/// `portable_atomic::AtomicUsize::fetch_and`, which keeps the bits of `mask` and returns the
/// previous value. That value depends on the other threads: nothing is said of it.
#[verifier::external_body]
pub(crate) fn fetch_and(
    cell: &AtomicUsize,
    mask: usize,
    order: Ordering,
    journal: &mut Journal,
) -> (prev: usize)
    requires
        old(journal).state() == Some(*cell),
    ensures
        final(journal).adds(
            Event::Masked { on: *cell, mask, prev, order: order_of(order) },
            *old(journal),
        ),
{
    cell.fetch_and(mask, order)
}

/// `portable_atomic::AtomicUsize::fetch_or`, which sets the bits of `flags` and returns the
/// previous value. That value depends on the other threads: nothing is said of it.
#[verifier::external_body]
pub(crate) fn fetch_or(
    cell: &AtomicUsize,
    flags: usize,
    order: Ordering,
    journal: &mut Journal,
) -> (prev: usize)
    requires
        old(journal).state() == Some(*cell),
    ensures
        final(journal).adds(
            Event::Joined { on: *cell, flags, prev, order: order_of(order) },
            *old(journal),
        ),
{
    cell.fetch_or(flags, order)
}

/// `portable_atomic::AtomicUsize::fetch_update`, which loads the value and, as long as `f` returns
/// a new one for it, tries to replace it by `compare_exchange_weak`, starting over with the value
/// found where that fails.
///
/// It returns `Ok` with the value that it replaced by what `f` returned for it, or `Err` with the
/// value for which `f` returned `None`, which it left alone. Which value it ends with depends on
/// the other threads: nothing more is said of it. The call panics with the two orderings of the
/// loads that are left out.
#[verifier::external_body]
pub(crate) fn fetch_update<F: Fn(usize) -> Option<usize>>(
    cell: &AtomicUsize,
    set_order: Ordering,
    fetch_order: Ordering,
    f: F,
    journal: &mut Journal,
) -> (result: Result<usize, usize>)
    requires
        old(journal).state() == Some(*cell),
        fetch_order != Ordering::Release,
        fetch_order != Ordering::AcqRel,
        forall|s: usize| call_requires(f, (s,)),
    ensures
        match result {
            Ok(prev) => exists|next: usize|
                {
                    &&& #[trigger] call_ensures(f, (prev,), Some(next))
                    &&& final(journal).adds(
                        Event::Replaced {
                            on: *cell,
                            prev,
                            next,
                            set: order_of(set_order),
                            fetch: order_of(fetch_order),
                        },
                        *old(journal),
                    )
                },
            Err(seen) => {
                &&& call_ensures(f, (seen,), None)
                &&& final(journal).adds(
                    Event::LeftAlone {
                        on: *cell,
                        seen,
                        set: order_of(set_order),
                        fetch: order_of(fetch_order),
                    },
                    *old(journal),
                )
            },
        },
{
    cell.fetch_update(set_order, fetch_order, f)
}

/// `core::task::Waker::will_wake`, which says whether two wakers would wake the same task.
///
/// It works on a best-effort basis and may return `false` for two wakers of one task: nothing is
/// said of its result.
#[verifier::external_body]
pub(crate) fn will_wake(waker: &Waker, other: &Waker, journal: &mut Journal) -> (same: bool)
    ensures
        final(journal).adds(
            Event::Compared { waker: *waker, other: *other, same },
            *old(journal),
        ),
{
    waker.will_wake(other)
}

/// `core::cell::Cell::new`, which makes a slot that holds the given value. From then on the journal
/// is kept on it.
#[verifier::external_body]
pub(crate) fn make_slot(held: Option<Waker>, journal: &mut Journal) -> (slot: Slot)
    requires
        old(journal).slot() is None,
    ensures
        final(journal).slot() == Some(slot),
        final(journal).state() == old(journal).state(),
        final(journal)@ == old(journal)@.push(Event::SlotMade { slot, held }),
{
    Cell::new(held)
}

/// `core::cell::Cell::take`, which takes out what the slot holds and leaves `None` in its place.
///
/// What it finds depends on the other parties that work on the slot: nothing is said of it.
#[verifier::external_body]
pub(crate) fn take(slot: &Slot, journal: &mut Journal) -> (found: Option<Waker>)
    requires
        old(journal).slot() == Some(*slot),
    ensures
        final(journal).adds(Event::SlotEmptied { slot: *slot, found }, *old(journal)),
{
    slot.take()
}

/// `core::cell::Cell::replace`, which puts the waker into the slot and returns what the slot held.
///
/// What it finds depends on the other parties that work on the slot: nothing is said of it.
#[verifier::external_body]
pub(crate) fn fill(slot: &Slot, waker: Waker, journal: &mut Journal) -> (found: Option<Waker>)
    requires
        old(journal).slot() == Some(*slot),
    ensures
        final(journal).adds(Event::SlotFilled { slot: *slot, waker, found }, *old(journal)),
{
    slot.replace(Some(waker))
}

} // verus!
