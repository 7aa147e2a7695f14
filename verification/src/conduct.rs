//! What each operation on a task does for its caller.
//!
//! The laws here take what goes into an operation, what comes out of it, and the journal before and
//! after it. They say what the operation has done to the state word and to the awaiter slot,
//! whatever it found there, and what its result asks for.
use core::task::Waker;

use vstd::prelude::*;

use crate::header::{Header, Registered, Registering, Taken};
use crate::journal::{Event, Journal, Order, Place};
use crate::raw::{Handoff, Woken};
use crate::run::{Ending, Polled, Run, Running};
use crate::runnable::{Canceled, Canceling, Reference, Runnable};
use crate::schedule::ScheduleInfo;
use crate::state::Word;
use crate::transition::{Action, RefDrop, Snapshot};

verus! {

use crate::awaiting::Memory;
use crate::awaiting::{law_alone_is_undisturbed, law_take_hands_out_awaiter, lemma_concat};
use crate::header::{lemma_took, took};
use crate::run::{released, taken_as};
use crate::runnable::law_runnable_survives_raw;
use crate::state::{lemma_clear, lemma_constants, lemma_count, lemma_two_masks, word};
use crate::state::{RUNNING, SCHEDULED};

/// The state word that the operation found.
pub open spec fn before(event: Event) -> Word {
    word(event.found()->0)
}

/// The state word that the operation left.
pub open spec fn behind(event: Event) -> Word {
    word(event.left()->0)
}

/// The entry is an operation on the state word that says what it found and what it left, with this
/// memory ordering.
pub open spec fn observes(event: Event, order: Order) -> bool {
    event.found() is Some && event.left() is Some && event.ordered(order)
}

/// One reference is given up, and no flag is touched.
pub open spec fn gives_reference_up(event: Event) -> bool {
    &&& observes(event, Order::AcqRel)
    &&& behind(event) == (Word { refs: behind(event).refs, ..before(event) })
    &&& before(event).refs > 0 ==> behind(event).refs == before(event).refs - 1
}

/// The reference that is given up is the last one, and the await handle is gone too.
pub open spec fn leaves_nobody(event: Event) -> bool {
    before(event).refs == 1 && !before(event).task
}

/// An attempt to notify: the notifying flag is set, and nothing else is changed. If another party
/// works on the slot, that is all. Otherwise the slot is emptied, and the notifying flag and the
/// awaiter flag are cleared, and nothing else is changed.
pub open spec fn notifies(run: Seq<Event>, handed_out: Option<Waker>) -> bool {
    &&& run.len() >= 1
    &&& observes(run[0], Order::AcqRel)
    &&& behind(run[0]).notifying
    &&& behind(run[0]) == (Word { notifying: behind(run[0]).notifying, ..before(run[0]) })
    &&& if before(run[0]).registering || before(run[0]).notifying {
        run.len() == 1 && handed_out is None
    } else {
        &&& run.len() == 3
        &&& run[1] matches Event::SlotEmptied { found, .. } && found == handed_out
        &&& observes(run[2], Order::Release)
        &&& !behind(run[2]).notifying && !behind(run[2]).awaiter
        &&& behind(run[2]) == (Word {
            notifying: behind(run[2]).notifying,
            awaiter: behind(run[2]).awaiter,
            ..before(run[2])
        })
    }
}

/// The end of a run without its future: the awaiter is taken, if there is one to notify, and then
/// the reference is given up. The task is destroyed exactly if nobody is left, and is not
/// scheduled.
pub open spec fn lets_go(run: Seq<Event>, notify: bool, ending: Ending) -> bool {
    &&& run.len() >= 1
    &&& gives_reference_up(run.last())
    &&& ending.destroy <==> leaves_nobody(run.last())
    &&& if notify {
        notifies(run.drop_last(), ending.awaiter)
    } else {
        run.len() == 1 && ending.awaiter is None
    }
    &&& ending.reschedule is None
}

/// A waker gives up its reference. If nobody is left then, it has an unfinished task scheduled once
/// more, closed and with one reference, or else destroys it. Otherwise nothing is left to do.
pub open spec fn drops_waker(run: Seq<Event>, action: Action) -> bool {
    &&& run.len() >= 1
    &&& gives_reference_up(run[0])
    &&& if !leaves_nobody(run[0]) {
        run.len() == 1 && action is Nothing
    } else if before(run[0]).completed || before(run[0]).closed {
        run.len() == 1 && action is Destroy
    } else {
        let n = behind(run[1]);
        &&& run.len() == 2 && run[1] is Stored && run[1].ordered(Order::Release)
        &&& n.scheduled && n.closed && n.refs == 1
        &&& !n.running && !n.completed && !n.task
        &&& !n.awaiter && !n.registering && !n.notifying
        &&& action matches Action::Schedule(info) && !info.woken_while_running
    }
}

/// A wake-up by reference: a finished task is left alone. Any other one is scheduled afterwards,
/// and if it had no `Runnable` and wasn't running, the new `Runnable` has a reference of its own
/// and goes to the schedule function. Nothing else is changed.
pub open spec fn wakes_by_ref(run: Seq<Event>, action: Action) -> bool {
    let w = before(run[0]);
    let n = behind(run[0]);
    &&& run.len() == 1 && observes(run[0], Order::AcqRel)
    &&& n == (Word { scheduled: n.scheduled, refs: n.refs, ..w })
    &&& if w.completed || w.closed {
        n == w && action is Nothing
    } else if w.scheduled || w.running {
        n.scheduled && n.refs == w.refs && action is Nothing
    } else {
        &&& n.scheduled
        &&& n.refs == if w.refs == usize::MAX / 0x100 {
            0
        } else {
            w.refs + 1
        }
        &&& match action {
            Action::ScheduleDirectly(info) => {
                !info.woken_while_running && w.refs <= isize::MAX / 0x100
            },
            Action::Abort => w.refs > isize::MAX / 0x100,
            _ => false,
        }
    }
}

/// One reference is added, and no flag is touched. Only an overflowing count aborts.
pub open spec fn adds_reference(run: Seq<Event>, abort: bool) -> bool {
    &&& run.len() == 1 && observes(run[0], Order::Relaxed)
    &&& behind(run[0]) == (Word { refs: behind(run[0]).refs, ..before(run[0]) })
    &&& behind(run[0]).refs == if before(run[0]).refs == usize::MAX / 0x100 {
        0
    } else {
        before(run[0]).refs + 1
    }
    &&& abort <==> before(run[0]).refs > isize::MAX / 0x100
}

/// An entry shows the state word that its operation leaves: what was stored, or what adding,
/// subtracting, masking or joining makes of the word that was found, or that word itself.
pub proof fn law_entries_show_words(event: Event)
    ensures
        match event {
            Event::Made { value, .. } => event.found() is None && event.left() == Some(value),
            Event::Stored { value, .. } => event.found() is None && event.left() == Some(value),
            Event::Loaded { seen, .. } => event.found() == Some(seen) && event.left() == Some(seen),
            Event::LeftAlone { seen, .. } => {
                event.found() == Some(seen) && event.left() == Some(seen)
            },
            Event::Replaced { prev, next, .. } => {
                event.found() == Some(prev) && event.left() == Some(next)
            },
            Event::Added { amount, prev, .. } => {
                event.found() == Some(prev) && event.left() == Some(prev.wrapping_add(amount))
            },
            Event::Subtracted { amount, prev, .. } => {
                event.found() == Some(prev) && event.left() == Some(prev.wrapping_sub(amount))
            },
            Event::Masked { mask, prev, .. } => {
                event.found() == Some(prev) && event.left() == Some(prev & mask)
            },
            Event::Joined { flags, prev, .. } => {
                event.found() == Some(prev) && event.left() == Some(prev | flags)
            },
            _ => event.found() is None && event.left() is None,
        },
{
}

/// An operation on the state word has the memory ordering that its entry shows. Where it may
/// replace the word, its loads acquire.
pub proof fn law_entries_show_order(event: Event, by: Order)
    requires
        event.ordered(by),
    ensures
        match event {
            Event::Loaded { order, .. } => order == by,
            Event::Stored { order, .. } => order == by,
            Event::Added { order, .. } => order == by,
            Event::Subtracted { order, .. } => order == by,
            Event::Masked { order, .. } => order == by,
            Event::Joined { order, .. } => order == by,
            Event::Replaced { set, fetch, .. } => set == by && fetch is Acquire,
            Event::LeftAlone { set, fetch, .. } => set == by && fetch is Acquire,
            _ => true,
        },
{
}

/// A journal only grows: what was in it stays, and what is new is on the place that it is kept on.
pub proof fn law_journal_only_grows(earlier: Journal, later: Journal, place: Place)
    requires
        later.continues(earlier, place),
    ensures
        later@ == earlier@ + later.since(earlier),
        later.state() == Some(place.state),
        later.slot() == Some(place.slot),
        forall|i: int|
            0 <= i < later.since(earlier).len() ==> match #[trigger] later.since(earlier)[i] {
                Event::SlotMade { slot, .. } => slot == place.slot,
                Event::SlotEmptied { slot, .. } => slot == place.slot,
                Event::SlotFilled { slot, .. } => slot == place.slot,
                Event::Made { on, .. } => on == place.state,
                Event::Loaded { on, .. } => on == place.state,
                Event::Stored { on, .. } => on == place.state,
                Event::Added { on, .. } => on == place.state,
                Event::Subtracted { on, .. } => on == place.state,
                Event::Masked { on, .. } => on == place.state,
                Event::Joined { on, .. } => on == place.state,
                Event::Replaced { on, .. } => on == place.state,
                Event::LeftAlone { on, .. } => on == place.state,
                Event::Compared { .. } => true,
            },
{
    assert(later@ =~= earlier@ + later.since(earlier));
    assert forall|i: int| 0 <= i < later.since(earlier).len() implies (#[trigger] later.since(
        earlier,
    )[i]).concerns(place) by {
        assert(later@[earlier@.len() + i].concerns(place));
    }
}

proof fn lemma_gives_up(event: Event)
    requires
        event is Subtracted,
        event->Subtracted_amount == 0x100,
        event.ordered(Order::AcqRel),
    ensures
        gives_reference_up(event),
        before(event).refs <= usize::MAX / 0x100,
        behind(event) == before(event).sub_ref(),
{
    lemma_count(event.found()->0);
}

/// A new header has the settings that it was made with. Its task is scheduled, with one reference
/// and an await handle, and nothing has happened to it yet. Its awaiter slot is empty.
pub proof fn law_new_header_keeps_settings<M>(
    metadata: M,
    propagate: bool,
    journal: &mut Journal,
    header: Header<M>,
    attached: &M,
    propagates: bool,
)
    requires
        call_ensures(Header::<M>::new, (metadata, propagate, journal), header),
        call_ensures(Header::<M>::metadata, (&header,), attached),
        call_ensures(Header::<M>::propagate_panic, (&header,), propagates),
    ensures
        *attached == metadata,
        propagates == propagate,
        ({
            let run = final(journal).since(*old(journal));
            &&& final(journal).continues(*old(journal), header.place())
            &&& run.len() == 2
            &&& run[0] matches Event::Made { value, .. } && {
                let w = word(value);
                &&& w.scheduled && w.task && w.refs == 1
                &&& !w.running && !w.completed && !w.closed
                &&& !w.awaiter && !w.registering && !w.notifying
            }
            &&& run[1] matches Event::SlotMade { held, .. } && held is None
        }),
{
}

/// A look at a task changes nothing, and shows the word that was found.
pub proof fn law_snapshot_shows_task<M>(
    header: &Header<M>,
    journal: &mut Journal,
    snapshot: Snapshot,
)
    requires
        call_ensures(Header::<M>::snapshot, (header, journal), snapshot),
    ensures
        ({
            let run = final(journal).since(*old(journal));
            &&& final(journal).continues(*old(journal), header.place())
            &&& run.len() == 1 && observes(run[0], Order::SeqCst)
            &&& behind(run[0]) == before(run[0])
            &&& snapshot.scheduled == before(run[0]).scheduled
            &&& snapshot.running == before(run[0]).running
            &&& snapshot.completed == before(run[0]).completed
            &&& snapshot.closed == before(run[0]).closed
            &&& snapshot.awaiter == before(run[0]).awaiter
            &&& snapshot.task == before(run[0]).task
            &&& snapshot.ref_count == before(run[0]).refs
        }),
{
}

proof fn lemma_notifies(run: Seq<Event>, taken: Taken)
    requires
        took(run, None, taken),
    ensures
        notifies(
            run,
            match taken {
                Taken::Wake(waker) => Some(waker),
                _ => None,
            },
        ),
{
    lemma_took(run, None, taken);
}

/// Taking the awaiter empties the slot of the task unless another party works on it. What was in
/// the slot is handed out to be woken, or to be dropped if it is the same as the current waker.
pub proof fn law_take_notifies<M>(
    header: &Header<M>,
    current: Option<&Waker>,
    journal: &mut Journal,
    taken: Taken,
)
    requires
        call_ensures(Header::<M>::take, (header, current, journal), taken),
    ensures
        ({
            let run = final(journal).since(*old(journal));
            &&& final(journal).continues(*old(journal), header.place())
            &&& match taken {
                Taken::Nobody => notifies(run, None),
                Taken::Wake(waker) => if current is Some {
                    &&& run.len() == 4 && notifies(run.drop_last(), Some(waker))
                    &&& run[3] == (Event::Compared { waker, other: *current->0, same: false })
                } else {
                    notifies(run, Some(waker))
                },
                Taken::Discard(waker) => {
                    &&& current is Some
                    &&& run.len() == 4 && notifies(run.drop_last(), Some(waker))
                    &&& run[3] == (Event::Compared { waker, other: *current->0, same: true })
                },
            }
        }),
{
    let run = final(journal).since(*old(journal));
    lemma_took(
        run,
        match current {
            Some(waker) => Some(*waker),
            None => None,
        },
        taken,
    );
}

/// A registration begins by setting its flag alone, unless a notification is under way.
pub proof fn law_register_announces<'t, M>(
    header: &'t Header<M>,
    journal: &mut Journal,
    registering: Option<Registering<'t, M>>,
)
    requires
        call_ensures(Header::<M>::register, (header, journal), registering),
    ensures
        registering matches Some(r) ==> r.header() == *header,
        ({
            let run = final(journal).since(*old(journal));
            &&& final(journal).continues(*old(journal), header.place())
            &&& 1 <= run.len() <= 2
            &&& observes(run[0], Order::Acquire) && behind(run[0]) == before(run[0])
            &&& before(run[0]).notifying <==> run.len() == 1
            &&& run.len() == 2 ==> observes(run[1], Order::AcqRel)
            &&& if before(run.last()).notifying {
                registering is None && behind(run.last()) == before(run.last())
            } else {
                &&& registering is Some
                &&& behind(run.last()).registering
                &&& behind(run.last()) == (Word {
                    registering: behind(run.last()).registering,
                    ..before(run.last())
                })
            }
        }),
{
    let run = final(journal).since(*old(journal));
    let s = run[0].found()->0;
    assert(s | 0 == s) by (bit_vector);
}

/// A registration puts its own waker into the slot of the task, and hands back what was there. It
/// ends by clearing its flag. If no notification has come in, the awaiter flag is set, and nobody
/// is to be woken. Otherwise the slot is emptied again, what was in it is to be woken, and the
/// awaiter flag is left only if nobody was. Nothing else is changed.
pub proof fn law_store_registers<M>(
    registering: Registering<'_, M>,
    waker: Waker,
    journal: &mut Journal,
    result: Registered,
)
    requires
        call_ensures(Registering::<M>::store, (registering, waker, journal), result),
    ensures
        ({
            let run = final(journal).since(*old(journal));
            let n = behind(run.last());
            &&& final(journal).continues(*old(journal), registering.header().place())
            &&& run.len() == 2 || run.len() == 4
            &&& run[0] matches Event::SlotFilled { waker: put, found, .. } && put == waker && found
                == result.displaced
            &&& observes(run[1], Order::AcqRel)
            &&& before(run[1]).notifying <==> run.len() == 4
            &&& observes(run.last(), Order::AcqRel)
            &&& !n.registering && !n.notifying
            &&& n == (Word {
                registering: n.registering,
                notifying: n.notifying,
                awaiter: n.awaiter,
                ..before(run.last())
            })
            &&& if run.len() == 2 {
                n.awaiter && result.notified is None
            } else {
                &&& behind(run[1]) == before(run[1])
                &&& run[2] matches Event::SlotEmptied { found, .. } && found == result.notified
                &&& n.awaiter <==> result.notified is None
            }
        }),
{
}

/// A wake-up by reference schedules an unfinished task, and hands out the `Runnable` of an idle
/// one.
pub proof fn law_wake_by_ref_wakes<M>(header: &Header<M>, journal: &mut Journal, action: Action)
    requires
        call_ensures(Header::<M>::wake_by_ref, (header, journal), action),
    ensures
        final(journal).continues(*old(journal), header.place()),
        wakes_by_ref(final(journal).since(*old(journal)), action),
{
    let run = final(journal).since(*old(journal));
    lemma_count(run[0].found()->0);
}

/// A wake-up by value schedules an unfinished task. The reference of the waker goes to the
/// `Runnable` of an idle task; otherwise the waker is dropped. Where the schedule function takes up
/// space, the task is woken by reference, and the waker is left.
pub proof fn law_wake_wakes<M>(
    header: &Header<M>,
    schedule_size: usize,
    journal: &mut Journal,
    woken: Woken,
)
    requires
        call_ensures(Header::<M>::wake, (header, schedule_size, journal), woken),
    ensures
        ({
            let run = final(journal).since(*old(journal));
            let w = before(run[0]);
            let n = behind(run[0]);
            &&& final(journal).continues(*old(journal), header.place())
            &&& match woken {
                Woken::ByRef(action) => schedule_size > 0 && wakes_by_ref(run, action),
                Woken::Consumed(action) => {
                    &&& schedule_size == 0
                    &&& run.len() >= 1 && observes(run[0], Order::AcqRel)
                    &&& n == (Word { scheduled: n.scheduled, ..w })
                    &&& if w.completed || w.closed {
                        n == w
                    } else {
                        n.scheduled
                    }
                    &&& if w.completed || w.closed || w.scheduled || w.running {
                        drops_waker(run.skip(1), action)
                    } else {
                        &&& run.len() == 1
                        &&& action matches Action::Schedule(info) && !info.woken_while_running
                    }
                },
            }
        }),
{
    let run = final(journal).since(*old(journal));
    lemma_count(run[0].found()->0);
    if run.len() > 1 {
        lemma_count(run.skip(1)[0].found()->0);
    }
}

/// A new waker has a reference of its own.
pub proof fn law_clone_waker_adds_reference<M>(
    header: &Header<M>,
    journal: &mut Journal,
    action: Action,
)
    requires
        call_ensures(Header::<M>::clone_waker, (header, journal), action),
    ensures
        final(journal).continues(*old(journal), header.place()),
        adds_reference(final(journal).since(*old(journal)), action is Abort),
        action is Abort || action is Nothing,
{
    lemma_count(final(journal).since(*old(journal))[0].found()->0);
}

/// A waker of the `Runnable` has a reference of its own.
pub proof fn law_waker_adds_reference<M>(
    runnable: &Runnable<'_, M>,
    journal: &mut Journal,
    action: Action,
)
    requires
        call_ensures(Runnable::<M>::waker, (runnable, journal), action),
    ensures
        final(journal).continues(*old(journal), runnable.header().place()),
        adds_reference(final(journal).since(*old(journal)), action is Abort),
        action is Abort || action is Nothing,
{
    lemma_count(final(journal).since(*old(journal))[0].found()->0);
}

/// A waker that is dropped gives up its reference, and the last one sees to the end of the task.
pub proof fn law_drop_waker_gives_reference_up<M>(
    header: &Header<M>,
    journal: &mut Journal,
    action: Action,
)
    requires
        call_ensures(Header::<M>::drop_waker, (header, journal), action),
    ensures
        final(journal).continues(*old(journal), header.place()),
        drops_waker(final(journal).since(*old(journal)), action),
{
    lemma_count(final(journal).since(*old(journal))[0].found()->0);
}

/// Dropping a reference never destroys a task while anybody is left, or while its future is inside
/// and it isn't finished. The last reference to such a task is taken back, and the task is closed.
pub proof fn law_drop_ref_gives_reference_up<M>(
    header: &Header<M>,
    future_dropped: bool,
    journal: &mut Journal,
    left: RefDrop,
)
    requires
        call_ensures(Header::<M>::drop_ref, (header, future_dropped, journal), left),
    ensures
        ({
            let run = final(journal).since(*old(journal));
            let w = before(run[0]);
            &&& final(journal).continues(*old(journal), header.place())
            &&& run.len() >= 1 && gives_reference_up(run[0])
            &&& match left {
                RefDrop::Keep => run.len() == 1 && !leaves_nobody(run[0]),
                RefDrop::Destroy => {
                    &&& run.len() == 1 && leaves_nobody(run[0])
                    &&& future_dropped || w.completed || w.closed
                },
                RefDrop::Close => {
                    &&& leaves_nobody(run[0]) && !future_dropped && !w.completed && !w.closed
                    &&& run.len() == 2 && run[1] is Stored && run[1].ordered(Order::Release)
                    &&& behind(run[1]).closed
                    &&& behind(run[1]) == (Word { closed: behind(run[1]).closed, ..w })
                },
            }
        }),
{
    lemma_count(final(journal).since(*old(journal))[0].found()->0);
}

/// The schedule function is told what the caller says. It is protected by a reference of its own
/// exactly if it takes up space, and nothing else is changed.
pub proof fn law_schedule_protects_function<M>(
    header: &Header<M>,
    schedule_size: usize,
    info: ScheduleInfo,
    journal: &mut Journal,
    handoff: Handoff,
)
    requires
        call_ensures(Header::<M>::schedule, (header, schedule_size, info, journal), handoff),
    ensures
        final(journal).continues(*old(journal), header.place()),
        handoff is Plain <==> schedule_size == 0,
        handoff matches Handoff::Plain(told) ==> {
            &&& told.woken_while_running == info.woken_while_running
            &&& final(journal).since(*old(journal)).len() == 0
        },
        handoff matches Handoff::Guarded(told) ==> {
            &&& told.woken_while_running == info.woken_while_running
            &&& adds_reference(final(journal).since(*old(journal)), false)
        },
        handoff is Abort ==> adds_reference(final(journal).since(*old(journal)), true),
{
    if schedule_size > 0 {
        lemma_count(final(journal).since(*old(journal))[0].found()->0);
    }
}

/// A `Runnable` that is scheduled by its owner was not woken while running.
pub proof fn law_runnable_schedule_protects_function<M>(
    runnable: Runnable<'_, M>,
    schedule_size: usize,
    journal: &mut Journal,
    handoff: Handoff,
)
    requires
        call_ensures(Runnable::<M>::schedule, (runnable, schedule_size, journal), handoff),
    ensures
        final(journal).continues(*old(journal), runnable.header().place()),
        handoff is Plain <==> schedule_size == 0,
        handoff matches Handoff::Plain(told) ==> {
            !told.woken_while_running && final(journal).since(*old(journal)).len() == 0
        },
        handoff matches Handoff::Guarded(told) ==> {
            !told.woken_while_running && adds_reference(
                final(journal).since(*old(journal)),
                false,
            )
        },
        handoff is Abort ==> adds_reference(final(journal).since(*old(journal)), true),
{
    if schedule_size > 0 {
        lemma_count(final(journal).since(*old(journal))[0].found()->0);
    }
}

/// What goes through `into_raw` and `from_raw` is the task it was, with its metadata.
pub proof fn law_raw_round_trip_keeps_task<'t, M>(
    runnable: Runnable<'t, M>,
    raw: &'t Header<M>,
    again: Runnable<'t, M>,
    attached: &M,
    metadata: &M,
)
    requires
        call_ensures(Runnable::<M>::into_raw, (runnable,), raw),
        call_ensures(Runnable::<M>::from_raw, (raw,), again),
        call_ensures(Runnable::<M>::metadata, (&again,), attached),
        call_ensures(Header::<M>::metadata, (raw,), metadata),
    ensures
        again == runnable,
        *attached == *metadata,
{
    law_runnable_survives_raw(runnable, again);
}

/// A run polls the future exactly if the task isn't closed. Then the task is running and not
/// scheduled any more, and nothing else is changed. A closed task is left alone.
pub proof fn law_run_starts<'t, M>(
    runnable: Runnable<'t, M>,
    journal: &mut Journal,
    run: Run<'t, M>,
)
    requires
        call_ensures(Runnable::<M>::run, (runnable, journal), run),
    ensures
        run.header() == Some(runnable.header()),
        ({
            let entries = final(journal).since(*old(journal));
            let w = before(entries[0]);
            let n = behind(entries[0]);
            &&& final(journal).continues(*old(journal), runnable.header().place())
            &&& entries.len() == 1 && observes(entries[0], Order::AcqRel)
            &&& if w.closed {
                run is DropClosed && n == w
            } else {
                &&& run is Poll
                &&& n.running && !n.scheduled
                &&& n == (Word { running: n.running, scheduled: n.scheduled, ..w })
            }
        }),
{
}

/// The future is dropped, and its output stored, exactly if polling was ready, or has panicked and
/// the panic is to be propagated. Only a poll that panicked leads to the unwinding of the task, and
/// only a pending one to the end of the run with the future inside.
pub proof fn law_poll_leads_on<'t, M>(
    running: Running<'t, M>,
    polled: Polled,
    journal: &mut Journal,
    next: Run<'t, M>,
    propagates: bool,
)
    requires
        call_ensures(Running::<M>::polled, (running, polled, journal), next),
        call_ensures(Header::<M>::propagate_panic, (running.header(),), propagates),
    ensures
        final(journal).continues(*old(journal), running.header().place()),
        next is StoreOutput <==> polled is Ready || polled is Panicked && propagates,
        next is StoreOutput ==> {
            &&& next == Run::StoreOutput(running)
            &&& final(journal).since(*old(journal)).len() == 0
        },
        next is DropPanicked <==> polled is Panicked && !propagates,
        next is Over || next is DropPending || next is DropClosed <==> polled is Pending,
        !(next is Over) ==> next.header() == Some(running.header()),
{
}

/// A run that left the future pending stops running. If the task was closed meanwhile, its future
/// is to be dropped first. If it was woken meanwhile, it stays scheduled, keeps its reference, and
/// is to be scheduled again. Otherwise the reference is given up; if nobody is left then and the
/// future is still inside, the task is closed, and its future is to be dropped.
pub proof fn law_pending_poll_ends_run<'t, M>(
    running: Running<'t, M>,
    journal: &mut Journal,
    next: Run<'t, M>,
)
    requires
        call_ensures(Running::<M>::polled, (running, Polled::Pending, journal), next),
    ensures
        ({
            let run = final(journal).since(*old(journal));
            let w = before(run[0]);
            let n = behind(run[0]);
            &&& final(journal).continues(*old(journal), running.header().place())
            &&& run.len() >= 1 && observes(run[0], Order::AcqRel)
            &&& if w.closed {
                run.len() == 1 && n == w && next is DropPending
            } else {
                &&& !n.running && n == (Word { running: n.running, ..w })
                &&& if w.scheduled {
                    &&& run.len() == 1
                    &&& next matches Run::Over(ending)
                    &&& !ending.destroy && ending.awaiter is None
                    &&& ending.reschedule matches Some(info)
                    &&& info.woken_while_running
                } else {
                    let last = leaves_nobody(run[1]);
                    let gone = before(run[1]).completed || before(run[1]).closed;
                    &&& run.len() >= 2 && gives_reference_up(run[1])
                    &&& next is DropClosed <==> last && !gone
                    &&& next is DropClosed ==> {
                        &&& run.len() == 3 && run[2] is Stored && run[2].ordered(Order::Release)
                        &&& behind(run[2]).closed
                        &&& behind(run[2]) == (Word {
                            closed: behind(run[2]).closed,
                            ..before(run[1])
                        })
                    }
                    &&& !(next is DropClosed) ==> {
                        &&& run.len() == 2
                        &&& next matches Run::Over(ending) && (ending.destroy <==> last && gone)
                            && ending.awaiter is None && ending.reschedule is None
                    }
                }
            }
        }),
{
    let run = final(journal).since(*old(journal));
    assert(run.len() >= 2 ==> run.skip(1)[0] == run[1]);
    assert(run.len() >= 3 ==> run.skip(1)[1] == run[2]);
    if run.len() >= 2 {
        lemma_count(run[1].found()->0);
    }
}

/// A panic that isn't propagated closes the task and stops it, unless it was closed already. Once
/// the future has been dropped, a task that was closed before is stopped, and the awaiter is
/// notified that was registered when the future panicked.
pub proof fn law_panicked_run_closes_task<'t, M>(
    running: Running<'t, M>,
    journal: &mut Journal,
    next: Run<'t, M>,
    later: &mut Journal,
    last: Run<'t, M>,
)
    requires
        call_ensures(Running::<M>::polled, (running, Polled::Panicked, journal), next),
        next is DropPanicked,
        call_ensures(Run::<M>::done, (next, later), last),
    ensures
        ({
            let run = final(journal).since(*old(journal));
            let rest = final(later).since(*old(later));
            let w = before(run[0]);
            let n = behind(run[0]);
            &&& final(journal).continues(*old(journal), running.header().place())
            &&& final(later).continues(*old(later), running.header().place())
            &&& run.len() == 1 && observes(run[0], Order::AcqRel)
            &&& last matches Run::Over(ending) && if w.closed {
                let m = behind(rest[0]);
                &&& n == w
                &&& rest.len() >= 1 && observes(rest[0], Order::AcqRel)
                &&& !m.running && !m.scheduled
                &&& m == (Word { running: m.running, scheduled: m.scheduled, ..before(rest[0]) })
                &&& lets_go(rest.skip(1), w.awaiter, ending)
            } else {
                &&& n.closed && !n.running && !n.scheduled
                &&& n == (Word {
                    closed: n.closed,
                    running: n.running,
                    scheduled: n.scheduled,
                    ..w
                })
                &&& lets_go(rest, w.awaiter, ending)
            }
        }),
{
    let run = final(journal).since(*old(journal));
    let rest = final(later).since(*old(later));
    let ending = last->Over_0;
    if before(run[0]).closed {
        let s = rest[0].found()->0;
        lemma_constants();
        lemma_two_masks(s, RUNNING, SCHEDULED);
        lemma_clear(s, RUNNING);
        lemma_clear(s & !RUNNING, SCHEDULED);
        lemma_lets_go(rest.skip(1), before(run[0]).awaiter, ending);
    } else {
        lemma_lets_go(rest, before(run[0]).awaiter, ending);
    }
}

proof fn lemma_lets_go(run: Seq<Event>, notify: bool, ending: Ending)
    requires
        released(run, notify, ending),
    ensures
        lets_go(run, notify, ending),
{
    assert(seq![run.last()][0] == run.last());
    lemma_gives_up(run.last());
    if notify {
        lemma_notifies(run.drop_last(), taken_as(ending.awaiter));
    }
}

/// A closed task whose future has been dropped is marked as unscheduled, and nothing else is
/// changed. Then its awaiter is notified, if there is one, and the reference is given up.
pub proof fn law_closed_run_cleans_up<'t, M>(
    run: Run<'t, M>,
    journal: &mut Journal,
    last: Run<'t, M>,
)
    requires
        run is DropClosed,
        call_ensures(Run::<M>::done, (run, journal), last),
    ensures
        ({
            let entries = final(journal).since(*old(journal));
            let w = before(entries[0]);
            let n = behind(entries[0]);
            &&& final(journal).continues(*old(journal), run.header()->0.place())
            &&& entries.len() >= 1 && observes(entries[0], Order::AcqRel)
            &&& !n.scheduled && n == (Word { scheduled: n.scheduled, ..w })
            &&& last matches Run::Over(ending) && lets_go(entries.skip(1), w.awaiter, ending)
        }),
{
    let entries = final(journal).since(*old(journal));
    lemma_constants();
    lemma_clear(entries[0].found()->0, SCHEDULED);
    lemma_lets_go(entries.skip(1), before(entries[0]).awaiter, last->Over_0);
}

/// Once the output has been stored, the task is completed, and neither running nor scheduled. It is
/// closed only if it was closed before or the await handle is gone, and then the output is to be
/// dropped. Nothing else is changed. Then the awaiter is notified that was registered as the task
/// completed, and the reference is given up. The task is not scheduled.
pub proof fn law_ready_run_completes_task<'t, M>(
    running: Running<'t, M>,
    journal: &mut Journal,
    next: Run<'t, M>,
    later: &mut Journal,
    last: Run<'t, M>,
)
    requires
        call_ensures(Run::<M>::done, (Run::StoreOutput(running), journal), next),
        next is DropOutput ==> call_ensures(Run::<M>::done, (next, later), last),
    ensures
        ({
            let run = final(journal).since(*old(journal));
            let w = before(run[0]);
            let n = behind(run[0]);
            &&& final(journal).continues(*old(journal), running.header().place())
            &&& next is DropOutput ==> final(later).continues(
                *old(later),
                running.header().place(),
            )
            &&& run.len() >= 1 && observes(run[0], Order::AcqRel)
            &&& n.completed && !n.running && !n.scheduled
            &&& n.closed <==> w.closed || !w.task
            &&& n == (Word {
                completed: n.completed,
                running: n.running,
                scheduled: n.scheduled,
                closed: n.closed,
                ..w
            })
            &&& next is DropOutput <==> n.closed
            &&& next is DropOutput ==> run.len() == 1 && (last matches Run::Over(ending) && lets_go(
                final(later).since(*old(later)),
                w.awaiter,
                ending,
            ))
            &&& !(next is DropOutput) ==> (next matches Run::Over(ending) && lets_go(
                run.skip(1),
                w.awaiter,
                ending,
            ))
        }),
{
    let run = final(journal).since(*old(journal));
    if next is DropOutput {
        lemma_lets_go(final(later).since(*old(later)), before(run[0]).awaiter, last->Over_0);
    } else {
        lemma_lets_go(run.skip(1), before(run[0]).awaiter, next->Over_0);
    }
}

/// The end of a run whose pending future was dropped since the task was closed: the task is neither
/// running nor scheduled, and nothing else is changed. Then its awaiter is notified, if there is
/// one, and the reference is given up. The task is scheduled again only if it is found not closed
/// after all, and woken.
pub proof fn law_stopped_run_cleans_up<'t, M>(
    running: Running<'t, M>,
    journal: &mut Journal,
    last: Run<'t, M>,
)
    requires
        call_ensures(Run::<M>::done, (Run::DropPending(running), journal), last),
    ensures
        ({
            let run = final(journal).since(*old(journal));
            let w = before(run[0]);
            let n = behind(run[0]);
            &&& final(journal).continues(*old(journal), running.header().place())
            &&& run.len() >= 1 && observes(run[0], Order::AcqRel)
            &&& !n.running
            &&& n.scheduled <==> w.scheduled && !w.closed
            &&& n == (Word { running: n.running, scheduled: n.scheduled, ..w })
            &&& last matches Run::Over(ending) && if n.scheduled {
                &&& run.len() == 1 && !ending.destroy && ending.awaiter is None
                &&& ending.reschedule matches Some(info) && info.woken_while_running
            } else {
                lets_go(run.skip(1), w.closed && w.awaiter, ending)
            }
        }),
{
    let run = final(journal).since(*old(journal));
    let ending = last->Over_0;
    if before(run[0]).closed {
        lemma_lets_go(run.skip(1), before(run[0]).awaiter, ending);
    } else if !before(run[0]).scheduled {
        assert(run.skip(1).last() == run.skip(1)[0]);
        lemma_gives_up(run.skip(1)[0]);
    }
}

/// A run that waits for polling, or that is over, doesn't go on by itself.
pub proof fn law_run_waits<'t, M>(run: Run<'t, M>, journal: &mut Journal, next: Run<'t, M>)
    requires
        run is Poll || run is Over,
        call_ensures(Run::<M>::done, (run, journal), next),
    ensures
        next == run,
        final(journal)@ == old(journal)@,
{
    assert(final(journal)@ =~= old(journal)@);
}

/// Dropping the `Runnable` closes an unfinished task, and changes nothing else. Once its future has
/// been dropped, the task is marked as unscheduled, and nothing else is changed. Then its awaiter
/// is taken to be woken, if there is one, and the reference is given up: the task is destroyed
/// exactly if nobody is left.
pub proof fn law_dropped_runnable_cancels_task<'t, M>(
    runnable: Runnable<'t, M>,
    first: &mut Journal,
    canceling: Canceling<'t, M>,
    second: &mut Journal,
    canceled: Canceled<'t, M>,
    third: &mut Journal,
    destroy: bool,
)
    requires
        call_ensures(Runnable::<M>::cancel, (runnable, first), canceling),
        call_ensures(Canceling::<M>::future_dropped, (canceling, second), canceled),
        call_ensures(Reference::<M>::release, (canceled.reference, third), destroy),
    ensures
        ({
            let a = final(first).since(*old(first));
            let b = final(second).since(*old(second));
            let c = final(third).since(*old(third));
            let place = runnable.header().place();
            &&& final(first).continues(*old(first), place)
            &&& final(second).continues(*old(second), place)
            &&& final(third).continues(*old(third), place)
            &&& a.len() == 1 && observes(a[0], Order::AcqRel)
            &&& behind(a[0]) == (Word { closed: behind(a[0]).closed, ..before(a[0]) })
            &&& if before(a[0]).completed || before(a[0]).closed {
                behind(a[0]) == before(a[0])
            } else {
                behind(a[0]).closed
            }
            &&& b.len() >= 1 && observes(b[0], Order::AcqRel)
            &&& !behind(b[0]).scheduled
            &&& behind(b[0]) == (Word { scheduled: behind(b[0]).scheduled, ..before(b[0]) })
            &&& if before(b[0]).awaiter {
                notifies(b.skip(1), canceled.awaiter)
            } else {
                b.len() == 1 && canceled.awaiter is None
            }
            &&& c.len() == 1 && gives_reference_up(c[0])
            &&& destroy <==> leaves_nobody(c[0])
        }),
{
    let b = final(second).since(*old(second));
    let c = final(third).since(*old(third));
    lemma_constants();
    lemma_clear(b[0].found()->0, SCHEDULED);
    if before(b[0]).awaiter {
        lemma_notifies(b.skip(1), taken_as(canceled.awaiter));
    }
    lemma_gives_up(c[0]);
}

/// A run tells its caller that the task was woken while running exactly if the task is to be
/// scheduled again.
pub proof fn law_woken_is_rescheduled(ending: Ending, woken: bool)
    requires
        call_ensures(Ending::woken, (&ending,), woken),
    ensures
        woken <==> ending.reschedule is Some,
{
}

/// A poll that is ready, of a task that nobody else touches and nobody has closed, ends with the
/// task completed and not closed while the await handle exists: the handle can collect the output.
/// The run leaves one reference less, and the awaiter that was registered is handed out.
pub proof fn law_ready_output_waits_for_handle<'t, M>(
    m: Memory,
    running: Running<'t, M>,
    polled: &mut Journal,
    stored: Run<'t, M>,
    journal: &mut Journal,
    next: Run<'t, M>,
)
    requires
        call_ensures(Running::<M>::polled, (running, Polled::Ready, polled), stored),
        call_ensures(Run::<M>::done, (stored, journal), next),
        m.alone(final(journal).since(*old(journal))),
        m.word.task,
        !m.word.closed,
        !m.word.slot_locked(),
        m.word.refs > 0,
    ensures
        ({
            let after = m.after(final(journal).since(*old(journal)));
            &&& final(polled).since(*old(polled)).len() == 0
            &&& after.word.completed && !after.word.closed && after.word.task
            &&& !after.word.running && !after.word.scheduled && !after.word.awaiter
            &&& after.word.refs == m.word.refs - 1
            &&& next matches Run::Over(ending) && !ending.destroy && ending.reschedule is None
                && ending.awaiter == if m.word.awaiter {
                m.held
            } else {
                None
            }
        }),
{
    let run = final(journal).since(*old(journal));
    let ending = next->Over_0;
    let rest = run.skip(1);
    let middle = m.turned(run[0]);
    assert(middle.alone(rest));
    let front = rest.drop_last();
    assert(rest =~= front + seq![rest.last()]);
    lemma_concat(middle, front, seq![rest.last()]);
    if m.word.awaiter {
        law_alone_is_undisturbed(middle, front);
        law_take_hands_out_awaiter(middle, front, None, taken_as(ending.awaiter));
    } else {
        assert(front =~= Seq::<Event>::empty());
    }
    reveal_with_fuel(Memory::after, 3);
    reveal_with_fuel(Memory::alone, 3);
    lemma_count(rest.last().found()->0);
}

} // verus!
