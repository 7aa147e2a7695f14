//! What each decision on the state word comes to.
//!
//! The laws here take what goes into a decision and what comes out of it, and say which flags and
//! which count the new state word has, and that nothing else about it has changed.
use vstd::prelude::*;

use crate::state::Word;
use crate::transition;
use crate::transition::{Action, Consumed, Parked, RefDrop, Snapshot, WakerDrop};

verus! {

use crate::state::{lemma_count, word};

/// Each flag is one bit of the lowest byte, and the count is all above it.
pub proof fn law_word_reads_bits(state: usize)
    ensures
        word(state).scheduled <==> state & 0x01 != 0,
        word(state).running <==> state & 0x02 != 0,
        word(state).completed <==> state & 0x04 != 0,
        word(state).closed <==> state & 0x08 != 0,
        word(state).task <==> state & 0x10 != 0,
        word(state).awaiter <==> state & 0x20 != 0,
        word(state).registering <==> state & 0x40 != 0,
        word(state).notifying <==> state & 0x80 != 0,
        word(state).refs == state / 0x100,
{
}

/// A task is finished once it is completed or closed. It is unreferenced once neither a counted
/// reference nor the await handle is left. Its slot is locked while an awaiter is registered or
/// notified. Its count overflows into the upper half of its range together with the state word.
pub proof fn law_word_is_read_like_this(state: usize)
    ensures
        word(state).finished() <==> word(state).completed || word(state).closed,
        word(state).unreferenced() <==> state / 0x100 == 0 && !word(state).task,
        word(state).slot_locked() <==> word(state).registering || word(state).notifying,
        word(state).overflowing() <==> state > isize::MAX as usize,
{
    lemma_count(state);
}

/// Adding a reference and giving it up touches no flag, and changes the count by one, around its
/// range.
pub proof fn law_references_are_counted_one_by_one(w: Word)
    requires
        w.refs <= usize::MAX / 0x100,
    ensures
        w.add_ref() == (Word { refs: w.add_ref().refs, ..w }),
        w.sub_ref() == (Word { refs: w.sub_ref().refs, ..w }),
        w.add_ref().refs == if w.refs == usize::MAX / 0x100 { 0 } else { (w.refs + 1) as int },
        w.sub_ref().refs == if w.refs == 0 { (usize::MAX / 0x100) as int } else { w.refs - 1 },
{
}

/// A new task has a `Runnable`, which is its one reference, and an await handle, and nothing has
/// happened to it.
pub proof fn law_initial_task_is_scheduled(state: usize)
    requires
        call_ensures(transition::initial, (), state),
    ensures
        word(state).scheduled && word(state).task && word(state).refs == 1,
        !word(state).running && !word(state).completed && !word(state).closed,
        !word(state).awaiter && !word(state).registering && !word(state).notifying,
{
}

/// A task that is revived has a `Runnable`, which is its one reference, and nobody else. It is
/// closed, so its run won't poll the future, and the end of that run destroys it.
pub proof fn law_revived_task_is_only_cleaned_up(
    state: usize,
    started: Option<usize>,
    left: RefDrop,
)
    requires
        call_ensures(transition::revival, (), state),
        call_ensures(transition::start, (state,), started),
        call_ensures(transition::after_drop_ref, (state, true), left),
    ensures
        word(state).scheduled && word(state).closed && word(state).refs == 1,
        !word(state).running && !word(state).completed && !word(state).task,
        !word(state).awaiter && !word(state).registering && !word(state).notifying,
        started is None,
        left is Destroy,
{
}

/// A wake-up by value always leaves the scheduled flag set, whatever the other flags are, and
/// changes nothing else. Only a task that is completed or closed can't be woken.
pub proof fn law_wake_schedules(state: usize, next: Option<usize>)
    requires
        call_ensures(transition::wake, (state,), next),
    ensures
        next is None <==> word(state).completed || word(state).closed,
        next matches Some(n) ==> {
            &&& word(n).scheduled
            &&& word(n) == (Word { scheduled: word(n).scheduled, ..word(state) })
        },
{
}

/// The reference of a waker goes to a `Runnable` exactly if there is none yet, no run is under way,
/// and the task isn't finished.
pub proof fn law_waker_becomes_runnable_of_idle_task(state: usize, consumed: Consumed)
    requires
        call_ensures(transition::after_wake, (state,), consumed),
    ensures
        consumed is IntoRunnable <==> !word(state).scheduled && !word(state).running && !word(
            state,
        ).completed && !word(state).closed,
        consumed is Dropped <==> !(consumed is IntoRunnable),
{
}

/// A wake-up by reference always leaves the scheduled flag set, whatever the other flags are. It
/// counts one more reference exactly where it makes a `Runnable`, and changes nothing else. Only a
/// task that is completed or closed can't be woken.
pub proof fn law_wake_by_ref_schedules(state: usize, next: Option<usize>)
    requires
        call_ensures(transition::wake_by_ref, (state,), next),
    ensures
        next is None <==> word(state).completed || word(state).closed,
        next matches Some(n) ==> {
            &&& word(n).scheduled
            &&& word(n) == (Word {
                scheduled: word(n).scheduled,
                refs: word(n).refs,
                ..word(state)
            })
            &&& word(n).refs == if word(state).scheduled || word(state).running {
                word(state).refs
            } else if word(state).refs == usize::MAX / 0x100 {
                0nat
            } else {
                word(state).refs + 1
            }
        },
{
    lemma_count(state);
}

/// A wake-up by reference asks for the schedule function exactly if there was no `Runnable`, no run
/// was under way, and the task wasn't finished. There alone it looks at the count, and aborts if it
/// has overflowed.
pub proof fn law_wake_by_ref_hands_runnable_out(state: usize, action: Action)
    requires
        call_ensures(transition::after_wake_by_ref, (state,), action),
    ensures
        ({
            let idle = !word(state).scheduled && !word(state).running && !word(state).completed
                && !word(state).closed;
            &&& action is Nothing <==> !idle
            &&& action is Abort <==> idle && state > isize::MAX as usize
            &&& action matches Action::ScheduleDirectly(info) ==> !info.woken_while_running
            &&& action is ScheduleDirectly <==> idle && state <= isize::MAX as usize
        }),
{
    lemma_count(state);
}

/// The two ways to wake a task agree on when it can be woken, and the second of two wake-ups in a
/// row finds nothing to do.
pub proof fn law_wakes_agree(
    state: usize,
    by_value: Option<usize>,
    by_ref: Option<usize>,
    again: Option<usize>,
)
    requires
        call_ensures(transition::wake, (state,), by_value),
        call_ensures(transition::wake_by_ref, (state,), by_ref),
        by_ref matches Some(n) ==> call_ensures(transition::wake_by_ref, (n,), again),
    ensures
        by_value is Some <==> by_ref is Some,
        by_ref matches Some(n) ==> again matches Some(a) && word(a) == word(n),
{
}

/// The count has overflowed once it has reached the upper half of its range.
pub proof fn law_overflow_is_noticed(state: usize, overflow: bool)
    requires
        call_ensures(transition::overflows, (state,), overflow),
    ensures
        overflow <==> state > isize::MAX as usize,
{
    lemma_count(state);
}

/// Only the last waker of a task without an await handle has anything to do: it has an unfinished
/// task scheduled once more, and destroys any other one.
pub proof fn law_last_waker_decides(state: usize, left: WakerDrop)
    requires
        call_ensures(transition::after_drop_waker, (state,), left),
    ensures
        ({
            let last = state / 0x100 == 1 && !word(state).task;
            let finished = word(state).completed || word(state).closed;
            &&& left is Keep <==> !last
            &&& left is Revive <==> last && !finished
            &&& left is Destroy <==> last && finished
        }),
{
    lemma_count(state);
}

/// Only the last reference to a task without an await handle has anything to do: it destroys a task
/// whose future is gone, and closes any other one.
pub proof fn law_last_reference_decides(state: usize, future_dropped: bool, left: RefDrop)
    requires
        call_ensures(transition::after_drop_ref, (state, future_dropped), left),
    ensures
        ({
            let last = state / 0x100 == 1 && !word(state).task;
            let gone = future_dropped || word(state).completed || word(state).closed;
            &&& left is Keep <==> !last
            &&& left is Close <==> last && !gone
            &&& left is Destroy <==> last && gone
        }),
{
    lemma_count(state);
}

/// Closing an abandoned task changes nothing but the closed flag: the run keeps its reference.
pub proof fn law_abandon_only_closes(state: usize, next: usize)
    requires
        call_ensures(transition::abandon, (state,), next),
    ensures
        word(next).closed,
        word(next) == (Word { closed: word(next).closed, ..word(state) }),
{
}

/// A run that goes on to poll leaves the scheduled flag clear and the running flag set, and changes
/// nothing else. Only a closed task is not polled.
pub proof fn law_start_unschedules(state: usize, next: Option<usize>)
    requires
        call_ensures(transition::start, (state,), next),
    ensures
        next is None <==> word(state).closed,
        next matches Some(n) ==> {
            &&& word(n).running && !word(n).scheduled
            &&& word(n) == (Word {
                running: word(n).running,
                scheduled: word(n).scheduled,
                ..word(state)
            })
        },
{
}

/// A run whose future has produced its output always leaves the task completed, neither running nor
/// scheduled. The task is closed by that only if the await handle is gone. Nothing else changes.
///
/// The output is dropped exactly where the task is closed then: otherwise the await handle collects
/// it.
pub proof fn law_completed_output_is_collected_or_dropped(
    state: usize,
    next: Option<usize>,
    dropped: bool,
)
    requires
        call_ensures(transition::complete, (state,), next),
        call_ensures(transition::drops_output, (state,), dropped),
    ensures
        next matches Some(n) && {
            &&& word(n).completed && !word(n).running && !word(n).scheduled
            &&& word(n).closed <==> word(state).closed || !word(state).task
            &&& dropped <==> word(n).closed
            &&& word(n) == (Word {
                completed: word(n).completed,
                running: word(n).running,
                scheduled: word(n).scheduled,
                closed: word(n).closed,
                ..word(state)
            })
        },
{
}

/// A run that leaves the future pending stops running. A wake-up that has come in meanwhile stays,
/// and has the task scheduled again, unless the task was closed: then the future is dropped first.
/// Nothing else changes.
pub proof fn law_pending_task_is_rescheduled_if_woken(
    state: usize,
    future_dropped: bool,
    next: Option<usize>,
    parked: Parked,
)
    requires
        call_ensures(transition::park, (state, future_dropped), next),
        call_ensures(transition::after_park, (state,), parked),
    ensures
        next is None <==> word(state).closed && !future_dropped,
        next matches Some(n) ==> {
            &&& !word(n).running
            &&& word(n).scheduled <==> word(state).scheduled && !word(state).closed
            &&& parked is Woken <==> word(n).scheduled
            &&& word(n) == (Word {
                running: word(n).running,
                scheduled: word(n).scheduled,
                ..word(state)
            })
        },
        parked is Closed <==> word(state).closed,
        parked is Woken <==> word(state).scheduled && !word(state).closed,
        parked is Idle <==> !word(state).scheduled && !word(state).closed,
{
}

/// A panic closes the task and stops it, and changes nothing else. A task that is closed already is
/// left alone.
pub proof fn law_panic_closes(state: usize, next: Option<usize>)
    requires
        call_ensures(transition::unwind, (state,), next),
    ensures
        next is None <==> word(state).closed,
        next matches Some(n) ==> {
            &&& word(n).closed && !word(n).running && !word(n).scheduled
            &&& word(n) == (Word {
                closed: word(n).closed,
                running: word(n).running,
                scheduled: word(n).scheduled,
                ..word(state)
            })
        },
{
}

/// A cancellation changes nothing in the word but the closed flag. A task that is finished already
/// is left alone.
pub proof fn law_cancel_only_closes(state: usize, next: Option<usize>)
    requires
        call_ensures(transition::cancel, (state,), next),
    ensures
        next is None <==> word(state).completed || word(state).closed,
        next matches Some(n) ==> {
            &&& word(n).closed
            &&& word(n) == (Word { closed: word(n).closed, ..word(state) })
        },
{
}

/// What is asked about the awaiter is answered by its flags.
pub proof fn law_awaiter_flags_are_read(
    state: usize,
    registered: bool,
    locked: bool,
    notifying: bool,
)
    requires
        call_ensures(transition::has_awaiter, (state,), registered),
        call_ensures(transition::slot_locked, (state,), locked),
        call_ensures(transition::is_notifying, (state,), notifying),
    ensures
        registered <==> word(state).awaiter,
        locked <==> word(state).registering || word(state).notifying,
        notifying <==> word(state).notifying,
{
}

/// A registration begins by setting its flag and ends by clearing it, with the awaiter flag set,
/// and changes nothing else. Neither is done while a notification is under way.
pub proof fn law_registration_is_bracketed(
    before: usize,
    begun: Option<usize>,
    after: usize,
    ended: Option<usize>,
)
    requires
        call_ensures(transition::register, (before,), begun),
        call_ensures(transition::registered, (after,), ended),
    ensures
        begun is None <==> word(before).notifying,
        begun matches Some(n) ==> {
            &&& word(n).registering
            &&& word(n) == (Word { registering: word(n).registering, ..word(before) })
        },
        ended is None <==> word(after).notifying,
        ended matches Some(n) ==> {
            &&& word(n).awaiter && !word(n).registering
            &&& word(n) == (Word {
                awaiter: word(n).awaiter,
                registering: word(n).registering,
                ..word(after)
            })
        },
{
}

/// A registration that has met a notification always ends, and ends the notification with it. The
/// awaiter flag is left exactly if nobody was taken out of the slot. Nothing else changes.
pub proof fn law_interrupted_registration_ends(state: usize, taken: bool, next: Option<usize>)
    requires
        call_ensures(transition::interrupted, (state, taken), next),
    ensures
        next matches Some(n) && {
            &&& !word(n).notifying && !word(n).registering
            &&& word(n).awaiter <==> !taken
            &&& word(n) == (Word {
                notifying: word(n).notifying,
                registering: word(n).registering,
                awaiter: word(n).awaiter,
                ..word(state)
            })
        },
{
}

/// A snapshot shows the flags and the count of the word that it is made of.
pub proof fn law_snapshot_shows_word(state: usize, snapshot: Snapshot)
    requires
        call_ensures(transition::snapshot, (state,), snapshot),
    ensures
        snapshot.scheduled <==> state & 0x01 != 0,
        snapshot.running <==> state & 0x02 != 0,
        snapshot.completed <==> state & 0x04 != 0,
        snapshot.closed <==> state & 0x08 != 0,
        snapshot.task <==> state & 0x10 != 0,
        snapshot.awaiter <==> state & 0x20 != 0,
        snapshot.ref_count == state / 0x100,
{
}

} // verus!
