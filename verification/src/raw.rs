//! The operations of wakers on a task, and the reference count.
use core::sync::atomic::Ordering;

use vstd::prelude::*;

use crate::header::Header;
use crate::journal::{Event, Journal, Order};
use crate::schedule::ScheduleInfo;
use crate::shared::{fetch_add, fetch_sub, fetch_update, store};
use crate::state::REFERENCE;
use crate::transition;
use crate::transition::{Action, Consumed, RefDrop, WakerDrop};

verus! {

use crate::state::word;
use crate::transition::{
    abandoned, ref_drop_outcome, revived, wake_by_ref_next, wake_by_ref_outcome, wake_next,
    wake_outcome, waker_drop_outcome,
};

/// What a wake-up by value leaves to its caller.
#[derive(Debug, Clone, Copy, PartialEq, Eq, Structural)]
pub enum Woken {
    /// The task was woken by reference: after this action, the waker is to be dropped.
    ByRef(Action),
    /// The waker is gone, and this action is left.
    Consumed(Action),
}

/// How a `Runnable` goes to the schedule function.
#[derive(Debug, Clone, Copy, PartialEq, Eq, Structural)]
pub enum Handoff {
    /// It is passed to the schedule function.
    Plain(ScheduleInfo),
    /// It is passed to the schedule function under the protection of a temporary waker, which
    /// owns a reference of its own and is to be dropped afterwards.
    Guarded(ScheduleInfo),
    /// The reference count has overflowed: the program is to be aborted.
    Abort,
}

/// The journal entries of a wake-up by reference.
pub open spec fn woke_by_ref(run: Seq<Event>, action: Action) -> bool {
    &&& run.len() == 1
    &&& run[0].ordered(Order::AcqRel)
    &&& match run[0] {
        Event::Replaced { prev, next, .. } => {
            &&& Some(word(next)) == wake_by_ref_next(word(prev))
            &&& action == wake_by_ref_outcome(word(prev))
        },
        Event::LeftAlone { seen, .. } => word(seen).finished() && action is Nothing,
        _ => false,
    }
}

/// The journal entries of a waker that adds a reference for its clone.
pub open spec fn cloned_waker(run: Seq<Event>, action: Action) -> bool {
    &&& run.len() == 1
    &&& run[0] matches Event::Added { amount, prev, .. }
    &&& amount == REFERENCE
    &&& run[0].ordered(Order::Relaxed)
    &&& action == if word(prev).overflowing() {
        Action::Abort
    } else {
        Action::Nothing
    }
}

/// The journal entries of a waker that gives up its reference.
///
/// If it was the last one, the await handle is gone and the future is still inside, then nobody
/// else can reach the task: its word is overwritten to close and to schedule it.
pub open spec fn dropped_waker(run: Seq<Event>, action: Action) -> bool {
    &&& run.len() >= 1
    &&& run[0] matches Event::Subtracted { amount, prev, .. }
    &&& amount == REFERENCE
    &&& run[0].ordered(Order::AcqRel)
    &&& match waker_drop_outcome(word(prev)) {
        WakerDrop::Keep => run.len() == 1 && action is Nothing,
        WakerDrop::Revive => {
            &&& run.len() == 2
            &&& run[1] matches Event::Stored { value, .. }
            &&& run[1].ordered(Order::Release)
            &&& word(value) == revived()
            &&& action == Action::Schedule(ScheduleInfo { woken_while_running: false })
        },
        WakerDrop::Destroy => run.len() == 1 && action is Destroy,
    }
}

/// The journal entries of a wake-up by value of a task whose schedule function takes up no space.
///
/// Where the task becomes scheduled and isn't running, the reference of the waker goes to the
/// `Runnable`. In all other cases the waker is dropped.
pub open spec fn woke(run: Seq<Event>, action: Action) -> bool {
    &&& run.len() >= 1
    &&& run[0].ordered(Order::AcqRel)
    &&& match run[0] {
        Event::Replaced { prev, next, .. } => {
            &&& Some(word(next)) == wake_next(word(prev))
            &&& match wake_outcome(word(prev)) {
                Consumed::IntoRunnable => {
                    &&& run.len() == 1
                    &&& action == Action::Schedule(ScheduleInfo { woken_while_running: false })
                },
                Consumed::Dropped => dropped_waker(run.skip(1), action),
            }
        },
        Event::LeftAlone { seen, .. } => {
            word(seen).finished() && dropped_waker(run.skip(1), action)
        },
        _ => false,
    }
}

/// The journal entries of a reference other than that of a waker that is given up.
///
/// If it was the last one, the await handle is gone and the future is still inside, then the
/// reference is taken back and the task is closed.
pub open spec fn dropped_ref(run: Seq<Event>, future_dropped: bool, left: RefDrop) -> bool {
    &&& run.len() >= 1
    &&& run[0] matches Event::Subtracted { amount, prev, .. }
    &&& amount == REFERENCE
    &&& run[0].ordered(Order::AcqRel)
    &&& left == ref_drop_outcome(word(prev), future_dropped)
    &&& if left is Close {
        &&& run.len() == 2
        &&& run[1] matches Event::Stored { value, .. }
        &&& run[1].ordered(Order::Release)
        &&& word(value) == abandoned(word(prev))
    } else {
        run.len() == 1
    }
}

impl<M> Header<M> {
    /// Wakes a waker.
    ///
    /// If the schedule function has captured variables, then we'll do less reference counting if
    /// we wake the waker by reference and then drop it. `schedule_size` is the size of the
    /// schedule function.
    pub fn wake(&self, schedule_size: usize, journal: &mut Journal) -> (woken: Woken)
        requires
            old(journal).is_of(self.place()),
        ensures
            final(journal).continues(*old(journal), self.place()),
            match woken {
                Woken::ByRef(action) => {
                    &&& schedule_size > 0
                    &&& woke_by_ref(final(journal).since(*old(journal)), action)
                },
                Woken::Consumed(action) => {
                    &&& schedule_size == 0
                    &&& woke(final(journal).since(*old(journal)), action)
                },
            },
    {
        if schedule_size > 0 {
            return Woken::ByRef(self.wake_by_ref(journal));
        }
        let consumed = match fetch_update(
            self.state(),
            Ordering::AcqRel,
            Ordering::Acquire,
            transition::wake,
            journal,
        ) {
            Ok(state) => transition::after_wake(state),
            // If the task is completed or closed, it can't be woken up.
            Err(_) => Consumed::Dropped,
        };
        let ghost middle = *journal;
        match consumed {
            // If the task is not yet scheduled and isn't currently running, now is the time to
            // schedule it.
            Consumed::IntoRunnable => Woken::Consumed(Action::Schedule(ScheduleInfo::new(false))),
            Consumed::Dropped => {
                let action = self.drop_waker(journal);
                proof {
                    journal.lemma_since(middle, *old(journal), self.place());
                    assert(journal.since(*old(journal)).skip(1) =~= journal.since(middle));
                }
                Woken::Consumed(action)
            },
        }
    }

    /// Wakes a waker by reference.
    pub fn wake_by_ref(&self, journal: &mut Journal) -> (action: Action)
        requires
            old(journal).is_of(self.place()),
        ensures
            final(journal).continues(*old(journal), self.place()),
            woke_by_ref(final(journal).since(*old(journal)), action),
    {
        match fetch_update(
            self.state(),
            Ordering::AcqRel,
            Ordering::Acquire,
            transition::wake_by_ref,
            journal,
        ) {
            Ok(state) => transition::after_wake_by_ref(state),
            // If the task is completed or closed, it can't be woken up.
            Err(_) => Action::Nothing,
        }
    }

    /// Clones a waker.
    ///
    /// Increments the reference count. With any kind of reference-counted data structure, relaxed
    /// ordering is appropriate when incrementing the counter.
    pub fn clone_waker(&self, journal: &mut Journal) -> (action: Action)
        requires
            old(journal).is_of(self.place()),
        ensures
            final(journal).continues(*old(journal), self.place()),
            cloned_waker(final(journal).since(*old(journal)), action),
    {
        let state: usize = fetch_add(self.state(), REFERENCE, Ordering::Relaxed, journal);
        // If the reference count overflowed, abort.
        if transition::overflows(state) {
            Action::Abort
        } else {
            Action::Nothing
        }
    }

    /// Drops a waker.
    ///
    /// This function will decrement the reference count. If it drops down to zero, the await
    /// handle has been dropped too, and the task has not been completed, then it will get
    /// scheduled one more time so that its future gets dropped by the executor.
    pub fn drop_waker(&self, journal: &mut Journal) -> (action: Action)
        requires
            old(journal).is_of(self.place()),
        ensures
            final(journal).continues(*old(journal), self.place()),
            dropped_waker(final(journal).since(*old(journal)), action),
    {
        // Decrement the reference count.
        let state: usize = fetch_sub(self.state(), REFERENCE, Ordering::AcqRel, journal);
        match transition::after_drop_waker(state) {
            WakerDrop::Keep => Action::Nothing,
            WakerDrop::Revive => {
                store(self.state(), transition::revival(), Ordering::Release, journal);
                Action::Schedule(ScheduleInfo::new(false))
            },
            WakerDrop::Destroy => Action::Destroy,
        }
    }

    /// Drops a task reference, and says what is left.
    ///
    /// This function will decrement the reference count. If it drops down to zero and the
    /// associated await handle has been dropped too, then the task gets destroyed. The task must be
    /// closed before: if its future is still inside, it is closed instead, and its future is to be
    /// dropped first.
    pub fn drop_ref(&self, future_dropped: bool, journal: &mut Journal) -> (left: RefDrop)
        requires
            old(journal).is_of(self.place()),
        ensures
            final(journal).continues(*old(journal), self.place()),
            dropped_ref(final(journal).since(*old(journal)), future_dropped, left),
    {
        // Decrement the reference count.
        let state: usize = fetch_sub(self.state(), REFERENCE, Ordering::AcqRel, journal);
        let left = transition::after_drop_ref(state, future_dropped);
        match left {
            RefDrop::Close => {
                // Nobody else can reach the task any more.
                store(self.state(), transition::abandon(state), Ordering::Release, journal);
            },
            _ => {},
        }
        left
    }

    /// Schedules a task for running.
    ///
    /// This function doesn't modify the flags of the task. It only decides how the task reference
    /// is passed to its schedule function: if the schedule function has captured variables, a
    /// temporary waker prevents the task from getting deallocated while the function is being
    /// invoked. `schedule_size` is the size of the schedule function.
    pub fn schedule(
        &self,
        schedule_size: usize,
        info: ScheduleInfo,
        journal: &mut Journal,
    ) -> (handoff: Handoff)
        requires
            old(journal).is_of(self.place()),
        ensures
            final(journal).continues(*old(journal), self.place()),
            match handoff {
                Handoff::Plain(told) => {
                    &&& schedule_size == 0
                    &&& told == info
                    &&& final(journal)@ == old(journal)@
                },
                Handoff::Guarded(told) => {
                    &&& schedule_size > 0
                    &&& told == info
                    &&& cloned_waker(final(journal).since(*old(journal)), Action::Nothing)
                },
                Handoff::Abort => {
                    &&& schedule_size > 0
                    &&& cloned_waker(final(journal).since(*old(journal)), Action::Abort)
                },
            },
    {
        if schedule_size > 0 {
            match self.clone_waker(journal) {
                Action::Abort => Handoff::Abort,
                _ => Handoff::Guarded(info),
            }
        } else {
            Handoff::Plain(info)
        }
    }
}

} // verus!
