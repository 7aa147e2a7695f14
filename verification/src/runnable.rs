//! The handle to a runnable task.
use core::sync::atomic::Ordering;
use core::task::Waker;

use vstd::prelude::*;

use crate::header::Header;
use crate::journal::{Event, Journal, Order};
use crate::raw::Handoff;
use crate::run::Run;
use crate::schedule::ScheduleInfo;
use crate::shared::{fetch_and, fetch_update};
use crate::state::SCHEDULED;
use crate::transition;
use crate::transition::{Action, RefDrop};

verus! {

use crate::header::took;
use crate::raw::{cloned_waker, dropped_ref};
use crate::run::{destroyed_as, started, taken_as};
use crate::state::word;
use crate::transition::cancel_next;

/// A handle to a runnable task.
///
/// Every spawned task has a single `Runnable` handle, which only exists when the task is scheduled
/// for running.
///
/// Method [`run()`][`Runnable::run()`] polls the task's future once. Then, the `Runnable` vanishes
/// and only reappears when its waker wakes the task, thus scheduling it to be run again.
///
/// Dropping a `Runnable` [cancels][`Runnable::cancel()`] the task, which means its future won't be
/// polled again.
pub struct Runnable<'t, M> {
    /// The header of the heap-allocated task.
    header: &'t Header<M>,
}

/// A task that is canceled together with its `Runnable`: its future is to be dropped.
pub struct Canceling<'t, M> {
    header: &'t Header<M>,
}

/// A canceled task without its future.
pub struct Canceled<'t, M> {
    /// The awaiter, which is to be woken before anything else.
    pub awaiter: Option<Waker>,
    /// The reference that is to be dropped then.
    pub reference: Reference<'t, M>,
}

/// A counted reference to a task.
pub struct Reference<'t, M> {
    header: &'t Header<M>,
}

/// The journal entry of a `Runnable` that cancels its task: the task is marked as closed, unless it
/// has already been completed or closed.
pub open spec fn canceled(run: Seq<Event>) -> bool {
    &&& run.len() == 1
    &&& run[0].ordered(Order::AcqRel)
    &&& match run[0] {
        Event::Replaced { prev, next, .. } => Some(word(next)) == cancel_next(word(prev)),
        Event::LeftAlone { seen, .. } => word(seen).finished(),
        _ => false,
    }
}

/// The journal entries of a canceled task whose future has been dropped: the task is marked as
/// unscheduled, and its awaiter is taken.
pub open spec fn canceled_awaiter(run: Seq<Event>, awaiter: Option<Waker>) -> bool {
    &&& run.len() >= 1
    &&& run[0].ordered(Order::AcqRel)
    &&& run[0] matches Event::Masked { mask, prev, .. }
    &&& mask == !SCHEDULED
    &&& if word(prev).awaiter {
        took(run.skip(1), None, taken_as(awaiter))
    } else {
        run.len() == 1 && awaiter is None
    }
}

impl<'t, M> Runnable<'t, M> {
    /// The header of the task.
    pub closed spec fn header(self) -> &'t Header<M> {
        self.header
    }

    /// Makes the `Runnable` of a task from its header.
    ///
    /// This method should only be used with what was returned from
    /// [`into_raw()`][`Runnable::into_raw()`], and only once.
    pub fn from_raw(header: &'t Header<M>) -> (runnable: Self)
        ensures
            runnable.header() == header,
    {
        Runnable { header }
    }

    /// Turns this handle into the header of its task.
    ///
    /// This does not change the state of the task. To avoid a memory leak the header must be
    /// turned back into a `Runnable` using [`from_raw()`][`Runnable::from_raw()`].
    pub fn into_raw(self) -> (header: &'t Header<M>)
        ensures
            header == self.header(),
    {
        self.header
    }

    /// Gets the metadata associated with the task.
    ///
    /// Tasks can be created with a metadata object associated with them; by default, this is a
    /// `()` value.
    pub fn metadata(&self) -> (metadata: &M)
        ensures
            *metadata == self.header().attached(),
    {
        self.header.metadata()
    }

    /// Schedules the task.
    ///
    /// This is a convenience method that passes the `Runnable` to the schedule function, whose
    /// size is `schedule_size`.
    pub fn schedule(self, schedule_size: usize, journal: &mut Journal) -> (handoff: Handoff)
        requires
            old(journal).is_of(self.header().place()),
        ensures
            final(journal).continues(*old(journal), self.header().place()),
            match handoff {
                Handoff::Plain(info) => {
                    &&& schedule_size == 0
                    &&& info == (ScheduleInfo { woken_while_running: false })
                    &&& final(journal)@ == old(journal)@
                },
                Handoff::Guarded(info) => {
                    &&& schedule_size > 0
                    &&& info == (ScheduleInfo { woken_while_running: false })
                    &&& cloned_waker(final(journal).since(*old(journal)), Action::Nothing)
                },
                Handoff::Abort => {
                    &&& schedule_size > 0
                    &&& cloned_waker(final(journal).since(*old(journal)), Action::Abort)
                },
            },
    {
        self.header.schedule(schedule_size, ScheduleInfo::new(false), journal)
    }

    /// Adds the reference of a waker associated with the task.
    pub fn waker(&self, journal: &mut Journal) -> (action: Action)
        requires
            old(journal).is_of(self.header().place()),
        ensures
            final(journal).continues(*old(journal), self.header().place()),
            cloned_waker(final(journal).since(*old(journal)), action),
    {
        self.header.clone_waker(journal)
    }

    /// Runs the task by polling its future.
    ///
    /// If the await handle was dropped or if the task was canceled, then the run simply destroys
    /// the task.
    pub fn run(self, journal: &mut Journal) -> (run: Run<'t, M>)
        requires
            old(journal).is_of(self.header().place()),
        ensures
            final(journal).continues(*old(journal), self.header().place()),
            run is Poll || run is DropClosed,
            started(final(journal).since(*old(journal)), run is DropClosed),
            run.header() == Some(self.header()),
    {
        Run::start(self.header, journal)
    }

    /// Cancels the task, as its `Runnable` is dropped.
    pub fn cancel(self, journal: &mut Journal) -> (canceling: Canceling<'t, M>)
        requires
            old(journal).is_of(self.header().place()),
        ensures
            final(journal).continues(*old(journal), self.header().place()),
            canceled(final(journal).since(*old(journal))),
            canceling.header() == self.header(),
    {
        // If the task has been completed or closed, it can't be canceled.
        let _ = fetch_update(
            self.header.state(),
            Ordering::AcqRel,
            Ordering::Acquire,
            transition::cancel,
            journal,
        );
        Canceling { header: self.header }
    }
}

impl<'t, M> Canceling<'t, M> {
    /// The header of the task.
    pub closed spec fn header(self) -> &'t Header<M> {
        self.header
    }

    /// Marks the task as unscheduled and takes its awaiter, now that the future has been dropped.
    pub fn future_dropped(self, journal: &mut Journal) -> (result: Canceled<'t, M>)
        requires
            old(journal).is_of(self.header().place()),
        ensures
            final(journal).continues(*old(journal), self.header().place()),
            canceled_awaiter(final(journal).since(*old(journal)), result.awaiter),
            result.reference.header() == self.header(),
    {
        // Mark the task as unscheduled.
        let state: usize = fetch_and(self.header.state(), !SCHEDULED, Ordering::AcqRel, journal);
        let ghost middle = *journal;
        let awaiter = self.header.take_awaiter(transition::has_awaiter(state), journal);
        proof {
            journal.lemma_since(middle, *old(journal), self.header().place());
            assert(journal.since(*old(journal)).skip(1) =~= journal.since(middle));
        }
        Canceled { awaiter, reference: Reference { header: self.header } }
    }
}

impl<'t, M> Reference<'t, M> {
    /// The header of the task.
    pub closed spec fn header(self) -> &'t Header<M> {
        self.header
    }

    /// Drops the task reference, and tells whether the task is to be destroyed.
    pub fn release(self, journal: &mut Journal) -> (destroy: bool)
        requires
            old(journal).is_of(self.header().place()),
        ensures
            final(journal).continues(*old(journal), self.header().place()),
            dropped_ref(final(journal).since(*old(journal)), true, destroyed_as(destroy)),
    {
        matches!(self.header.drop_ref(true, journal), RefDrop::Destroy)
    }
}

/// A `Runnable` is nothing but its header: what comes back from the header it was turned into is
/// the same `Runnable`.
pub proof fn law_runnable_survives_raw<M>(before: Runnable<'_, M>, after: Runnable<'_, M>)
    requires
        after.header() == before.header(),
    ensures
        after == before,
{
}

} // verus!
