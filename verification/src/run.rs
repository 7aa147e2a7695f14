//! The course of a run.
//!
//! Polling and dropping the future, storing and dropping its output, waking the awaiter and
//! freeing the task are left to the owner of the task's memory. A [`Run`] says which of these is
//! due next, and goes on once it has been done.
use core::sync::atomic::Ordering;
use core::task::Waker;

use vstd::prelude::*;

use crate::header::{Header, Taken};
use crate::journal::{Event, Journal, Order};
use crate::schedule::ScheduleInfo;
use crate::shared::{fetch_and, fetch_update};
use crate::state::{RUNNING, SCHEDULED};
use crate::transition;
use crate::transition::{Parked, RefDrop};

verus! {

use crate::header::took;
use crate::raw::dropped_ref;
use crate::state::word;
use crate::transition::{
    complete_next, park_next, park_outcome, start_next, unwind_next, word_of,
};

/// A run of a task, and what is due next.
pub enum Run<'t, M> {
    /// The future is to be polled. The run goes on with [`Running::polled`].
    Poll(Running<'t, M>),
    /// The task was closed before it could run, or was left pending with nobody to wake it and is
    /// closed for that: its future is to be dropped.
    DropClosed(Closing<'t, M>),
    /// The future is to be dropped, and what polling came to is to be stored in its place.
    StoreOutput(Running<'t, M>),
    /// The task has completed with nobody to await it: its output is to be dropped.
    DropOutput(Finishing<'t, M>),
    /// The task was closed while running: its pending future is to be dropped.
    DropPending(Running<'t, M>),
    /// Polling the future has panicked: the future is to be dropped.
    DropPanicked(Unwinding<'t, M>),
    /// The run is over.
    Over(Ending),
}

/// What polling the future came to.
#[derive(Debug, Clone, Copy, PartialEq, Eq, Structural)]
pub enum Polled {
    /// The future has produced its output.
    Ready,
    /// The future waits for something.
    Pending,
    /// The future has panicked.
    Panicked,
}

/// A closed task that isn't running.
pub struct Closing<'t, M> {
    header: &'t Header<M>,
}

/// A task that is running.
pub struct Running<'t, M> {
    header: &'t Header<M>,
}

/// A task that has completed, and only has its awaiter left to notify and a reference to drop.
pub struct Finishing<'t, M> {
    header: &'t Header<M>,
    notify: bool,
}

/// A task whose future has panicked.
pub struct Unwinding<'t, M> {
    header: &'t Header<M>,
    already_closed: bool,
    notify: bool,
}

/// What a run leaves to its caller, in this order.
pub struct Ending {
    /// Whether the task is to be destroyed.
    pub destroy: bool,
    /// The awaiter, which is to be woken.
    pub awaiter: Option<Waker>,
    /// What the schedule function is to be told if the task was woken while running, in which case
    /// its `Runnable` is to be scheduled again.
    pub reschedule: Option<ScheduleInfo>,
}

/// The outcome of taking the awaiter when there is no current waker to compare it with.
pub open spec fn taken_as(awaiter: Option<Waker>) -> Taken {
    match awaiter {
        Some(waker) => Taken::Wake(waker),
        None => Taken::Nobody,
    }
}

/// What is left of a reference that was given up after the future was dropped.
pub open spec fn destroyed_as(destroy: bool) -> RefDrop {
    if destroy {
        RefDrop::Destroy
    } else {
        RefDrop::Keep
    }
}

/// The journal entries of a run that takes the awaiter, where there is one to notify, and drops
/// its reference.
pub open spec fn released(run: Seq<Event>, notify: bool, ending: Ending) -> bool {
    &&& run.len() >= 1
    &&& dropped_ref(seq![run.last()], true, destroyed_as(ending.destroy))
    &&& if notify {
        took(run.drop_last(), None, taken_as(ending.awaiter))
    } else {
        run.len() == 1 && ending.awaiter is None
    }
    &&& ending.reschedule is None
}

/// The journal entry of the start of a run: the task is marked as unscheduled and running, unless
/// it has already been closed.
pub open spec fn started(run: Seq<Event>, closed: bool) -> bool {
    &&& run.len() == 1
    &&& run[0].ordered(Order::AcqRel)
    &&& match run[0] {
        Event::Replaced { prev, next, .. } => {
            !closed && Some(word(next)) == start_next(word(prev))
        },
        Event::LeftAlone { seen, .. } => closed && word(seen).closed,
        _ => false,
    }
}

/// The journal entries of a closed run whose future has been dropped: the task is marked as
/// unscheduled, and the run is over.
pub open spec fn unscheduled(run: Seq<Event>, ending: Ending) -> bool {
    &&& run.len() >= 1
    &&& run[0].ordered(Order::AcqRel)
    &&& run[0] matches Event::Masked { mask, prev, .. }
    &&& mask == !SCHEDULED
    &&& released(run.skip(1), word(prev).awaiter, ending)
}

/// The journal entries of a run that has stored the output: the task is marked as completed, and
/// the run is over unless the output is to be dropped first.
pub open spec fn completed<M>(run: Seq<Event>, result: Run<'_, M>) -> bool {
    &&& run.len() >= 1
    &&& run[0].ordered(Order::AcqRel)
    &&& run[0] matches Event::Replaced { prev, next, .. }
    &&& Some(word(next)) == complete_next(word(prev))
    &&& if !word(prev).task || word(prev).closed {
        &&& run.len() == 1
        &&& result matches Run::DropOutput(finishing)
        &&& finishing.notify() == word(prev).awaiter
    } else {
        &&& result matches Run::Over(ending)
        &&& released(run.skip(1), word(prev).awaiter, ending)
    }
}

/// The journal entries of a run that left the future pending: the task is marked as not running,
/// unless it was closed and its future is to be dropped first.
///
/// If the task was closed while running, the awaiter is notified. If the task was woken up while
/// running, it is scheduled. Otherwise, the task reference is just dropped, unless that would
/// destroy the task with its future inside: then the task is closed, and its future is to be
/// dropped.
pub open spec fn parked<M>(run: Seq<Event>, future_dropped: bool, result: Run<'_, M>) -> bool {
    &&& run.len() >= 1
    &&& run[0].ordered(Order::AcqRel)
    &&& match run[0] {
        Event::Replaced { prev, next, .. } => {
            &&& Some(word(next)) == park_next(word(prev), future_dropped)
            &&& match park_outcome(word(prev)) {
                Parked::Closed => {
                    &&& result matches Run::Over(ending)
                    &&& released(run.skip(1), word(prev).awaiter, ending)
                },
                Parked::Woken => {
                    &&& run.len() == 1
                    &&& result matches Run::Over(ending)
                    &&& !ending.destroy && ending.awaiter is None
                    &&& ending.reschedule == Some(ScheduleInfo { woken_while_running: true })
                },
                Parked::Idle => match result {
                    Run::Over(ending) => {
                        &&& dropped_ref(
                            run.skip(1),
                            future_dropped,
                            destroyed_as(ending.destroy),
                        )
                        &&& ending.awaiter is None && ending.reschedule is None
                    },
                    Run::DropClosed(_) => dropped_ref(
                        run.skip(1),
                        future_dropped,
                        RefDrop::Close,
                    ),
                    _ => false,
                },
            }
        },
        Event::LeftAlone { seen, .. } => {
            run.len() == 1 && word(seen).closed && !future_dropped && result is DropPending
        },
        _ => false,
    }
}

/// The journal entry of a run whose future has panicked: the task is closed, and marked as not
/// running and not scheduled, unless it has already been closed.
pub open spec fn unwound(run: Seq<Event>, already_closed: bool, notify: bool) -> bool {
    &&& run.len() == 1
    &&& run[0].ordered(Order::AcqRel)
    &&& match run[0] {
        Event::Replaced { prev, next, .. } => {
            &&& Some(word(next)) == unwind_next(word(prev))
            &&& !already_closed
            &&& notify == word(prev).awaiter
        },
        Event::LeftAlone { seen, .. } => {
            &&& word(seen).closed
            &&& already_closed
            &&& notify == word(seen).awaiter
        },
        _ => false,
    }
}

/// The journal entries of a panicked run whose future has been dropped: a task that had been
/// closed before is marked as not running and not scheduled, and the run is over.
pub open spec fn unwound_released(
    run: Seq<Event>,
    already_closed: bool,
    notify: bool,
    ending: Ending,
) -> bool {
    if already_closed {
        &&& run.len() >= 1
        &&& run[0].ordered(Order::AcqRel)
        &&& run[0] matches Event::Masked { mask, .. }
        &&& mask == !RUNNING & !SCHEDULED
        &&& released(run.skip(1), notify, ending)
    } else {
        released(run, notify, ending)
    }
}

/// The journal entries of a run that goes on with `next`, now that what was due has been done.
pub open spec fn went_on<M>(from: Run<'_, M>, run: Seq<Event>, next: Run<'_, M>) -> bool {
    match from {
        Run::Poll(_) => next == from && run.len() == 0,
        Run::DropClosed(_) => next matches Run::Over(ending) && unscheduled(run, ending),
        Run::StoreOutput(_) => completed(run, next),
        Run::DropOutput(finishing) => {
            next matches Run::Over(ending) && released(run, finishing.notify(), ending)
        },
        Run::DropPending(_) => parked(run, true, next),
        Run::DropPanicked(unwinding) => {
            &&& next matches Run::Over(ending)
            &&& unwound_released(run, unwinding.already_closed(), unwinding.notify(), ending)
        },
        Run::Over(_) => next == from && run.len() == 0,
    }
}

/// The journal entries of a run that goes on with `next` after polling.
pub open spec fn polled_on<M>(
    from: Running<'_, M>,
    polled: Polled,
    run: Seq<Event>,
    next: Run<'_, M>,
) -> bool {
    match polled {
        Polled::Pending => parked(run, false, next),
        Polled::Panicked if !from.header().propagates() => {
            &&& next matches Run::DropPanicked(unwinding)
            &&& unwound(run, unwinding.already_closed(), unwinding.notify())
        },
        _ => next == Run::StoreOutput(from) && run.len() == 0,
    }
}

impl<M> Header<M> {
    /// Takes the awaiter to be woken, where there is one to notify.
    pub(crate) fn take_awaiter(&self, notify: bool, journal: &mut Journal) -> (awaiter: Option<
        Waker,
    >)
        requires
            old(journal).is_of(self.place()),
        ensures
            final(journal).continues(*old(journal), self.place()),
            if notify {
                took(final(journal).since(*old(journal)), None, taken_as(awaiter))
            } else {
                final(journal)@ == old(journal)@ && awaiter is None
            },
    {
        if notify {
            match self.take(None, journal) {
                Taken::Wake(waker) => Some(waker),
                _ => None,
            }
        } else {
            None
        }
    }

    /// Takes the awaiter, where there is one to notify, and drops a task reference.
    fn release(&self, notify: bool, journal: &mut Journal) -> (ending: Ending)
        requires
            old(journal).is_of(self.place()),
        ensures
            final(journal).continues(*old(journal), self.place()),
            released(final(journal).since(*old(journal)), notify, ending),
    {
        let awaiter = self.take_awaiter(notify, journal);
        let ghost middle = *journal;
        let destroy: bool = matches!(self.drop_ref(true, journal), RefDrop::Destroy);
        proof {
            journal.lemma_since(middle, *old(journal), self.place());
            let run = journal.since(*old(journal));
            assert(run.drop_last() =~= middle.since(*old(journal)));
            assert(seq![run.last()] =~= journal.since(middle));
        }
        Ending { destroy, awaiter, reschedule: None }
    }
}

impl<'t, M> Run<'t, M> {
    /// The header of the task, as long as the run isn't over.
    pub open spec fn header(self) -> Option<&'t Header<M>> {
        match self {
            Run::Poll(running) => Some(running.header()),
            Run::DropClosed(closing) => Some(closing.header()),
            Run::StoreOutput(running) => Some(running.header()),
            Run::DropOutput(finishing) => Some(finishing.header()),
            Run::DropPending(running) => Some(running.header()),
            Run::DropPanicked(unwinding) => Some(unwinding.header()),
            Run::Over(_) => None,
        }
    }

    /// How many things may still be due before the run is over.
    pub open spec fn rank(self) -> nat {
        match self {
            Run::Poll(_) => 3,
            Run::StoreOutput(_) => 2,
            Run::Over(_) => 0,
            _ => 1,
        }
    }

    /// Starts a run.
    pub(crate) fn start(header: &'t Header<M>, journal: &mut Journal) -> (run: Self)
        requires
            old(journal).is_of(header.place()),
        ensures
            final(journal).continues(*old(journal), header.place()),
            run is Poll || run is DropClosed,
            started(final(journal).since(*old(journal)), run is DropClosed),
            run.header() == Some(header),
    {
        // Update the task's state before polling its future.
        match fetch_update(
            header.state(),
            Ordering::AcqRel,
            Ordering::Acquire,
            transition::start,
            journal,
        ) {
            Ok(_) => Run::Poll(Running { header }),
            Err(_) => Run::DropClosed(Closing { header }),
        }
    }

    /// Goes on with the run, now that what was due has been done.
    ///
    /// Where polling is due, the run waits for its result, and where the run is over, it stays so.
    pub fn done(self, journal: &mut Journal) -> (next: Self)
        requires
            self.header() matches Some(header) ==> old(journal).is_of(header.place()),
        ensures
            match self.header() {
                Some(header) => final(journal).continues(*old(journal), header.place()),
                None => *final(journal) == *old(journal),
            },
            went_on(self, final(journal).since(*old(journal)), next),
            next is Over || next.header() == self.header(),
            self is Poll || self is Over || next.rank() < self.rank(),
    {
        match self {
            Run::DropClosed(closing) => Run::Over(closing.future_dropped(journal)),
            Run::StoreOutput(running) => running.ready(journal),
            Run::DropOutput(finishing) => Run::Over(finishing.release(journal)),
            Run::DropPending(running) => running.pending(true, journal),
            Run::DropPanicked(unwinding) => Run::Over(unwinding.future_dropped(journal)),
            run => run,
        }
    }
}

impl<'t, M> Closing<'t, M> {
    /// The header of the task.
    pub closed spec fn header(self) -> &'t Header<M> {
        self.header
    }

    /// Ends the run, now that the future has been dropped.
    fn future_dropped(self, journal: &mut Journal) -> (ending: Ending)
        requires
            old(journal).is_of(self.header().place()),
        ensures
            final(journal).continues(*old(journal), self.header().place()),
            unscheduled(final(journal).since(*old(journal)), ending),
    {
        // Mark the task as unscheduled.
        let state: usize = fetch_and(self.header.state(), !SCHEDULED, Ordering::AcqRel, journal);
        let ghost middle = *journal;
        let ending = self.header.release(transition::has_awaiter(state), journal);
        proof {
            journal.lemma_since(middle, *old(journal), self.header().place());
            assert(journal.since(*old(journal)).skip(1) =~= journal.since(middle));
        }
        ending
    }
}

impl<'t, M> Running<'t, M> {
    /// The header of the task.
    pub closed spec fn header(self) -> &'t Header<M> {
        self.header
    }

    /// Goes on with the run after polling.
    ///
    /// A panic counts as an output if it is to be propagated to the await handle. Otherwise it
    /// goes on in the caller of the run, after the task has been closed.
    pub fn polled(self, polled: Polled, journal: &mut Journal) -> (next: Run<'t, M>)
        requires
            old(journal).is_of(self.header().place()),
        ensures
            final(journal).continues(*old(journal), self.header().place()),
            polled_on(self, polled, final(journal).since(*old(journal)), next),
            next is Over || next.header() == Some(self.header()),
            next.rank() < Run::Poll(self).rank(),
    {
        match polled {
            Polled::Ready => Run::StoreOutput(self),
            Polled::Pending => self.pending(false, journal),
            Polled::Panicked => {
                if self.header.propagate_panic() {
                    Run::StoreOutput(self)
                } else {
                    Run::DropPanicked(self.panicked(journal))
                }
            },
        }
    }

    /// Completes the task, now that the future has been replaced with its output.
    fn ready(self, journal: &mut Journal) -> (next: Run<'t, M>)
        requires
            old(journal).is_of(self.header().place()),
        ensures
            final(journal).continues(*old(journal), self.header().place()),
            completed(final(journal).since(*old(journal)), next),
            next is Over || next is DropOutput && next.header() == Some(self.header()),
    {
        // Mark the task as not running and completed.
        let state: usize = match fetch_update(
            self.header.state(),
            Ordering::AcqRel,
            Ordering::Acquire,
            transition::complete,
            journal,
        ) {
            Ok(state) => state,
            // Never so, since any state can be completed.
            Err(state) => state,
        };
        let ghost middle = *journal;
        let finishing = Finishing { header: self.header, notify: transition::has_awaiter(state) };
        // If the await handle is dropped or if the task was closed while running, now it's time to
        // drop the output.
        if transition::drops_output(state) {
            Run::DropOutput(finishing)
        } else {
            let ending = finishing.release(journal);
            proof {
                journal.lemma_since(middle, *old(journal), self.header().place());
                assert(journal.since(*old(journal)).skip(1) =~= journal.since(middle));
            }
            Run::Over(ending)
        }
    }

    /// Ends the run with the future still pending, or already dropped.
    fn pending(self, future_dropped: bool, journal: &mut Journal) -> (next: Run<'t, M>)
        requires
            old(journal).is_of(self.header().place()),
        ensures
            final(journal).continues(*old(journal), self.header().place()),
            parked(final(journal).since(*old(journal)), future_dropped, next),
            next is Over || !future_dropped && (next is DropPending || next is DropClosed)
                && next.header() == Some(self.header()),
    {
        let park = |state: usize| -> (next: Option<usize>)
            ensures
                word_of(next) == park_next(word(state), future_dropped),
            {
                transition::park(state, future_dropped)
            };
        // Mark the task as not running.
        let parked = fetch_update(
            self.header.state(),
            Ordering::AcqRel,
            Ordering::Acquire,
            park,
            journal,
        );
        let ghost middle = *journal;
        match parked {
            // The thread that closed the task didn't drop the future because it was running so now
            // it's our responsibility to do so.
            Err(_) => Run::DropPending(self),
            Ok(state) => {
                let ending = match transition::after_park(state) {
                    Parked::Closed => self.header.release(
                        transition::has_awaiter(state),
                        journal,
                    ),
                    // The thread that woke the task up didn't reschedule it because it was running
                    // so now it's our responsibility to do so.
                    Parked::Woken => Ending {
                        destroy: false,
                        awaiter: None,
                        reschedule: Some(ScheduleInfo::new(true)),
                    },
                    // Nobody has asked for another run: just drop the task reference.
                    Parked::Idle => {
                        let left = self.header.drop_ref(future_dropped, journal);
                        proof {
                            journal.lemma_since(middle, *old(journal), self.header().place());
                            assert(journal.since(*old(journal)).skip(1) =~= journal.since(middle));
                        }
                        match left {
                            RefDrop::Keep => Ending {
                                destroy: false,
                                awaiter: None,
                                reschedule: None,
                            },
                            RefDrop::Destroy => Ending {
                                destroy: true,
                                awaiter: None,
                                reschedule: None,
                            },
                            // Nobody could ever wake the task, and its future is still inside.
                            RefDrop::Close => {
                                return Run::DropClosed(Closing { header: self.header });
                            },
                        }
                    },
                };
                proof {
                    journal.lemma_since(middle, *old(journal), self.header().place());
                    assert(journal.since(*old(journal)).skip(1) =~= journal.since(middle));
                }
                Run::Over(ending)
            },
        }
    }

    /// Closes the task, since polling its future panicked.
    fn panicked(self, journal: &mut Journal) -> (unwinding: Unwinding<'t, M>)
        requires
            old(journal).is_of(self.header().place()),
        ensures
            final(journal).continues(*old(journal), self.header().place()),
            unwound(
                final(journal).since(*old(journal)),
                unwinding.already_closed(),
                unwinding.notify(),
            ),
            unwinding.header() == self.header(),
    {
        match fetch_update(
            self.header.state(),
            Ordering::AcqRel,
            Ordering::Acquire,
            transition::unwind,
            journal,
        ) {
            Ok(state) => Unwinding {
                header: self.header,
                already_closed: false,
                notify: transition::has_awaiter(state),
            },
            Err(state) => Unwinding {
                header: self.header,
                already_closed: true,
                notify: transition::has_awaiter(state),
            },
        }
    }
}

impl<'t, M> Finishing<'t, M> {
    /// The header of the task.
    pub closed spec fn header(self) -> &'t Header<M> {
        self.header
    }

    /// Whether there is an awaiter to notify.
    pub closed spec fn notify(self) -> bool {
        self.notify
    }

    /// Takes the awaiter, if there is one to notify, and drops the task reference.
    fn release(self, journal: &mut Journal) -> (ending: Ending)
        requires
            old(journal).is_of(self.header().place()),
        ensures
            final(journal).continues(*old(journal), self.header().place()),
            released(final(journal).since(*old(journal)), self.notify(), ending),
    {
        self.header.release(self.notify, journal)
    }
}

impl<'t, M> Unwinding<'t, M> {
    /// The header of the task.
    pub closed spec fn header(self) -> &'t Header<M> {
        self.header
    }

    /// Whether the task had already been closed when its future panicked.
    pub closed spec fn already_closed(self) -> bool {
        self.already_closed
    }

    /// Whether there is an awaiter to notify.
    pub closed spec fn notify(self) -> bool {
        self.notify
    }

    /// Ends the run, now that the future has been dropped.
    fn future_dropped(self, journal: &mut Journal) -> (ending: Ending)
        requires
            old(journal).is_of(self.header().place()),
        ensures
            final(journal).continues(*old(journal), self.header().place()),
            unwound_released(
                final(journal).since(*old(journal)),
                self.already_closed(),
                self.notify(),
                ending,
            ),
    {
        if self.already_closed {
            // Mark the task as not running and not scheduled.
            fetch_and(self.header.state(), !RUNNING & !SCHEDULED, Ordering::AcqRel, journal);
            let ghost middle = *journal;
            let ending = self.header.release(self.notify, journal);
            proof {
                journal.lemma_since(middle, *old(journal), self.header().place());
                assert(journal.since(*old(journal)).skip(1) =~= journal.since(middle));
            }
            ending
        } else {
            self.header.release(self.notify, journal)
        }
    }
}

impl Ending {
    /// Tells whether the task was woken while running, in which case its `Runnable` gets
    /// rescheduled.
    pub fn woken(&self) -> (woken: bool)
        ensures
            woken == self.reschedule is Some,
    {
        self.reschedule.is_some()
    }
}

} // verus!
