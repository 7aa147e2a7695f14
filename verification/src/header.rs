//! The header of a task: its state word, its awaiter, and what its creator attached to it.
use core::sync::atomic::Ordering;
use core::task::Waker;

use portable_atomic::AtomicUsize;
use vstd::prelude::*;

use crate::journal::{Event, Journal, Order, Place, Slot};
use crate::shared::{
    fetch_and, fetch_or, fetch_update, fill, load, make, make_slot, take, will_wake,
};
use crate::state::Word;
use crate::state::{AWAITER, NOTIFYING};
use crate::transition;
use crate::transition::Snapshot;

verus! {

use crate::state::{lemma_clear, lemma_constants, lemma_set, lemma_two_masks, word};
use crate::transition::{interrupted_next, register_next, registered_next, spawned, word_of};

/// The header of a task.
///
/// This header is stored in memory at the beginning of the heap-allocated task.
pub struct Header<M> {
    /// Current state of the task.
    ///
    /// Contains flags representing the current state and the reference count.
    state: AtomicUsize,
    /// The task that is blocked on the await handle.
    ///
    /// This waker needs to be woken up once the task completes or is closed.
    awaiter: Slot,
    /// Metadata associated with the task.
    ///
    /// This metadata may be provided to the user.
    metadata: M,
    /// Whether or not a panic that occurs in the task should be propagated.
    propagate_panic: bool,
}

/// What came of taking the awaiter out of a task.
pub enum Taken {
    /// There was no awaiter, or another party takes care of it.
    Nobody,
    /// This awaiter is to be woken.
    Wake(Waker),
    /// This awaiter is the same as the current waker: it is to be dropped.
    Discard(Waker),
}

/// A registration that has locked the awaiter slot.
pub struct Registering<'t, M> {
    header: &'t Header<M>,
}

/// What a registration leaves to its caller.
pub struct Registered {
    /// The awaiter that the slot held before: it is to be dropped.
    pub displaced: Option<Waker>,
    /// The new awaiter, if there was a notification during registration: it is to be woken.
    pub notified: Option<Waker>,
}

/// The journal entries of a new task: its state word says that only the `Runnable` and the await
/// handle exist, and its awaiter slot is empty.
pub open spec fn made(run: Seq<Event>) -> bool {
    &&& run.len() == 2
    &&& run[0] matches Event::Made { value, .. }
    &&& word(value) == spawned()
    &&& run[1] matches Event::SlotMade { held, .. }
    &&& held is None
}

/// The journal entries of an attempt to take the awaiter, given the current waker.
///
/// The attempt sets `NOTIFYING`. If it was set already, or `REGISTERING` was, that is all: the
/// party that came first resolves the race. Otherwise the slot is emptied, and the flags of the
/// notification and of the awaiter are cleared again. An awaiter that was in the slot is handed
/// out to be woken, unless it is the same as the current waker.
pub open spec fn took(run: Seq<Event>, current: Option<Waker>, taken: Taken) -> bool {
    &&& run.len() >= 1
    &&& run[0] matches Event::Joined { flags, prev, .. }
    &&& flags == NOTIFYING && run[0].ordered(Order::AcqRel)
    &&& if word(prev).slot_locked() {
        run.len() == 1 && taken is Nobody
    } else {
        &&& run.len() >= 3
        &&& run[1] matches Event::SlotEmptied { found, .. }
        &&& run[2] matches Event::Masked { mask, .. }
        &&& mask == !NOTIFYING & !AWAITER && run[2].ordered(Order::Release)
        &&& match (found, current) {
            (None, _) => run.len() == 3 && taken is Nobody,
            (Some(waker), None) => run.len() == 3 && taken == Taken::Wake(waker),
            (Some(waker), Some(other)) => {
                &&& run.len() == 4
                &&& run[3] matches Event::Compared { waker: w, other: o, same }
                &&& w == waker && o == other
                &&& taken == if same {
                    Taken::Discard(waker)
                } else {
                    Taken::Wake(waker)
                }
            },
        }
    }
}

/// What an attempt to take the awaiter makes of the state words that it finds.
pub(crate) proof fn lemma_took(run: Seq<Event>, current: Option<Waker>, taken: Taken)
    requires
        took(run, current, taken),
    ensures
        run[0].found() is Some && run[0].left() is Some,
        word(run[0].left()->0) == (Word { notifying: true, ..word(run[0].found()->0) }),
        run.len() > 1 ==> {
            &&& run[2].found() is Some && run[2].left() is Some
            &&& word(run[2].left()->0) == (Word {
                notifying: false,
                awaiter: false,
                ..word(run[2].found()->0)
            })
        },
{
    lemma_constants();
    lemma_set(run[0].found()->0, NOTIFYING);
    if run.len() > 1 {
        let s = run[2].found()->0;
        lemma_two_masks(s, NOTIFYING, AWAITER);
        lemma_clear(s, NOTIFYING);
        lemma_clear(s & !NOTIFYING, AWAITER);
    }
}

/// The journal entries of the beginning of a registration.
///
/// The state word is read once to synchronize with it. If no notification is under way then, nor
/// when the word is replaced, `REGISTERING` is set, which locks the awaiter slot.
pub open spec fn began_registering(run: Seq<Event>, locked: bool) -> bool {
    &&& run.len() >= 1
    &&& run[0] matches Event::Joined { flags, prev, .. }
    &&& flags == 0 && run[0].ordered(Order::Acquire)
    &&& if word(prev).notifying {
        run.len() == 1 && !locked
    } else {
        &&& run.len() == 2 && run[1].ordered(Order::AcqRel)
        &&& match run[1] {
            Event::Replaced { prev, next, .. } => {
                locked && Some(word(next)) == register_next(word(prev))
            },
            Event::LeftAlone { seen, .. } => !locked && word(seen).notifying,
            _ => false,
        }
    }
}

/// The journal entries of the end of a registration of `waker`.
///
/// The waker is put into the slot. If there was no notification since, the registration ends with
/// an awaiter in the slot. Otherwise what the slot holds is taken out again to be woken, and the
/// flags of the registration and the notification are cleared together.
pub open spec fn ended_registering(run: Seq<Event>, waker: Waker, result: Registered) -> bool {
    &&& run.len() >= 2
    &&& run[0] matches Event::SlotFilled { waker: put, found, .. }
    &&& put == waker && found == result.displaced
    &&& run[1].ordered(Order::AcqRel)
    &&& match run[1] {
        Event::Replaced { prev, next, .. } => {
            &&& run.len() == 2
            &&& Some(word(next)) == registered_next(word(prev))
            &&& result.notified is None
        },
        Event::LeftAlone { seen, .. } => {
            &&& run.len() == 4
            &&& word(seen).notifying
            &&& run[2] matches Event::SlotEmptied { found, .. }
            &&& found == result.notified
            &&& run[3] matches Event::Replaced { prev, next, .. }
            &&& run[3].ordered(Order::AcqRel)
            &&& Some(word(next)) == interrupted_next(word(prev), result.notified is Some)
        },
        _ => false,
    }
}

impl<M> Header<M> {
    /// The metadata associated with the task.
    pub closed spec fn attached(&self) -> M {
        self.metadata
    }

    /// Whether panics of the task go to the await handle.
    pub closed spec fn propagates(&self) -> bool {
        self.propagate_panic
    }

    /// The state word and the awaiter slot of the task.
    pub closed spec fn place(&self) -> Place {
        Place { state: self.state, slot: self.awaiter }
    }

    /// Returns the atomic integer that holds the state word.
    pub(crate) fn state(&self) -> (state: &AtomicUsize)
        ensures
            *state == self.place().state,
    {
        &self.state
    }

    /// Makes the header of a new task.
    ///
    /// It is assumed that initially only the `Runnable` and the await handle exist.
    pub fn new(metadata: M, propagate_panic: bool, journal: &mut Journal) -> (header: Header<M>)
        requires
            old(journal).unbound(),
        ensures
            header.attached() == metadata,
            header.propagates() == propagate_panic,
            final(journal).continues(*old(journal), header.place()),
            made(final(journal).since(*old(journal))),
    {
        let state = make(transition::initial(), journal);
        let awaiter = make_slot(None, journal);
        Header { state, awaiter, metadata, propagate_panic }
    }

    /// Returns the metadata associated with the task.
    pub fn metadata(&self) -> (metadata: &M)
        ensures
            *metadata == self.attached(),
    {
        &self.metadata
    }

    /// Tells whether a panic that occurs in the task should be propagated.
    pub fn propagate_panic(&self) -> (propagate: bool)
        ensures
            propagate == self.propagates(),
    {
        self.propagate_panic
    }

    /// Reads the flags and the reference count of the task.
    pub fn snapshot(&self, journal: &mut Journal) -> (snapshot: Snapshot)
        requires
            old(journal).is_of(self.place()),
        ensures
            final(journal).continues(*old(journal), self.place()),
            snapped(final(journal).since(*old(journal)), snapshot),
    {
        transition::snapshot(load(&self.state, Ordering::SeqCst, journal))
    }

    /// Takes the awaiter blocked on the task.
    ///
    /// If there is no awaiter or if it is the same as the current waker, there is nobody to wake.
    pub fn take(&self, current: Option<&Waker>, journal: &mut Journal) -> (taken: Taken)
        requires
            old(journal).is_of(self.place()),
        ensures
            final(journal).continues(*old(journal), self.place()),
            took(
                final(journal).since(*old(journal)),
                match current {
                    Some(waker) => Some(*waker),
                    None => None,
                },
                taken,
            ),
    {
        // Set the bit indicating that the task is notifying its awaiter.
        let state: usize = fetch_or(&self.state, NOTIFYING, Ordering::AcqRel, journal);
        // If the task was notifying or registering an awaiter already, that is all.
        if transition::slot_locked(state) {
            return Taken::Nobody;
        }

        // Take the waker out.
        let found = take(&self.awaiter, journal);
        // Unset the bit indicating that the task is notifying its awaiter.
        fetch_and(&self.state, !NOTIFYING & !AWAITER, Ordering::Release, journal);
        // Finally, hand out the waker if it's different from the current waker.
        match found {
            None => Taken::Nobody,
            Some(waker) => match current {
                None => Taken::Wake(waker),
                Some(other) => {
                    if will_wake(&waker, other, journal) {
                        Taken::Discard(waker)
                    } else {
                        Taken::Wake(waker)
                    }
                },
            },
        }
    }

    /// Begins to register a new awaiter blocked on the task.
    ///
    /// This method is called when the await handle is polled and the task has not yet completed.
    /// It returns `None` if a notification is under way: then the awaiter is to be woken, and is
    /// not registered.
    ///
    /// There can't be two concurrent registrations because the await handle can only be polled by
    /// a unique pinned reference.
    pub fn register<'t>(&'t self, journal: &mut Journal) -> (registering: Option<
        Registering<'t, M>,
    >)
        requires
            old(journal).is_of(self.place()),
        ensures
            final(journal).continues(*old(journal), self.place()),
            began_registering(final(journal).since(*old(journal)), registering is Some),
            registering matches Some(r) ==> r.header() == *self,
    {
        // Load the state and synchronize with it.
        let state: usize = fetch_or(&self.state, 0, Ordering::Acquire, journal);
        // If we're in the notifying state at this moment, just wake and return without registering.
        if transition::is_notifying(state) {
            return None;
        }

        // Mark the state to let other threads know we're registering a new awaiter.
        match fetch_update(
            &self.state,
            Ordering::AcqRel,
            Ordering::Acquire,
            transition::register,
            journal,
        ) {
            Ok(_) => Some(Registering { header: self }),
            Err(_) => None,
        }
    }
}

/// The journal entries of a look at the state word.
pub open spec fn snapped(run: Seq<Event>, snapshot: Snapshot) -> bool {
    &&& run.len() == 1
    &&& run[0] matches Event::Loaded { seen, .. }
    &&& run[0].ordered(Order::SeqCst)
    &&& snapshot.scheduled == word(seen).scheduled
    &&& snapshot.running == word(seen).running
    &&& snapshot.completed == word(seen).completed
    &&& snapshot.closed == word(seen).closed
    &&& snapshot.awaiter == word(seen).awaiter
    &&& snapshot.task == word(seen).task
    &&& snapshot.ref_count == word(seen).refs
}

impl<'t, M> Registering<'t, M> {
    /// The task that the awaiter is registered with.
    pub closed spec fn header(self) -> Header<M> {
        *self.header
    }

    /// Puts the waker into the awaiter slot and ends the registration.
    pub fn store(self, waker: Waker, journal: &mut Journal) -> (result: Registered)
        requires
            old(journal).is_of(self.header().place()),
        ensures
            final(journal).continues(*old(journal), self.header().place()),
            ended_registering(final(journal).since(*old(journal)), waker, result),
    {
        // Put the waker into the awaiter slot.
        let displaced = fill(&self.header.awaiter, waker, journal);
        // Without a notification, the state is neither notified nor registered any more, and there
        // is an awaiter.
        match fetch_update(
            &self.header.state,
            Ordering::AcqRel,
            Ordering::Acquire,
            transition::registered,
            journal,
        ) {
            Ok(_) => Registered { displaced, notified: None },
            Err(_) => {
                // There was a notification: take the waker out of the slot.
                let notified = take(&self.header.awaiter, journal);
                let taken: bool = notified.is_some();
                let end = |state: usize| -> (next: Option<usize>)
                    ensures
                        word_of(next) == interrupted_next(word(state), taken),
                    {
                        transition::interrupted(state, taken)
                    };
                let _ = fetch_update(
                    &self.header.state,
                    Ordering::AcqRel,
                    Ordering::Acquire,
                    end,
                    journal,
                );
                Registered { displaced, notified }
            },
        }
    }
}

} // verus!
