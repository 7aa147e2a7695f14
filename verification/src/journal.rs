//! The record of what one caller did to the shared parts of a task.
//!
//! What another thread does to the state word or to the awaiter slot between two operations of
//! one caller can't be foreseen. So the operations on them promise nothing of the value that they
//! find. What they do say is written into a [`Journal`]: which operation was performed, on which
//! part, with which arguments, and what it found. The contracts of the operations on a task speak
//! of the entries that they add to the journal.
//!
//! Only the operations themselves write into a journal, and each of them only into one that is
//! kept on the part that it works on. So what isn't in the journal of a caller, the caller didn't
//! do.
use core::cell::Cell;
use core::sync::atomic::Ordering;
use core::task::Waker;

use portable_atomic::AtomicUsize;
use vstd::prelude::*;

verus! {

/// The place inside a task for the waker of whoever is blocked on the await handle.
pub type Slot = Cell<Option<Waker>>;

/// The two parts of a task that several threads work on at once.
pub struct Place {
    /// The atomic integer that holds the state word.
    pub state: AtomicUsize,
    /// The awaiter slot.
    pub slot: Slot,
}

/// How an atomic operation synchronizes memory.
pub enum Order {
    Relaxed,
    Acquire,
    Release,
    AcqRel,
    SeqCst,
}

/// The memory ordering as it is written into a journal.
pub open spec fn order_of(order: Ordering) -> Order {
    match order {
        Ordering::Relaxed => Order::Relaxed,
        Ordering::Acquire => Order::Acquire,
        Ordering::Release => Order::Release,
        Ordering::AcqRel => Order::AcqRel,
        _ => Order::SeqCst,
    }
}

/// One operation on the shared parts of a task, and what it found there.
///
/// `on` is the atomic integer that holds the state word, `slot` is the awaiter slot, and `order` is
/// the memory ordering. An attempt to replace the word has one ordering for its success and one for
/// its loads.
pub enum Event {
    /// The state word came into being.
    Made { on: AtomicUsize, value: usize },
    /// The state word was read.
    Loaded { on: AtomicUsize, seen: usize, order: Order },
    /// The state word was overwritten.
    Stored { on: AtomicUsize, value: usize, order: Order },
    /// `amount` was added to the state word, which was `prev` until then.
    Added { on: AtomicUsize, amount: usize, prev: usize, order: Order },
    /// `amount` was subtracted from the state word, which was `prev` until then.
    Subtracted { on: AtomicUsize, amount: usize, prev: usize, order: Order },
    /// Only the bits of `mask` were kept in the state word, which was `prev` until then.
    Masked { on: AtomicUsize, mask: usize, prev: usize, order: Order },
    /// The bits of `flags` were set in the state word, which was `prev` until then.
    Joined { on: AtomicUsize, flags: usize, prev: usize, order: Order },
    /// The state word `prev` was replaced by `next`.
    Replaced { on: AtomicUsize, prev: usize, next: usize, set: Order, fetch: Order },
    /// The state word `seen` was found, and left as it was.
    LeftAlone { on: AtomicUsize, seen: usize, set: Order, fetch: Order },
    /// The awaiter slot came into being.
    SlotMade { slot: Slot, held: Option<Waker> },
    /// The awaiter slot was emptied of what it held.
    SlotEmptied { slot: Slot, found: Option<Waker> },
    /// The awaiter slot was filled, and held `found` until then.
    SlotFilled { slot: Slot, waker: Waker, found: Option<Waker> },
    /// Two wakers were compared.
    Compared { waker: Waker, other: Waker, same: bool },
}

impl Event {
    /// If this is an operation on a state word or on an awaiter slot, then on that of this place.
    pub open spec fn concerns(self, place: Place) -> bool {
        match self {
            Event::Made { on, .. } => on == place.state,
            Event::Loaded { on, .. } => on == place.state,
            Event::Stored { on, .. } => on == place.state,
            Event::Added { on, .. } => on == place.state,
            Event::Subtracted { on, .. } => on == place.state,
            Event::Masked { on, .. } => on == place.state,
            Event::Joined { on, .. } => on == place.state,
            Event::Replaced { on, .. } => on == place.state,
            Event::LeftAlone { on, .. } => on == place.state,
            Event::SlotMade { slot, .. } => slot == place.slot,
            Event::SlotEmptied { slot, .. } => slot == place.slot,
            Event::SlotFilled { slot, .. } => slot == place.slot,
            Event::Compared { .. } => true,
        }
    }

    /// If this is an operation on a state word that is there already, then with this memory
    /// ordering. Where the word is
    /// replaced or left alone, it is loaded with acquire ordering.
    pub open spec fn ordered(self, by: Order) -> bool {
        match self {
            Event::Made { .. } => true,
            Event::Loaded { order, .. } => order == by,
            Event::Stored { order, .. } => order == by,
            Event::Added { order, .. } => order == by,
            Event::Subtracted { order, .. } => order == by,
            Event::Masked { order, .. } => order == by,
            Event::Joined { order, .. } => order == by,
            Event::Replaced { set, fetch, .. } => set == by && fetch == Order::Acquire,
            Event::LeftAlone { set, fetch, .. } => set == by && fetch == Order::Acquire,
            Event::SlotMade { .. } => true,
            Event::SlotEmptied { .. } => true,
            Event::SlotFilled { .. } => true,
            Event::Compared { .. } => true,
        }
    }

    /// The state word that the operation found, where it says so.
    pub open spec fn found(self) -> Option<usize> {
        match self {
            Event::Loaded { seen, .. } => Some(seen),
            Event::Added { prev, .. } => Some(prev),
            Event::Subtracted { prev, .. } => Some(prev),
            Event::Masked { prev, .. } => Some(prev),
            Event::Joined { prev, .. } => Some(prev),
            Event::Replaced { prev, .. } => Some(prev),
            Event::LeftAlone { seen, .. } => Some(seen),
            _ => None,
        }
    }

    /// The state word that the operation left behind, if it is one on the state word.
    pub open spec fn left(self) -> Option<usize> {
        match self {
            Event::Made { value, .. } => Some(value),
            Event::Loaded { seen, .. } => Some(seen),
            Event::Stored { value, .. } => Some(value),
            Event::Added { amount, prev, .. } => Some(prev.wrapping_add(amount)),
            Event::Subtracted { amount, prev, .. } => Some(prev.wrapping_sub(amount)),
            Event::Masked { mask, prev, .. } => Some(prev & mask),
            Event::Joined { flags, prev, .. } => Some(prev | flags),
            Event::Replaced { next, .. } => Some(next),
            Event::LeftAlone { seen, .. } => Some(seen),
            _ => None,
        }
    }
}

/// What a journal holds: the parts that it is kept on, and its entries.
pub struct Record {
    state: Option<AtomicUsize>,
    slot: Option<Slot>,
    events: Seq<Event>,
}

/// The record of the operations that one caller performed on the shared parts of a task.
///
/// It exists for the sake of contracts alone and takes up no memory. Each caller that works on a
/// task writes into a copy of its own.
#[derive(Clone)]
pub struct Journal {
    record: Ghost<Record>,
}

impl View for Journal {
    type V = Seq<Event>;

    closed spec fn view(&self) -> Seq<Event> {
        self.record@.events
    }
}

impl Journal {
    /// The atomic integer that the journal is kept on, once there is one.
    pub closed spec fn state(self) -> Option<AtomicUsize> {
        self.record@.state
    }

    /// The awaiter slot that the journal is kept on, once there is one.
    pub closed spec fn slot(self) -> Option<Slot> {
        self.record@.slot
    }

    /// The journal isn't kept on any part of a task yet.
    pub open spec fn unbound(self) -> bool {
        self.state() is None && self.slot() is None
    }

    /// The journal is kept on this place.
    pub open spec fn is_of(self, place: Place) -> bool {
        self.state() == Some(place.state) && self.slot() == Some(place.slot)
    }

    /// Opens an empty journal, which is kept on the parts of the task that is made with it.
    pub fn new() -> (journal: Journal)
        ensures
            journal@ == Seq::<Event>::empty(),
            journal.unbound(),
    {
        Journal { record: Ghost(Record { state: None, slot: None, events: Seq::empty() }) }
    }

    /// This journal is `earlier` with one more entry.
    pub open spec fn adds(self, event: Event, earlier: Journal) -> bool {
        &&& self.state() == earlier.state()
        &&& self.slot() == earlier.slot()
        &&& self@ == earlier@.push(event)
    }

    /// This journal is `earlier` with further entries, on the given place alone.
    pub open spec fn continues(self, earlier: Journal, on: Place) -> bool {
        &&& self.is_of(on)
        &&& earlier@.is_prefix_of(self@)
        &&& forall|i: int| earlier@.len() <= i < self@.len() ==> (#[trigger] self@[i]).concerns(on)
    }

    /// The entries of this journal that `earlier` does not have yet.
    pub open spec fn since(self, earlier: Journal) -> Seq<Event> {
        self@.skip(earlier@.len() as int)
    }

    /// The entries since a journal are what two stretches of writing add to it, one after the
    /// other.
    pub(crate) proof fn lemma_since(self, middle: Journal, earlier: Journal, on: Place)
        requires
            middle.continues(earlier, on),
            self.continues(middle, on),
        ensures
            self.continues(earlier, on),
            self.since(earlier) == middle.since(earlier) + self.since(middle),
    {
        assert(self.since(earlier) =~= middle.since(earlier) + self.since(middle));
        assert forall|i: int| earlier@.len() <= i < self@.len() implies (
        #[trigger] self@[i]).concerns(on) by {
            if i < middle@.len() {
                assert(middle@[i].concerns(on));
            }
        }
    }
}

} // verus!
