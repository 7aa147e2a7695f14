//! The decisions of a task: what each operation makes of the state word that it observes.
//!
//! Each `*_next` function says, of the word that an operation observes, which word the operation
//! installs in its place; `None` means that it leaves the word alone. The executable function of
//! the same name, without the suffix, computes this on the machine word. The remaining functions
//! say what is to be done once a word has been replaced.
use vstd::prelude::*;

use crate::schedule::ScheduleInfo;
use crate::state::{
    AWAITER, CLOSED, COMPLETED, NOTIFYING, REFERENCE, REGISTERING, RUNNING, SCHEDULED, TASK,
};
use crate::state::Word;

verus! {

use crate::state::{blank, lemma_clear, lemma_constants, lemma_count, lemma_set, word};

/// What the optional machine word says.
pub open spec fn word_of(next: Option<usize>) -> Option<Word> {
    match next {
        Some(s) => Some(word(s)),
        None => None,
    }
}

/// What is to be done about a task after an operation on its state word.
#[derive(Debug, Clone, Copy, PartialEq, Eq, Structural)]
pub enum Action {
    /// Nothing is left to do.
    Nothing,
    /// A `Runnable` has come into existence: schedule it.
    Schedule(ScheduleInfo),
    /// A `Runnable` has come into existence: pass it to the schedule function straight away. The
    /// schedule function can't be destroyed meanwhile, since the waker is still alive.
    ScheduleDirectly(ScheduleInfo),
    /// The last reference is gone: release the resources of the task.
    Destroy,
    /// The reference count has overflowed: abort the program.
    Abort,
}

/// What becomes of a waker that has woken its task by value.
#[derive(Debug, Clone, Copy, PartialEq, Eq, Structural)]
pub enum Consumed {
    /// Its reference now belongs to the `Runnable` that is to be scheduled.
    IntoRunnable,
    /// It still holds its reference and is to be dropped.
    Dropped,
}

/// What a waker that has given up its reference leaves behind.
#[derive(Debug, Clone, Copy, PartialEq, Eq, Structural)]
pub enum WakerDrop {
    /// The task is still referenced.
    Keep,
    /// The task is unreferenced with its future still inside: it is to be closed and scheduled
    /// one more time so that its future gets dropped by the executor.
    Revive,
    /// The task is unreferenced and finished: it is to be destroyed.
    Destroy,
}

/// What is left once a reference other than that of a waker has been given up.
#[derive(Debug, Clone, Copy, PartialEq, Eq, Structural)]
pub enum RefDrop {
    /// The task is still referenced.
    Keep,
    /// The task would be unreferenced with its future still inside: it is to be closed, and its
    /// future is to be dropped before it is destroyed.
    Close,
    /// The task is unreferenced and its future is gone: it is to be destroyed.
    Destroy,
}

/// What a task that stops running with its future still pending needs next.
#[derive(Debug, Clone, Copy, PartialEq, Eq, Structural)]
pub enum Parked {
    /// It was closed while running: the awaiter is to be notified.
    Closed,
    /// It was woken up while running: it is to be scheduled again.
    Woken,
    /// It waits to be woken up.
    Idle,
}

/// The flags and the reference count of a task at one moment.
#[derive(Debug, Clone, Copy, PartialEq, Eq, Structural)]
pub struct Snapshot {
    pub scheduled: bool,
    pub running: bool,
    pub completed: bool,
    pub closed: bool,
    pub awaiter: bool,
    pub task: bool,
    pub ref_count: usize,
}

proof fn lemma_any_of_two(s: usize, a: usize, b: usize)
    ensures
        (s & (a | b) != 0) == (s & a != 0 || s & b != 0),
{
    assert((s & (a | b) != 0) == (s & a != 0 || s & b != 0)) by (bit_vector);
}

/// The word of a new task: scheduled, with an await handle, referenced by its `Runnable` alone.
pub open spec fn spawned() -> Word {
    Word { scheduled: true, task: true, refs: 1, ..blank() }
}

/// Computes the state word of a new task.
pub fn initial() -> (state: usize)
    ensures
        word(state) == spawned(),
{
    proof {
        lemma_constants();
        lemma_set(REFERENCE, TASK);
        lemma_set(REFERENCE | TASK, SCHEDULED);
    }
    REFERENCE | TASK | SCHEDULED
}

/// The word of a task that is scheduled only to have its future dropped.
pub open spec fn revived() -> Word {
    Word { scheduled: true, closed: true, refs: 1, ..blank() }
}

/// Computes the state word of a task that is scheduled only to have its future dropped.
pub fn revival() -> (state: usize)
    ensures
        word(state) == revived(),
{
    proof {
        lemma_constants();
        lemma_set(REFERENCE, CLOSED);
        lemma_set(REFERENCE | CLOSED, SCHEDULED);
    }
    REFERENCE | CLOSED | SCHEDULED
}

/// The word after a wake-up by value: the task is scheduled, unless it is finished.
pub open spec fn wake_next(w: Word) -> Option<Word> {
    if w.finished() {
        None
    } else {
        Some(Word { scheduled: true, ..w })
    }
}

/// Wakes a task through a waker that is consumed.
///
/// A task that is completed or closed can't be woken up. If the task is already scheduled, its
/// word is installed unchanged, which publishes the caller's view of the memory to the thread
/// that will run the task. Otherwise the task is marked as scheduled.
pub fn wake(state: usize) -> (next: Option<usize>)
    ensures
        word_of(next) == wake_next(word(state)),
{
    proof {
        lemma_any_of_two(state, COMPLETED, CLOSED);
        lemma_constants();
        lemma_set(state, SCHEDULED);
    }
    if state & (COMPLETED | CLOSED) != 0 {
        None
    } else if state & SCHEDULED != 0 {
        Some(state)
    } else {
        Some(state | SCHEDULED)
    }
}

/// The waker goes into the `Runnable` only where the task was neither scheduled nor running.
pub open spec fn wake_outcome(w: Word) -> Consumed {
    if w.finished() || w.scheduled || w.running {
        Consumed::Dropped
    } else {
        Consumed::IntoRunnable
    }
}

/// Decides what becomes of the waker that observed `state` as it woke its task by value.
///
/// Only where the task was neither scheduled nor running is it time to schedule it, and the
/// reference of the waker goes to its `Runnable`.
pub fn after_wake(state: usize) -> (consumed: Consumed)
    ensures
        consumed == wake_outcome(word(state)),
{
    proof {
        lemma_any_of_two(state, COMPLETED, CLOSED);
    }
    if state & (COMPLETED | CLOSED) != 0 || state & SCHEDULED != 0 || state & RUNNING != 0 {
        Consumed::Dropped
    } else {
        Consumed::IntoRunnable
    }
}

/// The word after a wake-up by reference: the task is scheduled, unless it is finished, and a
/// `Runnable` that comes into existence has a reference of its own.
pub open spec fn wake_by_ref_next(w: Word) -> Option<Word> {
    if w.finished() {
        None
    } else if w.scheduled || w.running {
        Some(Word { scheduled: true, ..w })
    } else {
        Some(Word { scheduled: true, ..w.add_ref() })
    }
}

/// Wakes a task through a waker that stays alive.
///
/// This is [`wake`] but for one thing: the waker keeps its reference, so where the task is
/// neither scheduled nor running, the `Runnable` gets a reference of its own.
pub fn wake_by_ref(state: usize) -> (next: Option<usize>)
    ensures
        word_of(next) == wake_by_ref_next(word(state)),
{
    proof {
        lemma_any_of_two(state, COMPLETED, CLOSED);
        lemma_constants();
        lemma_set(state, SCHEDULED);
        lemma_count(state | SCHEDULED);
    }
    if state & (COMPLETED | CLOSED) != 0 {
        None
    } else if state & SCHEDULED != 0 {
        Some(state)
    } else if state & RUNNING == 0 {
        Some((state | SCHEDULED).wrapping_add(REFERENCE))
    } else {
        Some(state | SCHEDULED)
    }
}

/// A `Runnable` has come into existence only where the task was neither scheduled nor running.
pub open spec fn wake_by_ref_outcome(w: Word) -> Action {
    if w.finished() || w.scheduled || w.running {
        Action::Nothing
    } else if w.overflowing() {
        Action::Abort
    } else {
        Action::ScheduleDirectly(ScheduleInfo { woken_while_running: false })
    }
}

/// Decides what is to be done after a waker observed `state` as it woke its task by reference.
pub fn after_wake_by_ref(state: usize) -> (action: Action)
    ensures
        action == wake_by_ref_outcome(word(state)),
{
    proof {
        lemma_any_of_two(state, COMPLETED, CLOSED);
        lemma_count(state);
    }
    if state & (COMPLETED | CLOSED) != 0 || state & SCHEDULED != 0 || state & RUNNING != 0 {
        Action::Nothing
    } else if state > isize::MAX as usize {
        Action::Abort
    } else {
        Action::ScheduleDirectly(ScheduleInfo::new(false))
    }
}

/// Decides whether the reference count had overflowed where a reference was added to `state`.
pub fn overflows(state: usize) -> (overflow: bool)
    ensures
        overflow == word(state).overflowing(),
{
    proof {
        lemma_count(state);
    }
    state > isize::MAX as usize
}

proof fn lemma_no_references(s: usize)
    ensures
        (s & !((REFERENCE - 1) as usize) == 0) == (word(s).refs == 0),
{
    assert((s & !0xffusize == 0) == (s / REFERENCE == 0)) by (bit_vector);
}

/// The last waker has an unfinished task scheduled once more, and destroys a finished one.
pub open spec fn waker_drop_outcome(w: Word) -> WakerDrop {
    if !w.sub_ref().unreferenced() {
        WakerDrop::Keep
    } else if !w.finished() {
        WakerDrop::Revive
    } else {
        WakerDrop::Destroy
    }
}

/// Decides what a waker leaves behind whose reference was subtracted from `state`.
///
/// If this was the last reference to the task and the await handle has been dropped too, then we
/// need to decide how to destroy the task. If the task was not completed nor closed, it is closed
/// and scheduled one more time so that its future gets dropped by the executor. Otherwise, it is
/// destroyed right away.
pub fn after_drop_waker(state: usize) -> (left: WakerDrop)
    ensures
        left == waker_drop_outcome(word(state)),
{
    let new: usize = state.wrapping_sub(REFERENCE);
    proof {
        lemma_count(state);
        lemma_no_references(new);
        lemma_any_of_two(new, COMPLETED, CLOSED);
    }
    if new & !(REFERENCE - 1) == 0 && new & TASK == 0 {
        if new & (COMPLETED | CLOSED) == 0 {
            WakerDrop::Revive
        } else {
            WakerDrop::Destroy
        }
    } else {
        WakerDrop::Keep
    }
}

/// The last reference destroys a task without its future, and closes any other one.
pub open spec fn ref_drop_outcome(w: Word, future_dropped: bool) -> RefDrop {
    if !w.sub_ref().unreferenced() {
        RefDrop::Keep
    } else if future_dropped || w.finished() {
        RefDrop::Destroy
    } else {
        RefDrop::Close
    }
}

/// Decides what is left where a reference was subtracted from `state`.
///
/// If this was the last reference to the task and the await handle has been dropped too, then the
/// task gets destroyed. The task must be closed before, and its future dropped.
pub fn after_drop_ref(state: usize, future_dropped: bool) -> (left: RefDrop)
    ensures
        left == ref_drop_outcome(word(state), future_dropped),
{
    let new: usize = state.wrapping_sub(REFERENCE);
    proof {
        lemma_count(state);
        lemma_no_references(new);
        lemma_any_of_two(new, COMPLETED, CLOSED);
    }
    if new & !(REFERENCE - 1) == 0 && new & TASK == 0 {
        if future_dropped || new & (COMPLETED | CLOSED) != 0 {
            RefDrop::Destroy
        } else {
            RefDrop::Close
        }
    } else {
        RefDrop::Keep
    }
}

/// The word of a task that nobody can reach any more but a run: closed, and referenced by the run.
pub open spec fn abandoned(w: Word) -> Word {
    Word { closed: true, ..w }
}

/// Computes the word of a task that nobody can reach any more but the run that observed `state` as
/// it gave up its reference, and now takes the reference back to close the task.
pub fn abandon(state: usize) -> (next: usize)
    ensures
        word(next) == abandoned(word(state)),
{
    proof {
        lemma_constants();
        lemma_set(state, CLOSED);
    }
    state | CLOSED
}

/// The word of a task that starts to run: unscheduled and running, unless it is closed.
pub open spec fn start_next(w: Word) -> Option<Word> {
    if w.closed {
        None
    } else {
        Some(Word { scheduled: false, running: true, ..w })
    }
}

/// Starts a run: marks the task as unscheduled and running, unless it has already been closed.
pub fn start(state: usize) -> (next: Option<usize>)
    ensures
        word_of(next) == start_next(word(state)),
{
    proof {
        lemma_constants();
        lemma_clear(state, SCHEDULED);
        lemma_set(state & !SCHEDULED, RUNNING);
    }
    if state & CLOSED != 0 {
        None
    } else {
        Some((state & !SCHEDULED) | RUNNING)
    }
}

/// The word of a task that has produced its output: completed, and closed too if nobody awaits it.
pub open spec fn complete_next(w: Word) -> Option<Word> {
    Some(
        Word {
            scheduled: false,
            running: false,
            completed: true,
            closed: w.closed || !w.task,
            ..w
        },
    )
}

/// Ends a run that produced the output: marks the task as not running and completed.
///
/// If the await handle is dropped, the task is closed as well.
pub fn complete(state: usize) -> (next: Option<usize>)
    ensures
        word_of(next) == complete_next(word(state)),
{
    let settled: usize = state & !RUNNING & !SCHEDULED;
    proof {
        lemma_constants();
        lemma_clear(state, RUNNING);
        lemma_clear(state & !RUNNING, SCHEDULED);
        lemma_set(settled, COMPLETED);
        lemma_set(settled | COMPLETED, CLOSED);
    }
    if state & TASK == 0 {
        Some(settled | COMPLETED | CLOSED)
    } else {
        Some(settled | COMPLETED)
    }
}

/// Decides whether the output is to be dropped by the run that replaced `state` as it completed.
///
/// That is so if the await handle is dropped or if the task was closed while running.
pub fn drops_output(state: usize) -> (dropped: bool)
    ensures
        dropped == (!word(state).task || word(state).closed),
{
    state & TASK == 0 || state & CLOSED != 0
}

/// The word of a task that stops running with its future pending, or already dropped.
pub open spec fn park_next(w: Word, future_dropped: bool) -> Option<Word> {
    if w.closed && !future_dropped {
        None
    } else if w.closed {
        Some(Word { scheduled: false, running: false, ..w })
    } else {
        Some(Word { running: false, ..w })
    }
}

/// Ends a run that left the future pending: marks the task as not running.
///
/// If the task was closed while running, the word is left alone until the future has been
/// dropped: the thread that closed the task didn't do so because it was running. Then the task is
/// unscheduled too, in case it was woken up.
pub fn park(state: usize, future_dropped: bool) -> (next: Option<usize>)
    ensures
        word_of(next) == park_next(word(state), future_dropped),
{
    proof {
        lemma_constants();
        lemma_clear(state, RUNNING);
        lemma_clear(state & !RUNNING, SCHEDULED);
    }
    if state & CLOSED != 0 {
        if future_dropped {
            Some(state & !RUNNING & !SCHEDULED)
        } else {
            None
        }
    } else {
        Some(state & !RUNNING)
    }
}

/// A task that was closed meanwhile is not scheduled again, even if it was woken up.
pub open spec fn park_outcome(w: Word) -> Parked {
    if w.closed {
        Parked::Closed
    } else if w.scheduled {
        Parked::Woken
    } else {
        Parked::Idle
    }
}

/// Decides what the run needs next that replaced `state` as it left the future pending.
pub fn after_park(state: usize) -> (parked: Parked)
    ensures
        parked == park_outcome(word(state)),
{
    if state & CLOSED != 0 {
        Parked::Closed
    } else if state & SCHEDULED != 0 {
        Parked::Woken
    } else {
        Parked::Idle
    }
}

/// The word of a task whose future has panicked: at rest and closed, unless it is closed already.
pub open spec fn unwind_next(w: Word) -> Option<Word> {
    if w.closed {
        None
    } else {
        Some(Word { scheduled: false, running: false, closed: true, ..w })
    }
}

/// Ends a run whose future panicked: marks the task as not running, not scheduled, and closed,
/// unless it has already been closed.
pub fn unwind(state: usize) -> (next: Option<usize>)
    ensures
        word_of(next) == unwind_next(word(state)),
{
    let settled: usize = state & !RUNNING & !SCHEDULED;
    proof {
        lemma_constants();
        lemma_clear(state, RUNNING);
        lemma_clear(state & !RUNNING, SCHEDULED);
        lemma_set(settled, CLOSED);
    }
    if state & CLOSED != 0 {
        None
    } else {
        Some(settled | CLOSED)
    }
}

/// The word of a canceled task: closed, unless it is finished.
pub open spec fn cancel_next(w: Word) -> Option<Word> {
    if w.finished() {
        None
    } else {
        Some(Word { closed: true, ..w })
    }
}

/// Cancels a task: marks it as closed, unless it has already been completed or closed.
pub fn cancel(state: usize) -> (next: Option<usize>)
    ensures
        word_of(next) == cancel_next(word(state)),
{
    proof {
        lemma_any_of_two(state, COMPLETED, CLOSED);
        lemma_constants();
        lemma_set(state, CLOSED);
    }
    if state & (COMPLETED | CLOSED) != 0 {
        None
    } else {
        Some(state | CLOSED)
    }
}

/// Decides whether an awaiter was registered in `state`.
pub fn has_awaiter(state: usize) -> (registered: bool)
    ensures
        registered == word(state).awaiter,
{
    state & AWAITER != 0
}

/// Decides whether the awaiter slot was held by another party in `state`.
pub fn slot_locked(state: usize) -> (locked: bool)
    ensures
        locked == word(state).slot_locked(),
{
    proof {
        lemma_any_of_two(state, NOTIFYING, REGISTERING);
    }
    state & (NOTIFYING | REGISTERING) != 0
}

/// Decides whether a notification was under way in `state`.
pub fn is_notifying(state: usize) -> (notifying: bool)
    ensures
        notifying == word(state).notifying,
{
    state & NOTIFYING != 0
}

/// The word during a registration, unless a notification is under way.
pub open spec fn register_next(w: Word) -> Option<Word> {
    if w.notifying {
        None
    } else {
        Some(Word { registering: true, ..w })
    }
}

/// Begins a registration: lets other threads know that an awaiter is being registered, unless a
/// notification is under way.
pub fn register(state: usize) -> (next: Option<usize>)
    ensures
        word_of(next) == register_next(word(state)),
{
    proof {
        lemma_constants();
        lemma_set(state, REGISTERING);
    }
    if state & NOTIFYING != 0 {
        None
    } else {
        Some(state | REGISTERING)
    }
}

/// The word after a registration, unless a notification has come in.
pub open spec fn registered_next(w: Word) -> Option<Word> {
    if w.notifying {
        None
    } else {
        Some(Word { registering: false, awaiter: true, ..w })
    }
}

/// Ends a registration: the awaiter is in its slot, unless a notification has come in meanwhile.
pub fn registered(state: usize) -> (next: Option<usize>)
    ensures
        word_of(next) == registered_next(word(state)),
{
    proof {
        lemma_constants();
        lemma_clear(state, REGISTERING);
        lemma_set(state & !REGISTERING, AWAITER);
    }
    if state & NOTIFYING != 0 {
        None
    } else {
        Some((state & !REGISTERING) | AWAITER)
    }
}

/// The word after a registration and the notification that came in during it.
pub open spec fn interrupted_next(w: Word, taken: bool) -> Option<Word> {
    Some(Word { notifying: false, registering: false, awaiter: !taken, ..w })
}

/// Ends a registration during which a notification has come in.
///
/// The new state is not being notified nor registered, and there is no awaiter any more if it has
/// been taken out of its slot again.
pub fn interrupted(state: usize, taken: bool) -> (next: Option<usize>)
    ensures
        word_of(next) == interrupted_next(word(state), taken),
{
    let released: usize = state & !NOTIFYING & !REGISTERING;
    proof {
        lemma_constants();
        lemma_clear(state, NOTIFYING);
        lemma_clear(state & !NOTIFYING, REGISTERING);
        lemma_set(released, AWAITER);
        lemma_clear(released, AWAITER);
    }
    if taken {
        Some(released & !AWAITER)
    } else {
        Some(released | AWAITER)
    }
}

/// Reads the flags and the reference count of a task from its state word.
pub fn snapshot(state: usize) -> (snapshot: Snapshot)
    ensures
        snapshot.scheduled == word(state).scheduled,
        snapshot.running == word(state).running,
        snapshot.completed == word(state).completed,
        snapshot.closed == word(state).closed,
        snapshot.awaiter == word(state).awaiter,
        snapshot.task == word(state).task,
        snapshot.ref_count == word(state).refs,
{
    Snapshot {
        scheduled: state & SCHEDULED != 0,
        running: state & RUNNING != 0,
        completed: state & COMPLETED != 0,
        closed: state & CLOSED != 0,
        awaiter: state & AWAITER != 0,
        task: state & TASK != 0,
        ref_count: state / REFERENCE,
    }
}

} // verus!
