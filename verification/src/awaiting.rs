//! What becomes of the awaiter of a task.
//!
//! The laws here are about callers whom nobody disturbs at the awaiter slot: each of their
//! operations finds the slot, and the flags that belong to it, as the operation before left them.
//! Then the waker that was registered last is the one that is woken, and it is woken once.
use core::task::Waker;

use vstd::prelude::*;

use crate::header::{Registered, Taken};
use crate::journal::Event;
use crate::run::{Ending, Polled, Run, Running};
use crate::state::Word;
use crate::state::{RUNNING, SCHEDULED};
use crate::transition::RefDrop;

verus! {

use crate::header::{began_registering, ended_registering, lemma_took, took};
use crate::raw::dropped_ref;
use crate::run::{destroyed_as, parked, polled_on, released, started, taken_as, went_on};
use crate::runnable::{canceled, canceled_awaiter};
use crate::state::{lemma_clear, lemma_constants, lemma_count, lemma_two_masks, word};

/// The state word and the contents of the awaiter slot at one moment.
pub struct Memory {
    pub word: Word,
    pub held: Option<Waker>,
}

impl Memory {
    /// What the operation makes of the memory.
    pub open spec fn turned(self, event: Event) -> Memory {
        Memory {
            word: match event.left() {
                Some(s) => word(s),
                None => self.word,
            },
            held: match event {
                Event::SlotMade { held, .. } => held,
                Event::SlotEmptied { .. } => None,
                Event::SlotFilled { waker, .. } => Some(waker),
                _ => self.held,
            },
        }
    }

    /// What the operations make of the memory, one after the other.
    pub open spec fn after(self, run: Seq<Event>) -> Memory
        decreases run.len(),
    {
        if run.len() == 0 {
            self
        } else {
            self.turned(run[0]).after(run.skip(1))
        }
    }

    /// An operation on the awaiter slot finds in it what this memory holds.
    pub open spec fn shows_slot(self, event: Event) -> bool {
        match event {
            Event::SlotEmptied { found, .. } => found == self.held,
            Event::SlotFilled { found, .. } => found == self.held,
            _ => true,
        }
    }

    /// The flags that belong to the awaiter slot are those of this word.
    pub open spec fn slot_flags(self, w: Word) -> bool {
        &&& w.awaiter == self.word.awaiter
        &&& w.registering == self.word.registering
        &&& w.notifying == self.word.notifying
    }

    /// Each operation on the awaiter slot finds in it what the one before left there.
    pub open spec fn keeps_slot(self, run: Seq<Event>) -> bool
        decreases run.len(),
    {
        run.len() == 0 || self.shows_slot(run[0]) && self.turned(run[0]).keeps_slot(run.skip(1))
    }

    /// Nobody else registers, takes or notifies an awaiter meanwhile: each operation finds the slot
    /// and its flags as the one before left them.
    pub open spec fn undisturbed(self, run: Seq<Event>) -> bool
        decreases run.len(),
    {
        run.len() == 0 || {
            &&& self.shows_slot(run[0])
            &&& run[0].found() matches Some(s) ==> self.slot_flags(word(s))
            &&& self.turned(run[0]).undisturbed(run.skip(1))
        }
    }

    /// Nobody else touches the task meanwhile: each operation finds it as the one before left it.
    pub open spec fn alone(self, run: Seq<Event>) -> bool
        decreases run.len(),
    {
        run.len() == 0 || {
            &&& self.shows_slot(run[0])
            &&& run[0].found() matches Some(s) ==> word(s) == self.word
            &&& self.turned(run[0]).alone(run.skip(1))
        }
    }

    /// This awaiter is registered, and nobody works on the slot.
    pub open spec fn registered(self, awaiter: Waker) -> bool {
        self.held == Some(awaiter) && self.word.awaiter && !self.word.slot_locked()
    }

    /// Nobody is registered, and nobody works on the slot.
    pub open spec fn vacant(self) -> bool {
        self.held is None && !self.word.awaiter && !self.word.slot_locked()
    }

    /// The slot and its flags are the same in both.
    pub open spec fn same_slot(self, other: Memory) -> bool {
        self.held == other.held && self.slot_flags(other.word)
    }
}

/// Who is alone is not disturbed.
pub proof fn law_alone_is_undisturbed(m: Memory, run: Seq<Event>)
    requires
        m.alone(run),
    ensures
        m.undisturbed(run),
        m.keeps_slot(run),
    decreases run.len(),
{
    if run.len() > 0 {
        law_alone_is_undisturbed(m.turned(run[0]), run.skip(1));
    }
}

/// Two stretches of operations are one.
pub(crate) proof fn lemma_concat(m: Memory, a: Seq<Event>, b: Seq<Event>)
    ensures
        m.after(a + b) == m.after(a).after(b),
        m.undisturbed(a + b) == (m.undisturbed(a) && m.after(a).undisturbed(b)),
        m.alone(a + b) == (m.alone(a) && m.after(a).alone(b)),
    decreases a.len(),
{
    if a.len() == 0 {
        assert(a + b =~= b);
    } else {
        assert((a + b).skip(1) =~= a.skip(1) + b);
        lemma_concat(m.turned(a[0]), a.skip(1), b);
    }
}

/// One operation, and then the rest.
proof fn lemma_first(m: Memory, run: Seq<Event>)
    requires
        run.len() >= 1,
        m.undisturbed(run),
    ensures
        m.turned(run[0]).undisturbed(run.skip(1)),
        m.after(run) == m.turned(run[0]).after(run.skip(1)),
{
}

/// Taking the awaiter undisturbed hands out what the slot holds, and leaves it empty: to be woken,
/// or to be dropped if it is the same as the current waker. Without an awaiter in the slot, nobody
/// is handed out. While another party works on the slot, it only leaves a notification.
pub proof fn law_take_hands_out_awaiter(
    m: Memory,
    run: Seq<Event>,
    current: Option<Waker>,
    taken: Taken,
)
    requires
        took(run, current, taken),
        m.undisturbed(run),
    ensures
        if m.word.slot_locked() {
            &&& taken is Nobody
            &&& m.after(run).held == m.held
        } else {
            &&& m.after(run).vacant()
            &&& match (m.held, current) {
                (None, _) => taken is Nobody,
                (Some(waker), None) => taken == Taken::Wake(waker),
                (Some(waker), Some(other)) => {
                    &&& run.last() matches Event::Compared { waker: a, other: b, same }
                    &&& a == waker && b == other
                    &&& taken == if same {
                        Taken::Discard(waker)
                    } else {
                        Taken::Wake(waker)
                    }
                },
            }
            &&& m.alone(run) ==> m.after(run).word == (Word { awaiter: false, ..m.word })
        },
{
    reveal_with_fuel(Memory::after, 5);
    reveal_with_fuel(Memory::undisturbed, 5);
    reveal_with_fuel(Memory::alone, 5);
    lemma_took(run, current, taken);
}

/// A registration begins unless a notification is under way, and changes nothing about the slot
/// but that it is locked.
pub proof fn law_register_locks_slot(m: Memory, run: Seq<Event>, locked: bool)
    requires
        began_registering(run, locked),
        m.undisturbed(run),
    ensures
        locked <==> !m.word.notifying,
        m.after(run).held == m.held,
        m.after(run).word.awaiter == m.word.awaiter,
        m.after(run).word.notifying == m.word.notifying,
        locked ==> m.after(run).word.registering,
        m.alone(run) ==> m.after(run).word == if locked {
            Word { registering: true, ..m.word }
        } else {
            m.word
        },
{
    reveal_with_fuel(Memory::after, 3);
    reveal_with_fuel(Memory::undisturbed, 3);
    reveal_with_fuel(Memory::alone, 3);
    let s = run[0].found()->0;
    assert(s | 0 == s) by (bit_vector);
}

/// A registration that ends undisturbed leaves its waker in the slot, which displaces an earlier
/// one. Nobody is woken.
pub proof fn law_registration_leaves_awaiter(
    m: Memory,
    run: Seq<Event>,
    waker: Waker,
    result: Registered,
)
    requires
        ended_registering(run, waker, result),
        m.undisturbed(run),
        !m.word.notifying,
    ensures
        m.after(run).registered(waker),
        result.displaced == m.held,
        result.notified is None,
        m.alone(run) ==> m.after(run).word == (Word {
            registering: false,
            awaiter: true,
            ..m.word
        }),
{
    reveal_with_fuel(Memory::after, 3);
    reveal_with_fuel(Memory::undisturbed, 3);
    reveal_with_fuel(Memory::alone, 3);
}

/// A registration during which a notification comes in, before it or while it ends, hands out its
/// own waker to be woken, and leaves the slot empty and the flags clear.
pub proof fn law_registration_meets_notification(
    m: Memory,
    run: Seq<Event>,
    waker: Waker,
    result: Registered,
)
    requires
        ended_registering(run, waker, result),
        m.keeps_slot(run),
    ensures
        result.displaced == m.held,
        if run[1] is LeftAlone {
            &&& result.notified == Some(waker)
            &&& m.after(run).vacant()
        } else {
            &&& result.notified is None
            &&& m.after(run).registered(waker)
        },
        m.undisturbed(run) && m.word.notifying ==> run[1] is LeftAlone,
{
    reveal_with_fuel(Memory::after, 5);
    reveal_with_fuel(Memory::keeps_slot, 5);
    reveal_with_fuel(Memory::undisturbed, 3);
}

/// What is taken is what was registered last: of two wakers that are registered one after the
/// other, the second displaces the first, and the second is handed out to be woken. The state word
/// is back to what it was, but without an awaiter, and a second attempt finds nobody.
pub proof fn law_last_registration_wins(
    m: Memory,
    begins: (Seq<Event>, Seq<Event>),
    ends: (Seq<Event>, Seq<Event>),
    takes: (Seq<Event>, Seq<Event>),
    wakers: (Waker, Waker),
    registered: (Registered, Registered),
    taken: (Taken, Taken),
)
    requires
        began_registering(begins.0, true),
        ended_registering(ends.0, wakers.0, registered.0),
        began_registering(begins.1, true),
        ended_registering(ends.1, wakers.1, registered.1),
        took(takes.0, None, taken.0),
        took(takes.1, None, taken.1),
        m.alone(begins.0 + ends.0 + begins.1 + ends.1 + takes.0 + takes.1),
        !m.word.slot_locked(),
    ensures
        registered.0.displaced == m.held && registered.0.notified is None,
        registered.1.displaced == Some(wakers.0) && registered.1.notified is None,
        taken.0 == Taken::Wake(wakers.1),
        taken.1 is Nobody,
        m.after(begins.0 + ends.0 + begins.1 + ends.1 + takes.0) == (Memory {
            word: Word { awaiter: false, ..m.word },
            held: None,
        }),
{
    let r1 = begins.0;
    let r2 = r1 + ends.0;
    let r3 = r2 + begins.1;
    let r4 = r3 + ends.1;
    let r5 = r4 + takes.0;
    lemma_concat(m, r5, takes.1);
    lemma_concat(m, r4, takes.0);
    lemma_concat(m, r3, ends.1);
    lemma_concat(m, r2, begins.1);
    lemma_concat(m, r1, ends.0);
    law_alone_is_undisturbed(m, r1);
    law_register_locks_slot(m, r1, true);
    law_alone_is_undisturbed(m.after(r1), ends.0);
    law_registration_leaves_awaiter(m.after(r1), ends.0, wakers.0, registered.0);
    law_alone_is_undisturbed(m.after(r2), begins.1);
    law_register_locks_slot(m.after(r2), begins.1, true);
    law_alone_is_undisturbed(m.after(r3), ends.1);
    law_registration_leaves_awaiter(m.after(r3), ends.1, wakers.1, registered.1);
    law_alone_is_undisturbed(m.after(r4), takes.0);
    law_take_hands_out_awaiter(m.after(r4), takes.0, None, taken.0);
    law_alone_is_undisturbed(m.after(r5), takes.1);
    law_take_hands_out_awaiter(m.after(r5), takes.1, None, taken.1);
}

/// Giving up a reference touches neither the slot nor its flags.
pub proof fn law_drop_ref_keeps_slot(
    m: Memory,
    run: Seq<Event>,
    future_dropped: bool,
    left: RefDrop,
)
    requires
        dropped_ref(run, future_dropped, left),
        m.undisturbed(run),
    ensures
        m.same_slot(m.after(run)),
{
    reveal_with_fuel(Memory::after, 3);
    reveal_with_fuel(Memory::undisturbed, 3);
    lemma_count(run[0].found()->0);
}

/// A run that ends undisturbed hands out the awaiter that is registered, if it is to notify one.
proof fn lemma_released(m: Memory, run: Seq<Event>, notify: bool, ending: Ending)
    requires
        released(run, notify, ending),
        m.undisturbed(run),
        !m.word.slot_locked(),
    ensures
        if notify {
            m.after(run).vacant() && ending.awaiter == m.held
        } else {
            m.same_slot(m.after(run)) && ending.awaiter is None
        },
{
    let front = run.drop_last();
    let back = seq![run.last()];
    assert(run =~= front + back);
    lemma_concat(m, front, back);
    law_drop_ref_keeps_slot(m.after(front), back, true, destroyed_as(ending.destroy));
    if notify {
        law_take_hands_out_awaiter(m, front, None, taken_as(ending.awaiter));
    } else {
        assert(front =~= Seq::<Event>::empty());
    }
}

/// What the run still owes to the awaiter that is registered: where it has looked for one already,
/// it has seen that there is one.
pub open spec fn owes_wakeup<M>(run: Run<'_, M>) -> bool {
    match run {
        Run::DropOutput(finishing) => finishing.notify(),
        Run::DropPanicked(unwinding) => unwinding.notify(),
        Run::Over(_) => false,
        _ => true,
    }
}

/// The awaiter that was registered has been handed out to be woken, and is registered no more; or
/// else it stays registered, and nobody is handed out.
pub open spec fn awaiter_settled<M>(
    next: Run<'_, M>,
    m: Memory,
    awaiter: Waker,
    woken: bool,
) -> bool {
    match next {
        Run::Over(ending) => if woken {
            ending.awaiter == Some(awaiter) && m.vacant()
        } else {
            ending.awaiter is None && m.registered(awaiter)
        },
        _ => owes_wakeup(next) && m.registered(awaiter),
    }
}

/// A run that goes on undisturbed keeps the registered awaiter until it is over. Then it hands out
/// that awaiter to be woken, exactly once, if it leaves the task completed or closed, and the flag
/// is clear. Otherwise nobody is handed out, and the awaiter stays registered.
pub proof fn law_run_wakes_registered_awaiter<M>(
    m: Memory,
    from: Run<'_, M>,
    run: Seq<Event>,
    next: Run<'_, M>,
    awaiter: Waker,
)
    requires
        went_on(from, run, next),
        m.undisturbed(run),
        m.registered(awaiter),
        owes_wakeup(from),
    ensures
        awaiter_settled(
            next,
            m.after(run),
            awaiter,
            from is DropPending ==> (run[0].left() matches Some(s) && word(s).closed),
        ),
{
    match from {
        Run::DropClosed(_) => {
            let ending = next->Over_0;
            lemma_first(m, run);
            lemma_constants();
            lemma_clear(run[0].found()->0, SCHEDULED);
            lemma_released(m.turned(run[0]), run.skip(1), word(run[0].found()->0).awaiter, ending);
        },
        Run::StoreOutput(_) => {
            lemma_first(m, run);
            if next is Over {
                lemma_released(m.turned(run[0]), run.skip(1), true, next->Over_0);
            } else {
                assert(run.skip(1).len() == 0);
            }
        },
        Run::DropOutput(_) => {
            lemma_released(m, run, true, next->Over_0);
        },
        Run::DropPending(_) => {
            lemma_parked(m, run, true, next, awaiter);
        },
        Run::DropPanicked(unwinding) => {
            let ending = next->Over_0;
            if unwinding.already_closed() {
                let s = run[0].found()->0;
                lemma_first(m, run);
                lemma_constants();
                lemma_two_masks(s, RUNNING, SCHEDULED);
                lemma_clear(s, RUNNING);
                lemma_clear(s & !RUNNING, SCHEDULED);
                lemma_released(m.turned(run[0]), run.skip(1), true, ending);
            } else {
                lemma_released(m, run, true, ending);
            }
        },
        _ => {},
    }
}

/// The end of a run that left the future pending.
proof fn lemma_parked<M>(
    m: Memory,
    run: Seq<Event>,
    future_dropped: bool,
    next: Run<'_, M>,
    awaiter: Waker,
)
    requires
        parked(run, future_dropped, next),
        m.undisturbed(run),
        m.registered(awaiter),
    ensures
        awaiter_settled(
            next,
            m.after(run),
            awaiter,
            run[0].left() matches Some(s) && word(s).closed,
        ),
{
    lemma_first(m, run);
    let prev = word(run[0].found()->0);
    if run[0] is Replaced {
        if prev.closed {
            lemma_released(m.turned(run[0]), run.skip(1), true, next->Over_0);
        } else if prev.scheduled {
            assert(run.skip(1).len() == 0);
        } else {
            let left = match next {
                Run::Over(ending) => destroyed_as(ending.destroy),
                _ => RefDrop::Close,
            };
            law_drop_ref_keeps_slot(m.turned(run[0]), run.skip(1), future_dropped, left);
        }
    } else {
        assert(run.skip(1).len() == 0);
    }
}

/// A run keeps the registered awaiter while polling. If the run is over right after polling, the
/// task is neither completed nor closed by it: nobody is handed out, and the awaiter stays
/// registered.
pub proof fn law_polling_keeps_awaiter<M>(
    m: Memory,
    from: Running<'_, M>,
    polled: Polled,
    run: Seq<Event>,
    next: Run<'_, M>,
    awaiter: Waker,
)
    requires
        polled_on(from, polled, run, next),
        m.undisturbed(run),
        m.registered(awaiter),
    ensures
        awaiter_settled(next, m.after(run), awaiter, false),
{
    if polled is Pending {
        lemma_parked(m, run, false, next, awaiter);
    } else if next is DropPanicked {
        lemma_first(m, run);
        assert(run.skip(1).len() == 0);
    }
}

/// All entries of a course of stretches, one after the other.
pub open spec fn entries(stretches: Seq<Seq<Event>>) -> Seq<Event>
    decreases stretches.len(),
{
    if stretches.len() == 0 {
        Seq::empty()
    } else {
        entries(stretches.drop_last()) + stretches.last()
    }
}

/// The run goes from stage to stage, and nothing else is done between two stages.
pub open spec fn goes_through<M>(stages: Seq<Run<'_, M>>, stretches: Seq<Seq<Event>>) -> bool {
    &&& stages.len() == stretches.len() + 1
    &&& forall|i: int|
        0 <= i < stretches.len() ==> went_on(stages[i], #[trigger] stretches[i], stages[i + 1])
    &&& forall|i: int| 0 <= i < stretches.len() ==> !(#[trigger] stages[i] is Over)
}

/// The last stretch of a run that ends with its future pending leaves the task open, since it was
/// not closed after all.
pub open spec fn leaves_open<M>(stages: Seq<Run<'_, M>>, stretches: Seq<Seq<Event>>) -> bool {
    &&& stages[stretches.len() - 1] is DropPending
    &&& !(stretches.last()[0].left() matches Some(s) && word(s).closed)
}

/// A whole run, from the moment when the future has been polled or the task was found closed, hands
/// out the awaiter that is registered then exactly once if it leaves the task completed or closed:
/// at its end, with nobody registered any more. Until its end it hands out nobody.
pub proof fn law_whole_run_wakes_awaiter_once<M>(
    m: Memory,
    stages: Seq<Run<'_, M>>,
    stretches: Seq<Seq<Event>>,
    awaiter: Waker,
)
    requires
        goes_through(stages, stretches),
        stretches.len() > 0,
        m.undisturbed(entries(stretches)),
        m.registered(awaiter),
        owes_wakeup(stages[0]),
    ensures
        awaiter_settled(
            stages.last(),
            m.after(entries(stretches)),
            awaiter,
            !leaves_open(stages, stretches),
        ),
    decreases stretches.len(),
{
    let n = stretches.len() as int;
    let before = stretches.drop_last();
    let last = stretches.last();
    assert(went_on(stages[n - 1], stretches[n - 1], stages[n]));
    lemma_concat(m, entries(before), last);
    if n > 1 {
        assert(stages.drop_last().last() == stages[n - 1]);
        assert forall|i: int| 0 <= i < before.len() implies went_on(
            stages.drop_last()[i],
            #[trigger] before[i],
            stages.drop_last()[i + 1],
        ) by {
            assert(went_on(stages[i], stretches[i], stages[i + 1]));
        }
        assert forall|i: int| 0 <= i < before.len() implies !(#[trigger] stages.drop_last()[i]
            is Over) by {
            assert(!(stages[i] is Over));
        }
        law_whole_run_wakes_awaiter_once(m, stages.drop_last(), before, awaiter);
        assert(!(stages[n - 1] is Over));
    }
    let then = m.after(entries(before));
    law_run_wakes_registered_awaiter(then, stages[n - 1], last, stages[n], awaiter);
}

/// The start of a run keeps the registered awaiter.
pub proof fn law_start_keeps_awaiter(m: Memory, run: Seq<Event>, closed: bool, awaiter: Waker)
    requires
        started(run, closed),
        m.undisturbed(run),
        m.registered(awaiter),
    ensures
        m.after(run).registered(awaiter),
{
    lemma_first(m, run);
    assert(run.skip(1).len() == 0);
}

/// A `Runnable` that is dropped undisturbed hands out the registered awaiter to be woken, exactly
/// once, after the task has been unscheduled, and the flag is clear. Without one, nobody is handed
/// out.
pub proof fn law_canceled_task_wakes_awaiter(
    m: Memory,
    cancel: Seq<Event>,
    run: Seq<Event>,
    awaiter: Option<Waker>,
)
    requires
        canceled(cancel),
        canceled_awaiter(run, awaiter),
        m.undisturbed(cancel + run),
        !m.word.slot_locked(),
    ensures
        if m.word.awaiter {
            m.after(cancel + run).vacant() && awaiter == m.held
        } else {
            m.same_slot(m.after(cancel + run)) && awaiter is None
        },
{
    lemma_concat(m, cancel, run);
    lemma_first(m, cancel);
    assert(cancel.skip(1).len() == 0);
    let middle = m.after(cancel);
    lemma_first(middle, run);
    lemma_constants();
    lemma_clear(run[0].found()->0, SCHEDULED);
    if m.word.awaiter {
        law_take_hands_out_awaiter(
            middle.turned(run[0]),
            run.skip(1),
            None,
            taken_as(awaiter),
        );
    } else {
        assert(run.skip(1).len() == 0);
    }
}

} // verus!
