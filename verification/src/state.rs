//! The state word of a task: one machine word that holds eight flags and a reference count.
use vstd::prelude::*;

verus! {

/// Set if the task is scheduled for running.
///
/// A task is considered to be scheduled whenever its `Runnable` exists.
///
/// This flag can't be set when the task is completed. However, it can be set while the task is
/// running, in which case it will be rescheduled as soon as polling finishes.
pub const SCHEDULED: usize = 0x01;

/// Set if the task is running.
///
/// A task is in running state while its future is being polled.
///
/// This flag can't be set when the task is completed. However, it can be in scheduled state while
/// it is running, in which case it will be rescheduled as soon as polling finishes.
pub const RUNNING: usize = 0x02;

/// Set if the task has been completed.
///
/// This flag is set when polling returns a ready value. The output of the future is then stored
/// inside the task until it becomes closed. In fact, the await handle picks up the output by
/// marking the task as closed.
///
/// This flag can't be set when the task is scheduled or running.
pub const COMPLETED: usize = 0x04;

/// Set if the task is closed.
///
/// If a task is closed, that means it's either canceled or its output has been consumed by the
/// await handle. A task becomes closed in the following cases:
///
/// 1. It gets canceled, by dropping its `Runnable` or through the await handle.
/// 2. Its output gets awaited.
/// 3. It panics while polling the future.
/// 4. It is completed and the await handle gets dropped.
pub const CLOSED: usize = 0x08;

/// Set if the await handle still exists.
///
/// The await handle is a special case in that it is only tracked by this flag, while all other
/// task references (`Runnable` and wakers) are tracked by the reference count.
pub const TASK: usize = 0x10;

/// Set if the await handle is awaiting the output.
///
/// This flag is set while there is a registered awaiter inside the task. When the task gets
/// closed or completed, we need to wake the awaiter. This flag can be used as a fast check that
/// tells us if we need to wake anyone.
pub const AWAITER: usize = 0x20;

/// Set if an awaiter is being registered.
///
/// This flag is set when the await handle is polled and we are registering a new awaiter.
pub const REGISTERING: usize = 0x40;

/// Set if the awaiter is being notified.
///
/// This flag is set when notifying the awaiter. If an awaiter is concurrently registered and
/// notified, whichever side came first will take over the responsibility of resolving the race.
pub const NOTIFYING: usize = 0x80;

/// A single reference.
///
/// The lower bits in the state contain various flags representing the task state, while the upper
/// bits contain the reference count. The value of `REFERENCE` represents a single reference in
/// the total reference count.
///
/// Note that the reference counter only tracks the `Runnable` and wakers. The await handle is
/// tracked separately by the `TASK` flag.
pub const REFERENCE: usize = 0x100;

/// What a state word says: its eight flags and its reference count.
pub struct Word {
    pub scheduled: bool,
    pub running: bool,
    pub completed: bool,
    pub closed: bool,
    pub task: bool,
    pub awaiter: bool,
    pub registering: bool,
    pub notifying: bool,
    pub refs: nat,
}

/// Reads a state word.
pub open spec fn word(s: usize) -> Word {
    Word {
        scheduled: s & SCHEDULED != 0,
        running: s & RUNNING != 0,
        completed: s & COMPLETED != 0,
        closed: s & CLOSED != 0,
        task: s & TASK != 0,
        awaiter: s & AWAITER != 0,
        registering: s & REGISTERING != 0,
        notifying: s & NOTIFYING != 0,
        refs: (s / REFERENCE) as nat,
    }
}

/// The largest reference count that a state word can hold.
pub open spec fn max_refs() -> nat {
    (usize::MAX / REFERENCE) as nat
}

impl Word {
    /// The task has run to its end or has been canceled: it can't be woken any more.
    pub open spec fn finished(self) -> bool {
        self.completed || self.closed
    }

    /// Another party holds the awaiter slot.
    pub open spec fn slot_locked(self) -> bool {
        self.notifying || self.registering
    }

    /// Neither a counted reference nor the await handle is left.
    pub open spec fn unreferenced(self) -> bool {
        self.refs == 0 && !self.task
    }

    /// The reference count has grown into the upper half of its range.
    pub open spec fn overflowing(self) -> bool {
        self.refs > (isize::MAX as nat) / (REFERENCE as nat)
    }

    /// The same flags with one more reference; the count wraps around past its largest value.
    pub open spec fn add_ref(self) -> Word {
        Word { refs: if self.refs == max_refs() { 0 } else { self.refs + 1 }, ..self }
    }

    /// The same flags with one reference less; the count wraps around below zero.
    pub open spec fn sub_ref(self) -> Word {
        Word { refs: if self.refs == 0 { max_refs() } else { (self.refs - 1) as nat }, ..self }
    }
}

/// Two state words that say the same are the same word.
pub proof fn law_word_is_injective(a: usize, b: usize)
    requires
        word(a) == word(b),
    ensures
        a == b,
{
    assert(a / REFERENCE == b / REFERENCE);
    assert(a == b) by (bit_vector)
        requires
            (a & SCHEDULED != 0) == (b & SCHEDULED != 0),
            (a & RUNNING != 0) == (b & RUNNING != 0),
            (a & COMPLETED != 0) == (b & COMPLETED != 0),
            (a & CLOSED != 0) == (b & CLOSED != 0),
            (a & TASK != 0) == (b & TASK != 0),
            (a & AWAITER != 0) == (b & AWAITER != 0),
            (a & REGISTERING != 0) == (b & REGISTERING != 0),
            (a & NOTIFYING != 0) == (b & NOTIFYING != 0),
            a / REFERENCE == b / REFERENCE,
    ;
}

/// The word that says nothing: no flag is set and nobody holds a reference.
pub open spec fn blank() -> Word {
    Word {
        scheduled: false,
        running: false,
        completed: false,
        closed: false,
        task: false,
        awaiter: false,
        registering: false,
        notifying: false,
        refs: 0,
    }
}

/// Each constant is the word with that one flag, or with that one reference.
pub proof fn lemma_constants()
    ensures
        word(0) == blank(),
        word(SCHEDULED) == (Word { scheduled: true, ..blank() }),
        word(RUNNING) == (Word { running: true, ..blank() }),
        word(COMPLETED) == (Word { completed: true, ..blank() }),
        word(CLOSED) == (Word { closed: true, ..blank() }),
        word(TASK) == (Word { task: true, ..blank() }),
        word(AWAITER) == (Word { awaiter: true, ..blank() }),
        word(REGISTERING) == (Word { registering: true, ..blank() }),
        word(NOTIFYING) == (Word { notifying: true, ..blank() }),
        word(REFERENCE) == (Word { refs: 1, ..blank() }),
{
    // Distinct single bits have nothing in common.
    assert(SCHEDULED & RUNNING == 0 && SCHEDULED & COMPLETED == 0 && SCHEDULED & CLOSED == 0
        && SCHEDULED & TASK == 0 && SCHEDULED & AWAITER == 0 && SCHEDULED & REGISTERING == 0
        && SCHEDULED & NOTIFYING == 0 && RUNNING & COMPLETED == 0 && RUNNING & CLOSED == 0
        && RUNNING & TASK == 0 && RUNNING & AWAITER == 0 && RUNNING & REGISTERING == 0 && RUNNING
        & NOTIFYING == 0 && COMPLETED & CLOSED == 0 && COMPLETED & TASK == 0 && COMPLETED & AWAITER
        == 0 && COMPLETED & REGISTERING == 0 && COMPLETED & NOTIFYING == 0 && CLOSED & TASK == 0
        && CLOSED & AWAITER == 0 && CLOSED & REGISTERING == 0 && CLOSED & NOTIFYING == 0 && TASK
        & AWAITER == 0 && TASK & REGISTERING == 0 && TASK & NOTIFYING == 0 && AWAITER & REGISTERING
        == 0 && AWAITER & NOTIFYING == 0 && REGISTERING & NOTIFYING == 0) by (bit_vector);
    assert(forall|a: usize, b: usize| #[trigger] (a & b) == b & a) by (bit_vector);
    assert(forall|a: usize| #[trigger] (a & a) == a) by (bit_vector);
    assert(forall|a: usize| #[trigger] (0 & a) == 0) by (bit_vector);
    assert(REFERENCE & SCHEDULED == 0 && REFERENCE & RUNNING == 0 && REFERENCE & COMPLETED == 0
        && REFERENCE & CLOSED == 0 && REFERENCE & TASK == 0 && REFERENCE & AWAITER == 0
        && REFERENCE & REGISTERING == 0 && REFERENCE & NOTIFYING == 0) by (bit_vector);
}

/// Setting flags: the result has the flags of both words.
pub proof fn lemma_set(s: usize, flags: usize)
    requires
        flags < REFERENCE,
    ensures
        word(s | flags) == (Word {
            scheduled: word(s).scheduled || word(flags).scheduled,
            running: word(s).running || word(flags).running,
            completed: word(s).completed || word(flags).completed,
            closed: word(s).closed || word(flags).closed,
            task: word(s).task || word(flags).task,
            awaiter: word(s).awaiter || word(flags).awaiter,
            registering: word(s).registering || word(flags).registering,
            notifying: word(s).notifying || word(flags).notifying,
            refs: word(s).refs,
        }),
{
    assert(forall|b: usize|
        ((s | flags) & b != 0) == (#[trigger] (s & b) != 0 || #[trigger] (flags & b) != 0))
        by (bit_vector);
    assert((s | flags) / REFERENCE == s / REFERENCE) by (bit_vector)
        requires
            flags < REFERENCE,
    ;
}

/// Clearing flags: the result has the flags of the first word that the second does not have.
pub proof fn lemma_clear(s: usize, flags: usize)
    requires
        flags < REFERENCE,
    ensures
        word(s & !flags) == (Word {
            scheduled: word(s).scheduled && !word(flags).scheduled,
            running: word(s).running && !word(flags).running,
            completed: word(s).completed && !word(flags).completed,
            closed: word(s).closed && !word(flags).closed,
            task: word(s).task && !word(flags).task,
            awaiter: word(s).awaiter && !word(flags).awaiter,
            registering: word(s).registering && !word(flags).registering,
            notifying: word(s).notifying && !word(flags).notifying,
            refs: word(s).refs,
        }),
{
    let n = s & !flags;
    assert((n & SCHEDULED != 0) == (s & SCHEDULED != 0 && flags & SCHEDULED == 0)
        && (n & RUNNING != 0) == (s & RUNNING != 0 && flags & RUNNING == 0)
        && (n & COMPLETED != 0) == (s & COMPLETED != 0 && flags & COMPLETED == 0)
        && (n & CLOSED != 0) == (s & CLOSED != 0 && flags & CLOSED == 0)
        && (n & TASK != 0) == (s & TASK != 0 && flags & TASK == 0)
        && (n & AWAITER != 0) == (s & AWAITER != 0 && flags & AWAITER == 0)
        && (n & REGISTERING != 0) == (s & REGISTERING != 0 && flags & REGISTERING == 0)
        && (n & NOTIFYING != 0) == (s & NOTIFYING != 0 && flags & NOTIFYING == 0)
        && n / REFERENCE == s / REFERENCE) by (bit_vector)
        requires
            n == s & !flags,
            flags < REFERENCE,
    ;
}

/// Clearing two sets of flags at once is clearing them one after the other.
pub proof fn lemma_two_masks(s: usize, a: usize, b: usize)
    ensures
        s & (!a & !b) == s & !a & !b,
{
    assert(s & (!a & !b) == s & !a & !b) by (bit_vector);
}

/// Words with equal low bytes have equal flags.
proof fn lemma_low_byte(a: usize, b: usize)
    requires
        a % REFERENCE == b % REFERENCE,
    ensures
        word(a) == (Word { refs: word(a).refs, ..word(b) }),
{
    assert(a & SCHEDULED == b & SCHEDULED && a & RUNNING == b & RUNNING && a & COMPLETED == b
        & COMPLETED && a & CLOSED == b & CLOSED && a & TASK == b & TASK && a & AWAITER == b
        & AWAITER && a & REGISTERING == b & REGISTERING && a & NOTIFYING == b & NOTIFYING)
        by (bit_vector)
        requires
            a % REFERENCE == b % REFERENCE,
    ;
}

/// Adding and subtracting a reference touches no flag.
pub proof fn lemma_count(s: usize)
    ensures
        word(s.wrapping_add(REFERENCE)) == word(s).add_ref(),
        word(s.wrapping_sub(REFERENCE)) == word(s).sub_ref(),
        word(s).refs <= max_refs(),
        (s > isize::MAX as usize) == word(s).overflowing(),
{
    assert(usize::MAX == 0xffff_ffff || usize::MAX == 0xffff_ffff_ffff_ffff);
    let more = s.wrapping_add(REFERENCE);
    assert(more % REFERENCE == s % REFERENCE);
    lemma_low_byte(more, s);
    let less = s.wrapping_sub(REFERENCE);
    assert(less % REFERENCE == s % REFERENCE);
    lemma_low_byte(less, s);
}

} // verus!
