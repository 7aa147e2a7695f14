//! The life of a task: how the operations of all its users work together.
//!
//! A [`World`] is a task at one moment, together with everybody who holds a reference to it or
//! works on it. A [`Step`] is one change that one of them makes to the state word, or one of the
//! actions that such a change asks for. The steps of different users may follow each other in any
//! order, so what holds of every [reachable][`World::reachable`] world holds whatever the threads
//! do.
//!
//! The steps `Handle*` are those of the await handle.
use core::task::Waker;

use vstd::prelude::*;

use crate::state::Word;
use crate::transition::{Consumed, Parked, RefDrop, WakerDrop};

verus! {

use crate::transition::{
    abandoned, cancel_next, complete_next, interrupted_next, park_next, park_outcome,
    ref_drop_outcome, register_next, registered_next, revived, spawned, start_next, unwind_next,
    wake_by_ref_next, wake_by_ref_outcome, wake_next, wake_outcome, waker_drop_outcome,
};

/// Where the `Runnable` of a task is, or how far the run or the cancellation has come that it went
/// into.
pub enum Phase {
    /// There is no `Runnable`, and the task isn't running.
    Absent,
    /// The `Runnable` exists.
    Queued,
    /// The task was found closed, or was canceled, or was closed since nobody could wake it: its
    /// future is about to be dropped.
    Closing,
    /// The future of the closed task has been dropped: the task is about to be unscheduled.
    Closed,
    /// The future is being polled.
    Polling,
    /// The future has been replaced with its output: the task is about to be completed.
    Ready,
    /// The task has been completed: its output is about to be dropped.
    Discarding,
    /// The task was closed while running, and its future has been dropped: the task is about to
    /// stop running.
    Stopping,
    /// The future has panicked in a task that was closed while running: it is about to be dropped.
    Unwinding,
    /// The future that had panicked in a task that was closed while running has been dropped: the
    /// task is about to stop running.
    Unwound,
    /// The future has panicked, and its task was closed and stopped: it is about to be dropped.
    Failed,
}

/// Who works on the awaiter slot, and how far that has come.
pub enum Holder {
    Nobody,
    /// A run or a cancellation that has come to its end, and is about to empty the slot.
    Run,
    /// The run has emptied the slot, and has this awaiter in hand.
    RunTook(Option<Waker>),
    /// The await handle, which notifies an awaiter that it registered before, and is about to empty
    /// the slot.
    Handle,
    /// The await handle has emptied the slot, and has this awaiter in hand.
    HandleTook(Option<Waker>),
    /// The await handle, which registers an awaiter, and is about to fill the slot.
    Registrar,
    /// The await handle has put this awaiter into the slot.
    Filled(Waker),
    /// The await handle has put this awaiter into the slot and has found a notification: it is
    /// about to take the awaiter out again.
    Withdrawing(Waker),
    /// The await handle had put the first awaiter into the slot, has taken out the second one, and
    /// has it in hand.
    Withdrawn(Waker, Option<Waker>),
}

/// A task and its users.
pub struct World {
    /// The state word.
    pub word: Word,
    /// The `Runnable`, or the run that it went into.
    pub phase: Phase,
    /// How many wakers there are.
    pub wakers: nat,
    /// How many runs have come to their end and are about to take the awaiter.
    pub due: nat,
    /// How many runs have left the future pending and are about to drop their reference.
    pub idle: nat,
    /// How many runs have come to their end without the future and only have a reference left to
    /// drop.
    pub finishing: nat,
    /// The run that is under way has seen an awaiter that it is to take at its end.
    pub pledged: bool,
    /// The registration of the awaiter ended only after the task was finished.
    pub late: bool,
    /// Who works on the awaiter slot.
    pub holder: Holder,
    /// What is in the awaiter slot.
    pub slot: Option<Waker>,
    /// The awaiter that was put into the slot last.
    pub last: Option<Waker>,
    /// How many awaiters have been put into the slot.
    pub fills: nat,
    /// How many awaiters have been taken out of the slot and handed out to be woken.
    pub wakeups: nat,
    /// How many awaiters have been taken out of the slot and found to be the current waker.
    pub discards: nat,
    /// How many awaiters have been displaced by the next one.
    pub displaced: nat,
    /// The last waker has gone, and is about to have the future dropped.
    pub reviving: bool,
    /// The last run has gone, and is about to drop the future.
    pub abandoning: bool,
    /// The task has been woken since its run started to poll.
    pub rewoken: bool,
    /// How often the future has been dropped.
    pub future_drops: nat,
    /// How often the output has been dropped or handed out.
    pub output_drops: nat,
    /// How often the task has been destroyed.
    pub destroys: nat,
}

/// What can happen to a task.
pub enum Step {
    /// A waker wakes the task by reference.
    WakeByRef,
    /// A waker wakes the task by value. A waker that is left then goes on with `DropWaker`.
    Wake,
    /// A waker is made.
    CloneWaker,
    /// A waker gives up its reference.
    DropWaker,
    /// The last waker schedules the task to have its future dropped.
    Revive,
    /// The `Runnable` is run.
    Start,
    /// The `Runnable` is dropped.
    Cancel,
    /// The future of a closed task is dropped.
    DropClosed,
    /// The closed task is marked as unscheduled.
    Unschedule,
    /// Polling the future yields the output, which takes its place.
    StoreOutput,
    /// The task is marked as completed.
    Complete,
    /// The output is dropped.
    DropOutput,
    /// Polling leaves the future pending, and the task is marked as not running. If it has been
    /// closed, its future is dropped first.
    Park,
    /// The task without a future is marked as not running.
    Stop,
    /// Polling the future panics.
    Unwind,
    /// The future that has panicked is dropped.
    DropPanicked,
    /// A run that has come to its end attempts to take the awaiter.
    Notify,
    /// The run empties the slot.
    EmptySlot,
    /// The run has taken the awaiter, and hands it out to be woken.
    EndNotify,
    /// A run that has come to its end without the future drops its reference.
    Release,
    /// A run that has left the future pending drops its reference.
    ReleaseIdle,
    /// The last run takes its reference back to close the task.
    Abandon,
    /// The await handle cancels the task.
    HandleCancel,
    /// The await handle attempts to take the awaiter.
    HandleNotify,
    /// The await handle empties the slot.
    HandleEmptySlot,
    /// The await handle has taken the awaiter, and hands it out to be woken unless it is the same
    /// as the current waker.
    HandleEndNotify { same: bool },
    /// The await handle begins to register an awaiter.
    HandleRegister,
    /// The await handle puts the awaiter into the slot.
    HandleFill { waker: Waker },
    /// The await handle has registered the awaiter, unless a notification has come in.
    HandleEndRegister,
    /// The await handle takes the awaiter out of the slot again.
    HandleWithdraw,
    /// The await handle hands the awaiter out to be woken, and lets the slot go.
    HandleEndWithdraw,
    /// The await handle picks up the output.
    HandleCollect,
    /// The await handle goes away.
    HandleDetach,
}

/// A new task.
pub open spec fn new_task() -> World {
    World {
        word: spawned(),
        phase: Phase::Queued,
        wakers: 0,
        due: 0,
        idle: 0,
        finishing: 0,
        pledged: false,
        late: false,
        holder: Holder::Nobody,
        slot: None,
        last: None,
        fills: 0,
        wakeups: 0,
        discards: 0,
        displaced: 0,
        reviving: false,
        abandoning: false,
        rewoken: false,
        future_drops: 0,
        output_drops: 0,
        destroys: 0,
    }
}

/// Whether there is an awaiter, as a number.
pub open spec fn count(awaiter: Option<Waker>) -> nat {
    if awaiter is Some {
        1
    } else {
        0
    }
}

/// The await handle registers an awaiter.
pub open spec fn registers(holder: Holder) -> bool {
    holder is Registrar || holder is Filled || holder is Withdrawing || holder is Withdrawn
}

/// The await handle works on the awaiter slot.
pub open spec fn of_handle(holder: Holder) -> bool {
    holder is Handle || holder is HandleTook || registers(holder)
}

/// The awaiter that was taken out of the slot, and has not been handed out yet.
pub open spec fn in_hand(holder: Holder) -> Option<Waker> {
    match holder {
        Holder::RunTook(found) => found,
        Holder::HandleTook(found) => found,
        Holder::Withdrawn(_, found) => found,
        _ => None,
    }
}

impl World {
    /// The references that are held.
    pub open spec fn references(self) -> nat {
        self.wakers + self.due + self.idle + self.finishing + (if self.phase is Absent {
            0nat
        } else {
            1nat
        }) + (if self.holder is Run || self.holder is RunTook {
            1nat
        } else {
            0nat
        })
    }

    /// The await handle exists and isn't in the middle of something.
    pub open spec fn handle_free(self) -> bool {
        self.word.task && !of_handle(self.holder)
    }

    /// The world after a task has been destroyed if need be.
    pub open spec fn destroyed_if(self, destroy: bool) -> World {
        World { destroys: self.destroys + if destroy { 1nat } else { 0nat }, ..self }
    }

    /// The world in which the run that was under way has come to its end, with or without an
    /// awaiter to notify.
    pub open spec fn finish(self, word: Word, notify: bool) -> World {
        if notify {
            World { word, phase: Phase::Absent, due: self.due + 1, ..self }
        } else {
            World { word, phase: Phase::Absent, finishing: self.finishing + 1, ..self }
        }
    }

    /// The world after a step, or `None` if nobody is there to make it.
    pub open spec fn next(self, step: Step) -> Option<World> {
        let w = self.word;
        match step {
            Step::WakeByRef => if self.wakers == 0 && !(self.phase is Polling) || w.overflowing() {
                None
            } else {
                match wake_by_ref_next(w) {
                    None => Some(self),
                    Some(word) => Some(
                        World {
                            word,
                            phase: if wake_by_ref_outcome(w) is ScheduleDirectly {
                                Phase::Queued
                            } else {
                                self.phase
                            },
                            rewoken: self.rewoken || self.phase is Polling,
                            ..self
                        },
                    ),
                }
            },
            Step::Wake => if self.wakers == 0 {
                None
            } else {
                match wake_next(w) {
                    None => Some(self),
                    Some(word) => match wake_outcome(w) {
                        Consumed::IntoRunnable => Some(
                            World {
                                word,
                                phase: Phase::Queued,
                                wakers: (self.wakers - 1) as nat,
                                ..self
                            },
                        ),
                        Consumed::Dropped => Some(
                            World { word, rewoken: self.rewoken || self.phase is Polling, ..self },
                        ),
                    },
                }
            },
            Step::CloneWaker => if self.wakers == 0 && !(self.phase is Queued)
                && !(self.phase is Polling) || w.overflowing() {
                None
            } else {
                Some(World { word: w.add_ref(), wakers: self.wakers + 1, ..self })
            },
            Step::DropWaker => if self.wakers == 0 {
                None
            } else {
                let left = World { word: w.sub_ref(), wakers: (self.wakers - 1) as nat, ..self };
                match waker_drop_outcome(w) {
                    WakerDrop::Keep => Some(left),
                    WakerDrop::Revive => Some(World { reviving: true, ..left }),
                    WakerDrop::Destroy => Some(left.destroyed_if(true)),
                }
            },
            Step::Revive => if !self.reviving {
                None
            } else {
                Some(World { word: revived(), phase: Phase::Queued, reviving: false, ..self })
            },
            Step::Start => if !(self.phase is Queued) {
                None
            } else {
                match start_next(w) {
                    None => Some(World { phase: Phase::Closing, ..self }),
                    Some(word) => Some(
                        World { word, phase: Phase::Polling, rewoken: false, ..self },
                    ),
                }
            },
            Step::Cancel => if !(self.phase is Queued) {
                None
            } else {
                match cancel_next(w) {
                    None => Some(World { phase: Phase::Closing, ..self }),
                    Some(word) => Some(World { word, phase: Phase::Closing, ..self }),
                }
            },
            Step::DropClosed => if !(self.phase is Closing) {
                None
            } else {
                Some(
                    World { phase: Phase::Closed, future_drops: self.future_drops + 1, ..self },
                )
            },
            Step::Unschedule => if !(self.phase is Closed) {
                None
            } else {
                Some(self.finish(Word { scheduled: false, ..w }, w.awaiter))
            },
            Step::StoreOutput => if !(self.phase is Polling) {
                None
            } else {
                Some(World { phase: Phase::Ready, future_drops: self.future_drops + 1, ..self })
            },
            Step::Complete => if !(self.phase is Ready) {
                None
            } else {
                match complete_next(w) {
                    None => None,
                    Some(word) => if !w.task || w.closed {
                        Some(
                            World { word, phase: Phase::Discarding, pledged: w.awaiter, ..self },
                        )
                    } else {
                        Some(self.finish(word, w.awaiter))
                    },
                }
            },
            Step::DropOutput => if !(self.phase is Discarding) {
                None
            } else {
                Some(World { output_drops: self.output_drops + 1, ..self.finish(w, self.pledged) })
            },
            Step::Park => if !(self.phase is Polling) {
                None
            } else {
                match park_next(w, false) {
                    None => Some(
                        World {
                            phase: Phase::Stopping,
                            future_drops: self.future_drops + 1,
                            ..self
                        },
                    ),
                    Some(word) => match park_outcome(w) {
                        Parked::Closed => Some(self.finish(word, w.awaiter)),
                        Parked::Woken => Some(World { word, phase: Phase::Queued, ..self }),
                        Parked::Idle => Some(
                            World { word, phase: Phase::Absent, idle: self.idle + 1, ..self },
                        ),
                    },
                }
            },
            Step::Stop => match self.phase {
                Phase::Stopping => match park_next(w, true) {
                    None => None,
                    Some(word) => match park_outcome(w) {
                        Parked::Closed => Some(self.finish(word, w.awaiter)),
                        Parked::Woken => Some(World { word, phase: Phase::Queued, ..self }),
                        Parked::Idle => Some(self.finish(word, false)),
                    },
                },
                Phase::Unwound => Some(
                    self.finish(Word { scheduled: false, running: false, ..w }, self.pledged),
                ),
                _ => None,
            },
            Step::Unwind => if !(self.phase is Polling) {
                None
            } else {
                match unwind_next(w) {
                    None => Some(World { phase: Phase::Unwinding, pledged: w.awaiter, ..self }),
                    Some(word) => Some(
                        World { word, phase: Phase::Failed, pledged: w.awaiter, ..self },
                    ),
                }
            },
            Step::DropPanicked => match self.phase {
                Phase::Unwinding => Some(
                    World { phase: Phase::Unwound, future_drops: self.future_drops + 1, ..self },
                ),
                Phase::Failed => Some(
                    World { future_drops: self.future_drops + 1, ..self.finish(w, self.pledged) },
                ),
                _ => None,
            },
            Step::Notify => if self.due == 0 {
                None
            } else {
                let word = Word { notifying: true, ..w };
                let left = World { word, due: (self.due - 1) as nat, ..self };
                if w.slot_locked() {
                    Some(World { finishing: self.finishing + 1, ..left })
                } else {
                    Some(World { holder: Holder::Run, ..left })
                }
            },
            Step::EmptySlot => if !(self.holder is Run) {
                None
            } else {
                Some(World { holder: Holder::RunTook(self.slot), slot: None, ..self })
            },
            Step::EndNotify => match self.holder {
                Holder::RunTook(found) => Some(
                    World {
                        word: Word { notifying: false, awaiter: false, ..w },
                        finishing: self.finishing + 1,
                        holder: Holder::Nobody,
                        wakeups: self.wakeups + count(found),
                        ..self
                    },
                ),
                _ => None,
            },
            Step::Release => if self.finishing == 0 {
                None
            } else {
                let left = World {
                    word: w.sub_ref(),
                    finishing: (self.finishing - 1) as nat,
                    ..self
                };
                Some(left.destroyed_if(ref_drop_outcome(w, true) is Destroy))
            },
            Step::ReleaseIdle => if self.idle == 0 {
                None
            } else {
                let left = World { word: w.sub_ref(), idle: (self.idle - 1) as nat, ..self };
                match ref_drop_outcome(w, false) {
                    RefDrop::Keep => Some(left),
                    RefDrop::Close => Some(World { abandoning: true, ..left }),
                    RefDrop::Destroy => Some(left.destroyed_if(true)),
                }
            },
            Step::Abandon => if !self.abandoning {
                None
            } else {
                Some(
                    World {
                        word: abandoned(w.add_ref()),
                        phase: Phase::Closing,
                        abandoning: false,
                        ..self
                    },
                )
            },
            Step::HandleCancel => if !self.handle_free() || w.overflowing() {
                None
            } else if w.finished() {
                Some(self)
            } else if w.scheduled || w.running {
                Some(World { word: Word { closed: true, ..w }, ..self })
            } else {
                Some(
                    World {
                        word: Word { scheduled: true, closed: true, ..w.add_ref() },
                        phase: Phase::Queued,
                        ..self
                    },
                )
            },
            Step::HandleNotify => if !self.handle_free() {
                None
            } else {
                let word = Word { notifying: true, ..w };
                if w.slot_locked() {
                    Some(World { word, ..self })
                } else {
                    Some(World { word, holder: Holder::Handle, ..self })
                }
            },
            Step::HandleEmptySlot => if !(self.holder is Handle) {
                None
            } else {
                Some(World { holder: Holder::HandleTook(self.slot), slot: None, ..self })
            },
            Step::HandleEndNotify { same } => match self.holder {
                Holder::HandleTook(found) => Some(
                    World {
                        word: Word { notifying: false, awaiter: false, ..w },
                        holder: Holder::Nobody,
                        wakeups: if same { self.wakeups } else { self.wakeups + count(found) },
                        discards: if same { self.discards + count(found) } else { self.discards },
                        ..self
                    },
                ),
                _ => None,
            },
            Step::HandleRegister => if !self.handle_free() {
                None
            } else {
                match register_next(w) {
                    None => Some(self),
                    Some(word) => Some(World { word, holder: Holder::Registrar, ..self }),
                }
            },
            Step::HandleFill { waker } => if !(self.holder is Registrar) {
                None
            } else {
                Some(
                    World {
                        holder: Holder::Filled(waker),
                        slot: Some(waker),
                        last: Some(waker),
                        fills: self.fills + 1,
                        displaced: self.displaced + count(self.slot),
                        ..self
                    },
                )
            },
            Step::HandleEndRegister => match self.holder {
                Holder::Filled(waker) => match registered_next(w) {
                    Some(word) => Some(
                        World { word, holder: Holder::Nobody, late: w.finished(), ..self },
                    ),
                    None => Some(World { holder: Holder::Withdrawing(waker), ..self }),
                },
                _ => None,
            },
            Step::HandleWithdraw => match self.holder {
                Holder::Withdrawing(waker) => Some(
                    World { holder: Holder::Withdrawn(waker, self.slot), slot: None, ..self },
                ),
                _ => None,
            },
            Step::HandleEndWithdraw => match self.holder {
                Holder::Withdrawn(_, found) => match interrupted_next(w, found is Some) {
                    Some(word) => Some(
                        World {
                            word,
                            holder: Holder::Nobody,
                            wakeups: self.wakeups + count(found),
                            ..self
                        },
                    ),
                    None => None,
                },
                _ => None,
            },
            Step::HandleCollect => if !self.handle_free() || !w.completed || w.closed {
                None
            } else {
                Some(
                    World {
                        word: Word { closed: true, ..w },
                        output_drops: self.output_drops + 1,
                        ..self
                    },
                )
            },
            Step::HandleDetach => if !self.handle_free() || w.completed && !w.closed {
                None
            } else if w.refs == 0 && !w.closed {
                Some(World { word: revived(), phase: Phase::Queued, ..self })
            } else {
                Some(World { word: Word { task: false, ..w }, ..self }.destroyed_if(w.refs == 0))
            },
        }
    }

    /// The world after a number of steps from `self`, or `None` if one of them can't be made.
    pub open spec fn after(self, steps: Seq<Step>) -> Option<World>
        decreases steps.len(),
    {
        if steps.len() == 0 {
            Some(self)
        } else {
            match self.after(steps.drop_last()) {
                None => None,
                Some(world) => world.next(steps.last()),
            }
        }
    }

    /// This can become of a new task.
    pub open spec fn reachable(self) -> bool {
        exists|steps: Seq<Step>| #[trigger] new_task().after(steps) == Some(self)
    }

    /// What the flags say in each phase, and whether the future has been dropped.
    pub open spec fn phase_inv(self) -> bool {
        let w = self.word;
        match self.phase {
            Phase::Absent => {
                &&& !w.scheduled && !w.running
                &&& self.future_drops == if w.finished() { 1nat } else { 0nat }
            },
            Phase::Queued => {
                w.scheduled && !w.running && !w.completed && self.future_drops == 0
            },
            Phase::Closing => {
                !w.running && !w.completed && w.closed && self.future_drops == 0
            },
            Phase::Closed => {
                !w.running && !w.completed && w.closed && self.future_drops == 1
            },
            Phase::Polling => {
                &&& w.running && !w.completed && self.future_drops == 0
                &&& w.scheduled <==> self.rewoken
            },
            Phase::Ready => w.running && !w.completed && self.future_drops == 1,
            Phase::Discarding => {
                !w.scheduled && !w.running && w.completed && w.closed && self.future_drops == 1
            },
            Phase::Stopping | Phase::Unwound => {
                w.running && !w.completed && w.closed && self.future_drops == 1
            },
            Phase::Unwinding => {
                w.running && !w.completed && w.closed && self.future_drops == 0
            },
            Phase::Failed => {
                !w.scheduled && !w.running && !w.completed && w.closed && self.future_drops == 0
            },
        }
    }

    /// Who works on the awaiter slot shows in the flags, and what is in the slot follows.
    pub open spec fn slot_inv(self) -> bool {
        let w = self.word;
        &&& w.slot_locked() <==> !(self.holder is Nobody)
        &&& w.registering <==> registers(self.holder)
        &&& self.holder is Withdrawing || self.holder is Withdrawn ==> w.notifying
        &&& of_handle(self.holder) ==> w.task
        // What is in the slot was put there last, and what was taken out of it too.
        &&& self.slot is Some ==> self.slot == self.last
        &&& in_hand(self.holder) is Some ==> in_hand(self.holder) == self.last && self.slot is None
        &&& match self.holder {
            Holder::Nobody | Holder::Run | Holder::Handle => w.awaiter ==> self.slot is Some,
            Holder::RunTook(found) => w.awaiter ==> found is Some,
            Holder::HandleTook(found) => w.awaiter ==> found is Some,
            Holder::Registrar => true,
            Holder::Filled(waker) => self.slot == Some(waker),
            Holder::Withdrawing(waker) => self.slot == Some(waker),
            Holder::Withdrawn(waker, found) => found == Some(waker),
        }
        // Every awaiter that was put into the slot is there, or has left it in one way.
        &&& self.fills == self.wakeups + self.discards + self.displaced + count(self.slot) + count(
            in_hand(self.holder),
        )
    }

    /// An awaiter in the slot of a finished task, registered before the task was finished, is taken
    /// care of: the run that is under way will look for it, or has seen it already, or the run is
    /// over and about to take it.
    pub open spec fn awaiter_inv(self) -> bool {
        let w = self.word;
        self.holder is Nobody && w.awaiter && w.finished() && !self.late ==> match self.phase {
            Phase::Absent => self.due > 0,
            Phase::Discarding | Phase::Unwinding | Phase::Unwound | Phase::Failed => self.pledged,
            _ => true,
        }
    }

    /// What every world keeps that can become of a new task.
    pub open spec fn inv(self) -> bool {
        let w = self.word;
        &&& self.phase_inv()
        &&& self.slot_inv()
        &&& self.awaiter_inv()
        // The count is right.
        &&& w.refs == self.references()
        // The output is dropped or handed out as the task is closed.
        &&& self.output_drops == if w.completed && w.closed && !(self.phase is Discarding) {
            1nat
        } else {
            0nat
        }
        // A completed task is closed, unless its output is left for the await handle.
        &&& w.completed && !w.closed ==> w.task
        // Whoever is about to take the awaiter, or has no future left, is at the end of the task.
        &&& self.due > 0 || self.finishing > 0 || self.holder is Run || self.holder is RunTook
            ==> w.finished()
        // The last one to leave destroys the closed task, or has its future dropped first.
        &&& self.destroys <= 1
        &&& w.unreferenced() <==> self.reviving || self.abandoning || self.destroys == 1
        &&& self.reviving || self.abandoning ==> self.destroys == 0 && !w.finished()
        &&& !(self.reviving && self.abandoning)
        &&& self.destroys == 1 ==> w.closed
    }
}

/// The step asks for a `Runnable` to be scheduled.
pub open spec fn schedules(world: World, step: Step) -> bool {
    let w = world.word;
    match step {
        Step::WakeByRef => wake_by_ref_outcome(w) is ScheduleDirectly,
        Step::Wake => wake_outcome(w) is IntoRunnable,
        Step::Revive => true,
        Step::Park => !w.closed && park_outcome(w) is Woken,
        Step::Stop => park_outcome(w) is Woken,
        Step::HandleCancel => !w.finished() && !w.scheduled && !w.running,
        Step::HandleDetach => w.refs == 0 && !w.closed,
        _ => false,
    }
}

/// The step is the next one in the work of the holder of the awaiter slot.
pub open spec fn is_slot_work(holder: Holder, step: Step) -> bool {
    match holder {
        Holder::Nobody => false,
        Holder::Run => step is EmptySlot,
        Holder::RunTook(_) => step is EndNotify,
        Holder::Handle => step is HandleEmptySlot,
        Holder::HandleTook(_) => step is HandleEndNotify,
        Holder::Registrar => step is HandleFill,
        Holder::Filled(_) => step is HandleEndRegister,
        Holder::Withdrawing(_) => step is HandleWithdraw,
        Holder::Withdrawn(_, _) => step is HandleEndWithdraw,
    }
}

/// Each flag changes only in the steps that it belongs to.
spec fn keeps_flags(w: Word, step: Step, n: Word) -> bool {
    &&& n.task == w.task || step is HandleDetach
    &&& step is HandleDetach ==> !n.task
    &&& n.completed == w.completed || step is Complete
    &&& step is Complete ==> n.completed && (n.closed ==> w.closed || !w.task)
    &&& n.running && !w.running ==> step is Start
    &&& w.running && !n.running ==> step is Complete || step is Park || step is Stop
        || step is Unwind
    &&& n.scheduled && !w.scheduled ==> step is WakeByRef || step is Wake || step is Revive
        || step is HandleCancel || step is HandleDetach
    &&& w.scheduled && !n.scheduled ==> step is Start || step is Unschedule || step is Complete
        || step is Stop || step is Unwind
    &&& step is WakeByRef || step is Wake ==> w.completed || w.closed || n.scheduled
    &&& n.closed && !w.closed ==> {
        ||| step is Cancel || step is Unwind || step is Revive || step is Abandon
        ||| step is Complete && !w.task
        ||| step is HandleCancel || step is HandleCollect || step is HandleDetach
    }
    &&& step is Cancel || step is Unwind || step is HandleCancel ==> n.completed || n.closed
    &&& step is Revive || step is Abandon || step is HandleCollect ==> n.closed
}

/// What every step keeps of the world before it.
spec fn keeps(world: World, step: Step, next: World) -> bool {
    // A `Runnable` is scheduled only where there is none.
    &&& schedules(world, step) ==> next.phase is Queued && (world.phase is Absent
        || world.phase is Polling && step is Park)
    &&& !schedules(world, step) && next.phase is Queued ==> world.phase is Queued
    // Nobody but the holder of the awaiter slot works on it, or ends a notification.
    &&& !is_slot_work(world.holder, step) ==> {
        &&& next.holder == world.holder || world.holder is Nobody
        &&& next.slot == world.slot && next.last == world.last
        &&& world.word.notifying ==> next.word.notifying
        &&& next.wakeups == world.wakeups
    }
    // An awaiter stays registered until it is taken out, or nobody is left to await.
    &&& world.word.awaiter && !next.word.awaiter ==> is_slot_work(world.holder, step)
        || step is Revive || step is HandleDetach
    &&& keeps_flags(world.word, step, next.word)
    // A finished task stays finished, and no poll of its future starts.
    &&& world.word.closed ==> next.word.closed
    &&& world.word.completed ==> next.word.completed
    &&& world.word.finished() && next.phase is Polling ==> world.phase is Polling
    &&& world.destroys == 0
}

proof fn lemma_waker_step(world: World, step: Step)
    requires
        world.inv(),
        step is WakeByRef || step is Wake || step is CloneWaker || step is DropWaker
            || step is Revive,
    ensures
        world.next(step) matches Some(next) ==> next.inv() && keeps(world, step, next),
{
    match step {
        Step::WakeByRef => {},
        Step::Wake => {},
        Step::CloneWaker => {},
        Step::DropWaker => {},
        _ => {},
    }
}

proof fn lemma_start_step(world: World, step: Step)
    requires
        world.inv(),
        step is Start || step is Cancel || step is DropClosed || step is Unschedule,
    ensures
        world.next(step) matches Some(next) ==> next.inv() && keeps(world, step, next),
{
    match step {
        Step::Start => {},
        Step::Cancel => {},
        Step::DropClosed => {},
        _ => {},
    }
}

proof fn lemma_poll_step(world: World, step: Step)
    requires
        world.inv(),
        step is StoreOutput || step is Complete || step is DropOutput || step is Park
            || step is Stop || step is Unwind || step is DropPanicked,
    ensures
        world.next(step) matches Some(next) ==> next.inv() && keeps(world, step, next),
{
    match step {
        Step::StoreOutput => {},
        Step::Complete => {},
        Step::DropOutput => {},
        Step::Park => {},
        Step::Stop => {},
        Step::Unwind => {},
        _ => {},
    }
}

proof fn lemma_end_step(world: World, step: Step)
    requires
        world.inv(),
        step is Notify || step is EmptySlot || step is EndNotify || step is Release
            || step is ReleaseIdle || step is Abandon,
    ensures
        world.next(step) matches Some(next) ==> next.inv() && keeps(world, step, next),
{
    match step {
        Step::Notify => {},
        Step::EmptySlot => {},
        Step::EndNotify => {},
        Step::Release => {},
        Step::ReleaseIdle => {},
        _ => {},
    }
}

proof fn lemma_handle_slot_step(world: World, step: Step)
    requires
        world.inv(),
        step is HandleNotify || step is HandleEmptySlot || step is HandleEndNotify
            || step is HandleRegister || step is HandleFill || step is HandleEndRegister
            || step is HandleWithdraw || step is HandleEndWithdraw,
    ensures
        world.next(step) matches Some(next) ==> next.inv() && keeps(world, step, next),
{
    match step {
        Step::HandleNotify => {},
        Step::HandleEmptySlot => {},
        Step::HandleEndNotify { .. } => {},
        Step::HandleRegister => {},
        Step::HandleFill { .. } => {},
        Step::HandleEndRegister => {},
        Step::HandleWithdraw => {},
        _ => {},
    }
}

proof fn lemma_handle_step(world: World, step: Step)
    requires
        world.inv(),
        step is HandleCancel || step is HandleCollect || step is HandleDetach,
    ensures
        world.next(step) matches Some(next) ==> next.inv() && keeps(world, step, next),
{
    match step {
        Step::HandleCancel => {},
        Step::HandleCollect => {},
        _ => {},
    }
}

/// Every step keeps what the worlds before it kept.
pub proof fn law_step_keeps_invariant(world: World, step: Step)
    requires
        world.inv(),
    ensures
        world.next(step) matches Some(next) ==> next.inv(),
{
    lemma_step(world, step);
}

proof fn lemma_step(world: World, step: Step)
    requires
        world.inv(),
    ensures
        world.next(step) matches Some(next) ==> next.inv() && keeps(world, step, next),
{
    match step {
        Step::WakeByRef | Step::Wake | Step::CloneWaker | Step::DropWaker | Step::Revive => {
            lemma_waker_step(world, step);
        },
        Step::Start | Step::Cancel | Step::DropClosed | Step::Unschedule => {
            lemma_start_step(world, step);
        },
        Step::StoreOutput
        | Step::Complete
        | Step::DropOutput
        | Step::Park
        | Step::Stop
        | Step::Unwind
        | Step::DropPanicked => {
            lemma_poll_step(world, step);
        },
        Step::Notify
        | Step::EmptySlot
        | Step::EndNotify
        | Step::Release
        | Step::ReleaseIdle
        | Step::Abandon => {
            lemma_end_step(world, step);
        },
        Step::HandleNotify
        | Step::HandleEmptySlot
        | Step::HandleEndNotify { .. }
        | Step::HandleRegister
        | Step::HandleFill { .. }
        | Step::HandleEndRegister
        | Step::HandleWithdraw
        | Step::HandleEndWithdraw => {
            lemma_handle_slot_step(world, step);
        },
        _ => {
            lemma_handle_step(world, step);
        },
    }
}

proof fn lemma_steps_keep_invariant(world: World, steps: Seq<Step>)
    requires
        world.inv(),
    ensures
        world.after(steps) matches Some(last) ==> last.inv(),
    decreases steps.len(),
{
    if steps.len() > 0 {
        lemma_steps_keep_invariant(world, steps.drop_last());
        if let Some(last) = world.after(steps.drop_last()) {
            law_step_keeps_invariant(last, steps.last());
        }
    }
}

/// Whatever the users of a task do, and in whatever order, the invariant holds.
pub proof fn law_reachable_worlds_keep_invariant(world: World)
    requires
        world.reachable(),
    ensures
        world.inv(),
{
    let steps = choose|steps: Seq<Step>| #[trigger] new_task().after(steps) == Some(world);
    lemma_steps_keep_invariant(new_task(), steps);
}

/// A world that follows a reachable one is reachable.
pub proof fn law_next_is_reachable(world: World, step: Step, next: World)
    requires
        world.reachable(),
        world.next(step) == Some(next),
    ensures
        next.reachable(),
{
    let steps = choose|steps: Seq<Step>| #[trigger] new_task().after(steps) == Some(world);
    let longer = steps.push(step);
    assert(longer.drop_last() =~= steps);
    assert(new_task().after(longer) == Some(next));
}

/// The `Runnable` only exists when the task is scheduled for running. The task is in running state
/// while its future is being polled.
pub proof fn law_flags_follow_runnable(world: World)
    requires
        world.reachable(),
    ensures
        world.phase is Queued ==> world.word.scheduled && !world.word.running,
        world.phase is Polling ==> world.word.running,
        world.phase is Absent ==> !world.word.scheduled && !world.word.running,
{
    law_reachable_worlds_keep_invariant(world);
}

/// A completed task is neither scheduled nor running.
pub proof fn law_completed_task_is_idle(world: World)
    requires
        world.reachable(),
        world.word.completed,
    ensures
        !world.word.scheduled,
        !world.word.running,
{
    law_reachable_worlds_keep_invariant(world);
}

/// Every task has a single `Runnable`: one is scheduled only when there is none and no run is
/// under way, but for the run that schedules the task again as it ends.
pub proof fn law_runnable_is_unique(world: World, step: Step)
    requires
        world.reachable(),
        world.next(step) is Some,
    ensures
        schedules(world, step) ==> world.phase is Absent || world.phase is Polling && step is Park,
        schedules(world, step) ==> world.next(step)->0.phase is Queued,
        !schedules(world, step) && world.next(step)->0.phase is Queued ==> world.phase is Queued,
{
    law_reachable_worlds_keep_invariant(world);
    lemma_step(world, step);
}

/// The reference count is the number of the references that are held: those of the wakers, that of
/// the `Runnable` or of the run that it went into, and those that runs have left to drop.
pub proof fn law_references_are_counted(world: World)
    requires
        world.reachable(),
    ensures
        world.word.refs == world.references(),
{
    law_reachable_worlds_keep_invariant(world);
}

/// The future is dropped once at most, and it is gone before anybody can find the task finished
/// and at rest.
pub proof fn law_future_is_dropped_once(world: World)
    requires
        world.reachable(),
    ensures
        world.future_drops <= 1,
        world.phase is Polling ==> world.future_drops == 0,
        world.phase is Absent ==> (world.future_drops == 1 <==> world.word.finished()),
{
    law_reachable_worlds_keep_invariant(world);
}

/// The output is dropped or handed out once at most: it stays in a completed task until the task
/// becomes closed.
pub proof fn law_output_is_dropped_once(world: World)
    requires
        world.reachable(),
    ensures
        world.output_drops <= 1,
        world.word.completed && !world.word.closed ==> world.output_drops == 0,
        world.word.completed && world.phase is Absent ==> (world.output_drops == 1
            <==> world.word.closed),
{
    law_reachable_worlds_keep_invariant(world);
}

/// A task is destroyed once at most, and then nobody is left who could do anything to it.
pub proof fn law_nothing_happens_after_destruction(world: World, step: Step)
    requires
        world.reachable(),
    ensures
        world.destroys <= 1,
        world.destroys == 1 ==> world.word.unreferenced() && world.next(step) is None,
{
    law_reachable_worlds_keep_invariant(world);
    lemma_step(world, step);
}

/// A task without references and without an await handle has been destroyed, unless its last waker
/// or its last run is about to have its future dropped.
pub proof fn law_unreferenced_task_is_destroyed(world: World)
    requires
        world.reachable(),
        world.word.unreferenced(),
        !world.reviving,
        !world.abandoning,
    ensures
        world.destroys == 1,
{
    law_reachable_worlds_keep_invariant(world);
}

/// A task is closed before it is destroyed, its future has been dropped, and so has an output that
/// it had.
pub proof fn law_destroyed_task_is_closed_and_empty(world: World)
    requires
        world.reachable(),
        world.destroys == 1,
    ensures
        world.word.closed,
        world.future_drops == 1,
        world.word.completed ==> world.output_drops == 1,
{
    law_reachable_worlds_keep_invariant(world);
}

/// The awaiter slot is worked on by one party at a time: until that party goes on, nobody else gets
/// hold of it, what is in it stays, and so does a notification that has come in.
pub proof fn law_slot_is_exclusive(world: World, step: Step)
    requires
        world.reachable(),
        world.next(step) is Some,
        !(world.holder is Nobody),
        !is_slot_work(world.holder, step),
    ensures
        world.next(step)->0.holder == world.holder,
        world.next(step)->0.slot == world.slot,
        world.word.notifying ==> world.next(step)->0.word.notifying,
{
    law_reachable_worlds_keep_invariant(world);
    lemma_step(world, step);
}

/// There is a registered awaiter inside the task whenever the `AWAITER` flag is set and nobody
/// works on the slot: the one that was put there last.
pub proof fn law_awaiter_is_in_slot(world: World)
    requires
        world.reachable(),
        world.word.awaiter,
        world.holder is Nobody,
    ensures
        world.slot is Some,
        world.slot == world.last,
{
    law_reachable_worlds_keep_invariant(world);
}

/// What is taken out of the slot is what was registered last, and the slot is empty then.
pub proof fn law_taken_awaiter_is_last_registered(world: World)
    requires
        world.reachable(),
        in_hand(world.holder) is Some,
    ensures
        in_hand(world.holder) == world.last,
        world.slot is None,
{
    law_reachable_worlds_keep_invariant(world);
}

/// Whoever takes the awaiter out of a task with the `AWAITER` flag set gets one.
pub proof fn law_registered_awaiter_is_taken(world: World)
    requires
        world.reachable(),
        world.word.awaiter,
        world.holder is RunTook || world.holder is HandleTook,
    ensures
        in_hand(world.holder) is Some,
{
    law_reachable_worlds_keep_invariant(world);
}

/// A registration that has met a notification hands out its own awaiter to be woken, once, and
/// leaves nobody in the slot.
pub proof fn law_interrupted_registration_wakes_its_own(world: World)
    requires
        world.reachable(),
        world.holder is Withdrawn,
    ensures
        world.holder matches Holder::Withdrawn(waker, found) && found == Some(waker),
        world.next(Step::HandleEndWithdraw) matches Some(next) && next.wakeups == world.wakeups + 1
            && next.slot is None && !next.word.awaiter && !next.word.slot_locked(),
{
    law_reachable_worlds_keep_invariant(world);
}

/// Every awaiter that was put into the slot is still there, or has left it in exactly one way: it
/// was handed out to be woken, or was the same as the current waker, or was displaced by the next
/// one, or is in the hands of who works on the slot.
pub proof fn law_awaiter_leaves_slot_once(world: World)
    requires
        world.reachable(),
    ensures
        world.fills == world.wakeups + world.discards + world.displaced + count(world.slot) + count(
            in_hand(world.holder),
        ),
{
    law_reachable_worlds_keep_invariant(world);
}

/// An awaiter is woken only by being taken out of the slot, and stays registered until then, unless
/// nobody is left to await.
pub proof fn law_awaiter_stays_registered(world: World, step: Step)
    requires
        world.reachable(),
        world.next(step) is Some,
        !is_slot_work(world.holder, step),
    ensures
        world.next(step)->0.wakeups == world.wakeups,
        world.next(step)->0.slot == world.slot,
        world.word.awaiter && !(step is Revive) && !(step is HandleDetach) ==> world.next(
            step,
        )->0.word.awaiter,
{
    law_reachable_worlds_keep_invariant(world);
    lemma_step(world, step);
}

/// The awaiter is woken up once the task completes or is closed: where a finished task is at rest,
/// an awaiter that was registered before is about to be taken by the run, or somebody works on the
/// slot right now.
pub proof fn law_awaiter_is_not_forgotten(world: World)
    requires
        world.reachable(),
        world.word.finished(),
        world.phase is Absent,
        world.word.awaiter,
        !world.late,
    ensures
        world.due > 0 || !(world.holder is Nobody),
{
    law_reachable_worlds_keep_invariant(world);
}

/// A run that is about to take the registered awaiter, and finds nobody else at the slot, wakes
/// exactly the one that was registered last, once: its next three steps empty the slot, hand the
/// awaiter out and clear the flag.
pub proof fn law_run_wakes_awaiter_once(world: World)
    requires
        world.reachable(),
        world.due > 0,
        world.word.awaiter,
        world.holder is Nobody,
    ensures
        ({
            let locked = world.next(Step::Notify)->0;
            let emptied = locked.next(Step::EmptySlot)->0;
            let ended = emptied.next(Step::EndNotify)->0;
            &&& world.next(Step::Notify) is Some
            &&& locked.next(Step::EmptySlot) is Some
            &&& emptied.next(Step::EndNotify) is Some
            &&& in_hand(emptied.holder) == world.last && world.last is Some
            &&& ended.slot is None && !ended.word.awaiter && ended.holder is Nobody
            &&& ended.wakeups == world.wakeups + 1
        }),
{
    law_reachable_worlds_keep_invariant(world);
}

/// A notification is not lost: whoever attempts one gets hold of the slot, or another notification
/// is under way, or the registration that is under way can't end but by taking its awaiter out to
/// be woken.
pub proof fn law_notification_is_not_lost(world: World, step: Step)
    requires
        world.reachable(),
        world.next(step) is Some,
        step is Notify || step is HandleNotify,
    ensures
        ({
            let next = world.next(step)->0;
            &&& next.word.notifying
            &&& !(next.holder is Nobody)
            &&& next.holder is Filled ==> {
                &&& registered_next(next.word) is None
                &&& next.next(Step::HandleEndRegister) matches Some(met)
                &&& met.holder is Withdrawing
            }
        }),
{
    law_reachable_worlds_keep_invariant(world);
}

/// A task that was canceled or that has completed stays so.
pub proof fn law_finished_task_stays_finished(world: World, step: Step)
    requires
        world.reachable(),
        world.next(step) is Some,
    ensures
        world.word.closed ==> world.next(step)->0.word.closed,
        world.word.completed ==> world.next(step)->0.word.completed,
{
    law_reachable_worlds_keep_invariant(world);
    lemma_step(world, step);
}

/// The future of a finished task won't be polled again.
pub proof fn law_finished_task_is_not_polled(world: World, step: Step)
    requires
        world.reachable(),
        world.next(step) is Some,
        world.word.finished(),
        world.next(step)->0.phase is Polling,
    ensures
        world.phase is Polling,
{
    law_reachable_worlds_keep_invariant(world);
    lemma_step(world, step);
}

/// The task is not destroyed while the await handle exists.
pub proof fn law_handle_keeps_task(world: World)
    requires
        world.reachable(),
        world.word.task,
    ensures
        world.destroys == 0,
{
    law_reachable_worlds_keep_invariant(world);
}

/// A task that is woken while running is scheduled again as soon as polling finishes, unless it
/// has been closed meanwhile.
pub proof fn law_woken_task_runs_again(world: World)
    requires
        world.reachable(),
        world.phase is Polling,
        world.word.scheduled,
        !world.word.closed,
    ensures
        world.next(Step::Park) matches Some(next) && next.phase is Queued && next.word.scheduled
            && !next.word.running && next.word.refs == world.word.refs,
{
    law_reachable_worlds_keep_invariant(world);
}

/// A run that leaves the future pending is rescheduled exactly if the task was woken since the run
/// started, unless the task has been closed meanwhile.
pub proof fn law_pending_run_is_rescheduled_iff_woken(world: World)
    requires
        world.reachable(),
        world.phase is Polling,
        !world.word.closed,
    ensures
        world.next(Step::Park) is Some,
        world.next(Step::Park)->0.phase is Queued <==> world.rewoken,
        !world.rewoken ==> world.next(Step::Park)->0.phase is Absent,
{
    law_reachable_worlds_keep_invariant(world);
}

/// A run that goes on to poll starts with the scheduled flag clear: nobody has woken the task
/// since.
pub proof fn law_run_starts_unwoken(world: World)
    requires
        world.reachable(),
        world.next(Step::Start) is Some,
    ensures
        ({
            let next = world.next(Step::Start)->0;
            &&& world.word.closed <==> next.phase is Closing
            &&& !world.word.closed <==> next.phase is Polling
            &&& next.phase is Polling ==> next.word.running && !next.word.scheduled
                && !next.rewoken
        }),
{
    law_reachable_worlds_keep_invariant(world);
}

/// A wake-up is not lost: where the task is neither completed nor closed, it leaves the task
/// scheduled. It makes the `Runnable` of a task that has none and isn't running, and has a task
/// that is being polled rescheduled at the end of its run.
pub proof fn law_wakeup_is_not_lost(world: World, step: Step)
    requires
        world.reachable(),
        step is WakeByRef || step is Wake,
        world.next(step) is Some,
        !world.word.completed,
        !world.word.closed,
    ensures
        ({
            let next = world.next(step)->0;
            &&& next.word.scheduled
            &&& world.phase is Absent ==> next.phase is Queued
            &&& !(world.phase is Absent) ==> next.phase == world.phase
            &&& world.phase is Polling ==> next.rewoken && next.next(Step::Park)->0.phase is Queued
        }),
{
    law_reachable_worlds_keep_invariant(world);
    lemma_step(world, step);
    law_step_keeps_invariant(world, step);
}

/// A run whose future has produced its output always leaves the task completed. It leaves it closed
/// only if it was closed before, or the await handle is gone: otherwise the handle can collect the
/// output, once.
pub proof fn law_output_is_left_to_handle(world: World)
    requires
        world.reachable(),
        world.next(Step::Complete) is Some,
    ensures
        ({
            let next = world.next(Step::Complete)->0;
            &&& next.word.completed
            &&& next.word.closed ==> world.word.closed || !world.word.task
            &&& next.word.task == world.word.task
            &&& world.word.task && !world.word.closed ==> {
                &&& next.output_drops == 0
                &&& next.handle_free() ==> {
                    &&& next.next(Step::HandleCollect) matches Some(collected)
                    &&& collected.output_drops == 1
                }
            }
        }),
{
    law_reachable_worlds_keep_invariant(world);
    lemma_step(world, Step::Complete);
}

/// Only the await handle itself gives up its existence, and it never comes back: no other step
/// touches the flag. So the task is not destroyed before.
pub proof fn law_only_handle_gives_itself_up(world: World, step: Step)
    requires
        world.reachable(),
        world.next(step) is Some,
    ensures
        world.next(step)->0.word.task <==> world.word.task && !(step is HandleDetach),
        world.word.task && !(step is HandleDetach) ==> world.next(step)->0.destroys == 0,
{
    law_reachable_worlds_keep_invariant(world);
    lemma_step(world, step);
}

/// Dropping the `Runnable` changes nothing in the word but the closed flag, and always leaves the
/// task finished.
pub proof fn law_cancellation_only_closes(world: World)
    requires
        world.reachable(),
        world.next(Step::Cancel) is Some,
    ensures
        ({
            let next = world.next(Step::Cancel)->0;
            &&& next.word.closed
            &&& next.word == (Word { closed: next.word.closed, ..world.word })
            &&& next.phase is Closing
        }),
{
    law_reachable_worlds_keep_invariant(world);
}

/// The task becomes completed only by a run that has stored the output, and is running only from
/// the start of a run to its end. It becomes scheduled only by being woken or canceled, or by
/// losing the last one who could wake it. It becomes closed only by being canceled, by a panic, by
/// the output being collected, or by losing the await handle or the last one who could wake it.
pub proof fn law_flags_have_owners(world: World, step: Step)
    requires
        world.reachable(),
        world.next(step) is Some,
    ensures
        ({
            let w = world.word;
            let n = world.next(step)->0.word;
            &&& n.completed <==> w.completed || step is Complete
            &&& n.running && !w.running ==> step is Start
            &&& w.running && !n.running ==> step is Complete || step is Park || step is Stop
                || step is Unwind
            &&& n.scheduled && !w.scheduled ==> step is WakeByRef || step is Wake
                || step is Revive || step is HandleCancel || step is HandleDetach
            &&& w.scheduled && !n.scheduled ==> step is Start || step is Unschedule
                || step is Complete || step is Stop || step is Unwind
            &&& n.closed && !w.closed ==> {
                ||| step is Cancel || step is Unwind || step is Revive || step is Abandon
                ||| step is Complete && !w.task
                ||| step is HandleCancel || step is HandleCollect || step is HandleDetach
            }
        }),
{
    law_reachable_worlds_keep_invariant(world);
    lemma_step(world, step);
}

/// Waking a task twice is the same as waking it once: the second time, nothing is to be done.
pub proof fn law_wakes_coalesce(word: Word)
    requires
        wake_by_ref_next(word) is Some,
    ensures
        ({
            let woken = wake_by_ref_next(word)->0;
            &&& wake_by_ref_next(woken) == Some(woken)
            &&& wake_by_ref_outcome(woken) is Nothing
            &&& wake_next(woken) == Some(woken)
            &&& wake_outcome(woken) is Dropped
        }),
{
}

/// Waking a task by value comes to the same as waking it by reference and dropping the waker then:
/// the same word, and a `Runnable` to be scheduled in the same cases.
///
/// A count that has grown into the upper half of its range is left out: there only a wake-up by
/// reference looks at the count.
pub proof fn law_wake_is_wake_by_ref_and_drop(word: Word)
    requires
        word.refs > 0,
        !word.overflowing(),
    ensures
        wake_next(word) is Some <==> wake_by_ref_next(word) is Some,
        wake_next(word) matches Some(by_value) ==> {
            let by_ref = wake_by_ref_next(word)->0;
            if wake_outcome(word) is IntoRunnable {
                &&& wake_by_ref_outcome(word) is ScheduleDirectly
                &&& waker_drop_outcome(by_ref) is Keep
                &&& by_value == by_ref.sub_ref()
            } else {
                wake_by_ref_outcome(word) is Nothing && by_value == by_ref
            }
        },
{
}

/// A waker that is cloned and dropped again leaves the word as it was.
pub proof fn law_clone_and_drop_cancel_out(word: Word)
    requires
        !word.overflowing(),
    ensures
        word.add_ref().sub_ref() == word,
        word.refs > 0 ==> word.sub_ref().add_ref() == word,
{
}

} // verus!
