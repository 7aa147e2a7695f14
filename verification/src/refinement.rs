//! The operations on a task are the steps of its life.
//!
//! Each law here takes the journal entries that the contract of an operation speaks of, at the
//! moment when a world is as the operation finds it. It says that the operation leaves the state
//! word of the next world behind, and that the result of the operation asks for what the next
//! world says.
use core::task::Waker;

use vstd::prelude::*;

use crate::header::{Registered, Taken};
use crate::protocol::{Holder, Step, World};
use crate::run::{Ending, Run};
use crate::journal::Event;
use crate::state::{RUNNING, SCHEDULED};
use crate::transition::{Action, RefDrop};

verus! {

use crate::header::{began_registering, ended_registering, lemma_took, made, took};
use crate::protocol::{count, new_task};
use crate::raw::{cloned_waker, dropped_ref, dropped_waker, woke, woke_by_ref};
use crate::run::{
    completed, destroyed_as, parked, released, started, taken_as, unscheduled, unwound,
    unwound_released,
};
use crate::runnable::{canceled, canceled_awaiter};
use crate::state::{lemma_clear, lemma_constants, lemma_count, lemma_two_masks, word};

/// The entry is an operation on a state word that says what the word of this world says.
pub open spec fn finds(event: Event, world: World) -> bool {
    event.found() matches Some(s) && word(s) == world.word
}

/// The entry is an operation that leaves the state word of this world behind.
pub open spec fn leaves(event: Event, world: World) -> bool {
    event.left() matches Some(s) && word(s) == world.word
}

/// The entry is an operation on the awaiter slot that finds in it what this world has there.
pub open spec fn finds_slot(event: Event, world: World) -> bool {
    match event {
        Event::SlotEmptied { found, .. } => found == world.slot,
        Event::SlotFilled { found, .. } => found == world.slot,
        _ => false,
    }
}

/// The life of a task begins with the state word and the awaiter slot that its header is made with.
pub proof fn law_header_begins_life(run: Seq<Event>)
    requires
        made(run),
    ensures
        leaves(run[0], new_task()),
        run[1] matches Event::SlotMade { held, .. } && held == new_task().slot,
{
}

/// A wake-up by reference is a step. It asks for a `Runnable` to be scheduled where one has come
/// into existence.
pub proof fn law_wake_by_ref_is_step(world: World, run: Seq<Event>, action: Action)
    requires
        world.inv(),
        woke_by_ref(run, action),
        finds(run[0], world),
        world.next(Step::WakeByRef) is Some,
    ensures
        leaves(run[0], world.next(Step::WakeByRef)->0),
        action is ScheduleDirectly || action is Nothing,
        action is ScheduleDirectly <==> world.phase is Absent && world.next(
            Step::WakeByRef,
        )->0.phase is Queued,
{
}

/// A wake-up by value is a step, which is followed by the dropping of the waker unless its
/// reference went to the `Runnable`.
pub proof fn law_wake_is_step(world: World, run: Seq<Event>, action: Action)
    requires
        world.inv(),
        woke(run, action),
        finds(run[0], world),
        world.next(Step::Wake) is Some,
    ensures
        leaves(run[0], world.next(Step::Wake)->0),
        if world.next(Step::Wake)->0.wakers < world.wakers {
            &&& run.len() == 1
            &&& action is Schedule
            &&& world.phase is Absent
            &&& world.next(Step::Wake)->0.phase is Queued
        } else {
            dropped_waker(run.skip(1), action)
        },
{
}

/// Making a waker is a step.
pub proof fn law_clone_waker_is_step(world: World, run: Seq<Event>, action: Action)
    requires
        cloned_waker(run, action),
        finds(run[0], world),
        world.next(Step::CloneWaker) is Some,
    ensures
        leaves(run[0], world.next(Step::CloneWaker)->0),
        action is Nothing,
{
    lemma_count(run[0].found()->0);
}

/// Dropping a waker is a step. It asks for the task to be destroyed, or else it is followed by one
/// more step that schedules the task, or else it asks for nothing.
pub proof fn law_drop_waker_is_step(world: World, run: Seq<Event>, action: Action)
    requires
        world.inv(),
        dropped_waker(run, action),
        finds(run[0], world),
        world.next(Step::DropWaker) is Some,
    ensures
        ({
            let next = world.next(Step::DropWaker)->0;
            &&& leaves(run[0], next)
            &&& action is Destroy <==> next.destroys > world.destroys
            &&& action is Schedule <==> next.reviving
            &&& action is Schedule ==> leaves(run[1], next.next(Step::Revive)->0) && next.next(
                Step::Revive,
            )->0.phase is Queued
            &&& action is Destroy || action is Schedule || action is Nothing
        }),
{
    lemma_count(run[0].found()->0);
}

/// Dropping the reference of a run without its future is a step. It asks for the task to be
/// destroyed where it is destroyed.
pub proof fn law_drop_ref_is_step(world: World, run: Seq<Event>, left: RefDrop)
    requires
        dropped_ref(run, true, left),
        finds(run[0], world),
        world.next(Step::Release) is Some,
    ensures
        leaves(run[0], world.next(Step::Release)->0),
        left is Destroy <==> world.next(Step::Release)->0.destroys > world.destroys,
        left is Destroy || left is Keep,
{
    lemma_count(run[0].found()->0);
}

/// Dropping the reference of a run that left the future pending is a step. It asks for the task to
/// be destroyed, or else it is followed by one more step that closes the task and asks for its
/// future to be dropped, or else it asks for nothing.
pub proof fn law_drop_idle_ref_is_step(world: World, run: Seq<Event>, left: RefDrop)
    requires
        world.inv(),
        dropped_ref(run, false, left),
        finds(run[0], world),
        world.next(Step::ReleaseIdle) is Some,
    ensures
        ({
            let next = world.next(Step::ReleaseIdle)->0;
            &&& leaves(run[0], next)
            &&& left is Destroy <==> next.destroys > world.destroys
            &&& left is Close <==> next.abandoning
            &&& left is Close ==> leaves(run[1], next.next(Step::Abandon)->0) && next.next(
                Step::Abandon,
            )->0.phase is Closing
        }),
{
    lemma_count(run[0].found()->0);
}

/// The start of a run is a step. It asks for the future to be polled, or to be dropped.
pub proof fn law_start_is_step(world: World, run: Seq<Event>, closed: bool)
    requires
        started(run, closed),
        finds(run[0], world),
        world.next(Step::Start) is Some,
    ensures
        leaves(run[0], world.next(Step::Start)->0),
        closed <==> world.next(Step::Start)->0.phase is Closing,
        !closed <==> world.next(Step::Start)->0.phase is Polling,
{
}

/// Canceling the task with its `Runnable` is a step. It asks for the future to be dropped.
pub proof fn law_cancel_is_step(world: World, run: Seq<Event>)
    requires
        canceled(run),
        finds(run[0], world),
        world.next(Step::Cancel) is Some,
    ensures
        leaves(run[0], world.next(Step::Cancel)->0),
        world.next(Step::Cancel)->0.phase is Closing,
{
}

/// Marking a closed task as unscheduled is a step, in a run as well as in a cancellation. It is
/// followed by the taking of the awaiter where the step says so.
pub proof fn law_unschedule_is_step(
    world: World,
    run: Seq<Event>,
    ending: Ending,
    awaiter: Option<Waker>,
)
    requires
        unscheduled(run, ending) || canceled_awaiter(run, awaiter),
        finds(run[0], world),
        world.next(Step::Unschedule) is Some,
    ensures
        ({
            let next = world.next(Step::Unschedule)->0;
            &&& leaves(run[0], next)
            &&& unscheduled(run, ending) ==> released(run.skip(1), next.due > world.due, ending)
            &&& canceled_awaiter(run, awaiter) ==> if next.due > world.due {
                took(run.skip(1), None, taken_as(awaiter))
            } else {
                run.len() == 1 && awaiter is None
            }
        }),
{
    lemma_constants();
    lemma_clear(run[0].found()->0, SCHEDULED);
}

/// Completing the task is a step. It asks for the output to be dropped, or else is followed by the
/// taking of the awaiter, where the step says so.
pub proof fn law_complete_is_step<M>(world: World, run: Seq<Event>, result: Run<'_, M>)
    requires
        completed(run, result),
        finds(run[0], world),
        world.next(Step::Complete) is Some,
    ensures
        ({
            let next = world.next(Step::Complete)->0;
            &&& leaves(run[0], next)
            &&& match result {
                Run::DropOutput(finishing) => {
                    next.phase is Discarding && finishing.notify() == next.pledged
                },
                Run::Over(ending) => {
                    &&& next.phase is Absent
                    &&& released(run.skip(1), next.due > world.due, ending)
                },
                _ => false,
            }
        }),
{
}

/// The end of a run that left the future pending is a step. It asks for the future to be dropped,
/// or for the task to be scheduled again, or else it is followed by the dropping of the reference.
pub proof fn law_park_is_step<M>(world: World, run: Seq<Event>, result: Run<'_, M>)
    requires
        parked(run, false, result),
        finds(run[0], world),
        world.next(Step::Park) is Some,
    ensures
        ({
            let next = world.next(Step::Park)->0;
            &&& leaves(run[0], next)
            &&& match result {
                Run::DropPending(_) => next.phase is Stopping,
                Run::Over(ending) => if ending.reschedule is Some {
                    next.phase is Queued
                } else {
                    &&& next.phase is Absent && next.idle > world.idle
                    &&& dropped_ref(run.skip(1), false, destroyed_as(ending.destroy))
                },
                Run::DropClosed(_) => {
                    &&& next.phase is Absent && next.idle > world.idle
                    &&& dropped_ref(run.skip(1), false, RefDrop::Close)
                },
                _ => false,
            }
        }),
{
}

/// The end of a run whose pending future was dropped since the task was closed is a step. It is
/// followed by the taking of the awaiter where the step says so.
pub proof fn law_stop_is_step<M>(world: World, run: Seq<Event>, result: Run<'_, M>)
    requires
        world.inv(),
        parked(run, true, result),
        finds(run[0], world),
        world.phase is Stopping,
    ensures
        ({
            let next = world.next(Step::Stop)->0;
            &&& leaves(run[0], next)
            &&& next.phase is Absent
            &&& result matches Run::Over(ending)
            &&& released(run.skip(1), next.due > world.due, ending)
        }),
{
}

/// Closing a task whose future has panicked is a step.
pub proof fn law_unwind_is_step(world: World, run: Seq<Event>, already_closed: bool, notify: bool)
    requires
        unwound(run, already_closed, notify),
        finds(run[0], world),
        world.next(Step::Unwind) is Some,
    ensures
        leaves(run[0], world.next(Step::Unwind)->0),
        already_closed <==> world.next(Step::Unwind)->0.phase is Unwinding,
        !already_closed <==> world.next(Step::Unwind)->0.phase is Failed,
        notify == world.next(Step::Unwind)->0.pledged,
{
}

/// The end of a run whose future has panicked after the task was closed is a step. It is followed
/// by the taking of the awaiter where the step says so.
pub proof fn law_unwound_stop_is_step(
    world: World,
    run: Seq<Event>,
    notify: bool,
    ending: Ending,
)
    requires
        world.inv(),
        unwound_released(run, true, notify, ending),
        finds(run[0], world),
        world.phase is Unwound,
        notify == world.pledged,
    ensures
        ({
            let next = world.next(Step::Stop)->0;
            &&& leaves(run[0], next)
            &&& next.phase is Absent
            &&& released(run.skip(1), next.due > world.due, ending)
        }),
{
    let s = run[0].found()->0;
    lemma_constants();
    lemma_two_masks(s, RUNNING, SCHEDULED);
    lemma_clear(s, RUNNING);
    lemma_clear(s & !RUNNING, SCHEDULED);
}

/// A run that takes the awaiter at its end hands out what it finds in the slot to be woken, unless
/// another party works on the slot.
pub proof fn law_ending_wakes_awaiter(run: Seq<Event>, ending: Ending)
    requires
        released(run, true, ending),
    ensures
        run[0].found() matches Some(s) && if word(s).slot_locked() {
            ending.awaiter is None
        } else {
            run[1] matches Event::SlotEmptied { found, .. } && found == ending.awaiter
        },
{
    assert(run.drop_last()[0] == run[0]);
    if !word(run[0].found()->0).slot_locked() {
        assert(run.drop_last()[1] == run[1]);
    }
}

/// Taking the awaiter at the end of a run is three steps where the slot was free, and one where it
/// was not: the attempt to notify, the emptying of the slot, and the end. What is handed out is
/// what the slot had.
///
/// The three worlds are those that the steps are made in.
pub proof fn law_take_is_steps(
    first: World,
    second: World,
    third: World,
    run: Seq<Event>,
    taken: Taken,
)
    requires
        took(run, None, taken),
        finds(run[0], first),
        first.next(Step::Notify) is Some,
        run.len() > 1 ==> {
            &&& second.holder is Run && finds_slot(run[1], second)
            &&& third.holder == second.next(Step::EmptySlot)->0.holder && finds(run[2], third)
        },
    ensures
        leaves(run[0], first.next(Step::Notify)->0),
        run.len() > 1 <==> !first.word.slot_locked(),
        run.len() > 1 ==> {
            &&& first.next(Step::Notify)->0.holder is Run
            &&& third.holder == Holder::RunTook(second.slot)
            &&& taken == taken_as(second.slot)
            &&& third.next(Step::EndNotify) is Some
            &&& leaves(run[2], third.next(Step::EndNotify)->0)
            &&& third.next(Step::EndNotify)->0.wakeups == third.wakeups + count(second.slot)
        },
{
    lemma_took(run, None, taken);
}

/// Taking the awaiter on behalf of the await handle is three steps where the slot was free, and one
/// where it was not. What is handed out to be woken is what the slot had, unless it is the same as
/// the current waker.
///
/// The three worlds are those that the steps are made in.
pub proof fn law_handle_take_is_steps(
    first: World,
    second: World,
    third: World,
    run: Seq<Event>,
    current: Option<Waker>,
    taken: Taken,
)
    requires
        took(run, current, taken),
        finds(run[0], first),
        first.next(Step::HandleNotify) is Some,
        run.len() > 1 ==> {
            &&& second.holder is Handle && finds_slot(run[1], second)
            &&& third.holder == second.next(Step::HandleEmptySlot)->0.holder
            &&& finds(run[2], third)
        },
    ensures
        leaves(run[0], first.next(Step::HandleNotify)->0),
        run.len() > 1 <==> first.next(Step::HandleNotify)->0.holder is Handle,
        run.len() > 1 ==> {
            let end = Step::HandleEndNotify { same: taken is Discard };
            &&& third.holder == Holder::HandleTook(second.slot)
            &&& taken is Nobody <==> second.slot is None
            &&& taken matches Taken::Wake(waker) ==> second.slot == Some(waker)
            &&& taken matches Taken::Discard(waker) ==> second.slot == Some(waker)
            &&& third.next(end) is Some
            &&& leaves(run[2], third.next(end)->0)
        },
{
    lemma_took(run, current, taken);
}

/// The beginning of a registration is a step, after which the slot is held if the registration is
/// to go on.
pub proof fn law_register_is_step(world: World, run: Seq<Event>, locked: bool)
    requires
        began_registering(run, locked),
        finds(run.last(), world),
        world.next(Step::HandleRegister) is Some,
    ensures
        leaves(run.last(), world.next(Step::HandleRegister)->0),
        locked <==> world.next(Step::HandleRegister)->0.holder is Registrar,
{
    let s = run[0].found()->0;
    assert(s | 0 == s) by (bit_vector);
}

/// The end of a registration is two steps, or four if a notification has come in: the filling of
/// the slot, the end, and then the taking back of the awaiter, and the end of that. With a
/// notification, the registration asks for its own waker to be woken. Otherwise that waker is in
/// the slot.
///
/// The four worlds are those that the steps are made in.
pub proof fn law_end_register_is_steps(
    first: World,
    second: World,
    third: World,
    fourth: World,
    run: Seq<Event>,
    waker: Waker,
    result: Registered,
)
    requires
        ended_registering(run, waker, result),
        first.holder is Registrar && finds_slot(run[0], first),
        second.inv(),
        second.holder == first.next(Step::HandleFill { waker })->0.holder,
        finds(run[1], second),
        run.len() > 2 ==> {
            &&& third.inv()
            &&& third.holder == second.next(Step::HandleEndRegister)->0.holder
            &&& finds_slot(run[2], third)
            &&& fourth.inv()
            &&& fourth.holder == third.next(Step::HandleWithdraw)->0.holder
            &&& finds(run[3], fourth)
        },
    ensures
        first.next(Step::HandleFill { waker }) matches Some(next) && next.slot == Some(waker),
        result.displaced == first.slot,
        second.next(Step::HandleEndRegister) is Some,
        leaves(run[1], second.next(Step::HandleEndRegister)->0),
        if run.len() > 2 {
            &&& second.word.notifying
            &&& fourth.holder == Holder::Withdrawn(waker, Some(waker))
            &&& result.notified == Some(waker)
            &&& fourth.next(Step::HandleEndWithdraw) matches Some(next) && leaves(run[3], next)
                && next.holder is Nobody && next.slot is None && !next.word.awaiter
        } else {
            &&& !second.word.notifying
            &&& result.notified is None
            &&& second.next(Step::HandleEndRegister)->0.holder is Nobody
            &&& second.next(Step::HandleEndRegister)->0.slot == Some(waker)
        },
{
}

} // verus!
