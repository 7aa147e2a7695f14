use async_task::schedule::ScheduleInfo;
use async_task::state::{
    AWAITER, CLOSED, COMPLETED, NOTIFYING, REFERENCE, REGISTERING, RUNNING, SCHEDULED, TASK,
};
use async_task::transition::{self, Action, Consumed, Parked, RefDrop, Snapshot, WakerDrop};

const HUGE: usize = isize::MAX as usize + 1;

#[test]
fn flags_are_distinct_bits() {
    let all = [
        SCHEDULED, RUNNING, COMPLETED, CLOSED, TASK, AWAITER, REGISTERING, NOTIFYING, REFERENCE,
    ];
    for (i, flag) in all.iter().enumerate() {
        assert_eq!(*flag, 1 << i);
    }
}

#[test]
fn words_of_new_and_revived_tasks() {
    assert_eq!(transition::initial(), SCHEDULED | TASK | REFERENCE);
    assert_eq!(transition::initial(), 0x111);
    assert_eq!(transition::revival(), SCHEDULED | CLOSED | REFERENCE);
    assert_eq!(transition::revival(), 0x109);
}

#[test]
fn wake_marks_an_idle_task() {
    let idle = TASK | REFERENCE;
    assert_eq!(transition::wake(idle), Some(idle | SCHEDULED));
    assert_eq!(transition::after_wake(idle), Consumed::IntoRunnable);
    assert_eq!(transition::wake_by_ref(idle), Some((idle | SCHEDULED) + REFERENCE));
    assert_eq!(
        transition::after_wake_by_ref(idle),
        Action::ScheduleDirectly(ScheduleInfo::new(false))
    );
}

#[test]
fn wake_is_wake_by_ref_and_drop() {
    for state in [REFERENCE, 3 * REFERENCE | TASK | AWAITER] {
        let by_ref = transition::wake_by_ref(state).unwrap();
        assert_eq!(transition::wake(state), Some(by_ref - REFERENCE));
        assert_eq!(transition::after_drop_waker(by_ref), WakerDrop::Keep);
    }
    let running = RUNNING | REFERENCE;
    assert_eq!(transition::wake(running), transition::wake_by_ref(running));
}

#[test]
fn wake_marks_a_running_task_without_scheduling_it() {
    let running = RUNNING | TASK | REFERENCE;
    assert_eq!(transition::wake(running), Some(running | SCHEDULED));
    assert_eq!(transition::after_wake(running), Consumed::Dropped);
    assert_eq!(transition::wake_by_ref(running), Some(running | SCHEDULED));
    assert_eq!(transition::after_wake_by_ref(running), Action::Nothing);
}

#[test]
fn second_wake_changes_nothing() {
    let scheduled = SCHEDULED | TASK | REFERENCE;
    assert_eq!(transition::wake(scheduled), Some(scheduled));
    assert_eq!(transition::after_wake(scheduled), Consumed::Dropped);
    assert_eq!(transition::wake_by_ref(scheduled), Some(scheduled));
    assert_eq!(transition::after_wake_by_ref(scheduled), Action::Nothing);
    let once = transition::wake_by_ref(TASK).unwrap();
    assert_eq!(transition::wake_by_ref(once), Some(once));
}

#[test]
fn finished_tasks_are_not_woken() {
    for state in [COMPLETED | TASK, CLOSED | TASK, COMPLETED | CLOSED] {
        assert_eq!(transition::wake(state), None);
        assert_eq!(transition::wake_by_ref(state), None);
        assert_eq!(transition::after_wake(state), Consumed::Dropped);
        assert_eq!(transition::after_wake_by_ref(state), Action::Nothing);
    }
}

#[test]
fn overflowing_count_aborts() {
    assert_eq!(transition::after_wake_by_ref(HUGE), Action::Abort);
    assert_eq!(
        transition::after_wake_by_ref((HUGE - 1) & !(REFERENCE - 1)),
        Action::ScheduleDirectly(ScheduleInfo::new(false))
    );
    assert!(transition::overflows(HUGE));
    assert!(!transition::overflows(HUGE - 1));
    // The count wraps around at its very end.
    assert_eq!(transition::wake_by_ref(usize::MAX & !(REFERENCE - 1)), Some(SCHEDULED));
}

#[test]
fn last_waker_decides_the_end() {
    assert_eq!(transition::after_drop_waker(2 * REFERENCE), WakerDrop::Keep);
    assert_eq!(transition::after_drop_waker(REFERENCE | TASK), WakerDrop::Keep);
    assert_eq!(transition::after_drop_waker(REFERENCE), WakerDrop::Revive);
    assert_eq!(transition::after_drop_waker(REFERENCE | AWAITER), WakerDrop::Revive);
    assert_eq!(transition::after_drop_waker(REFERENCE | CLOSED), WakerDrop::Destroy);
    assert_eq!(transition::after_drop_waker(REFERENCE | COMPLETED | CLOSED), WakerDrop::Destroy);
}

#[test]
fn last_reference_destroys_a_task_without_its_future() {
    for gone in [true, false] {
        let last = REFERENCE | CLOSED | AWAITER;
        assert_eq!(transition::after_drop_ref(last, gone), RefDrop::Destroy);
        assert_eq!(
            transition::after_drop_ref(REFERENCE | COMPLETED | CLOSED, gone),
            RefDrop::Destroy
        );
        assert_eq!(transition::after_drop_ref(REFERENCE | TASK, gone), RefDrop::Keep);
        assert_eq!(transition::after_drop_ref(2 * REFERENCE | CLOSED, gone), RefDrop::Keep);
    }
    assert_eq!(transition::after_drop_ref(REFERENCE, true), RefDrop::Destroy);
}

#[test]
fn last_reference_closes_a_task_with_its_future() {
    assert_eq!(transition::after_drop_ref(REFERENCE, false), RefDrop::Close);
    assert_eq!(transition::after_drop_ref(REFERENCE | AWAITER, false), RefDrop::Close);
    assert_eq!(transition::abandon(REFERENCE | AWAITER), REFERENCE | AWAITER | CLOSED);
}

#[test]
fn run_starts_unless_closed() {
    let queued = SCHEDULED | TASK | AWAITER | REFERENCE;
    assert_eq!(transition::start(queued), Some(RUNNING | TASK | AWAITER | REFERENCE));
    assert_eq!(transition::start(queued | CLOSED), None);
}

#[test]
fn completion_closes_detached_tasks() {
    let running = SCHEDULED | RUNNING | REFERENCE;
    assert_eq!(transition::complete(running | TASK), Some(COMPLETED | TASK | REFERENCE));
    assert_eq!(transition::complete(running), Some(COMPLETED | CLOSED | REFERENCE));
    assert_eq!(
        transition::complete(running | TASK | CLOSED),
        Some(COMPLETED | CLOSED | TASK | REFERENCE)
    );
    assert!(!transition::drops_output(running | TASK));
    assert!(transition::drops_output(running));
    assert!(transition::drops_output(running | TASK | CLOSED));
}

#[test]
fn parking_keeps_wakes_unless_closed() {
    let running = RUNNING | TASK | REFERENCE;
    assert_eq!(transition::park(running, false), Some(TASK | REFERENCE));
    assert_eq!(transition::after_park(running), Parked::Idle);
    assert_eq!(
        transition::park(running | SCHEDULED, false),
        Some(SCHEDULED | TASK | REFERENCE)
    );
    assert_eq!(transition::after_park(running | SCHEDULED), Parked::Woken);
    assert_eq!(transition::park(running | SCHEDULED | CLOSED, false), None);
    assert_eq!(
        transition::park(running | SCHEDULED | CLOSED, true),
        Some(CLOSED | TASK | REFERENCE)
    );
    assert_eq!(transition::after_park(running | SCHEDULED | CLOSED), Parked::Closed);
}

#[test]
fn panic_closes_the_task() {
    let running = SCHEDULED | RUNNING | TASK | REFERENCE;
    assert_eq!(transition::unwind(running), Some(CLOSED | TASK | REFERENCE));
    assert_eq!(transition::unwind(running | CLOSED), None);
}

#[test]
fn cancel_closes_unfinished_tasks() {
    assert_eq!(transition::cancel(SCHEDULED | TASK), Some(SCHEDULED | CLOSED | TASK));
    assert_eq!(transition::cancel(COMPLETED | TASK), None);
    assert_eq!(transition::cancel(CLOSED | TASK), None);
}

#[test]
fn slot_flags() {
    assert!(transition::has_awaiter(AWAITER));
    assert!(!transition::has_awaiter(NOTIFYING | REGISTERING));
    assert!(transition::slot_locked(NOTIFYING));
    assert!(transition::slot_locked(REGISTERING));
    assert!(!transition::slot_locked(AWAITER | TASK));
    assert!(transition::is_notifying(NOTIFYING));
    assert!(!transition::is_notifying(REGISTERING));
}

#[test]
fn registration_words() {
    assert_eq!(transition::register(TASK), Some(TASK | REGISTERING));
    assert_eq!(transition::register(TASK | NOTIFYING), None);
    assert_eq!(transition::registered(TASK | REGISTERING), Some(TASK | AWAITER));
    assert_eq!(transition::registered(TASK | REGISTERING | NOTIFYING), None);
    let interrupted = TASK | REGISTERING | NOTIFYING | AWAITER;
    assert_eq!(transition::interrupted(interrupted, true), Some(TASK));
    assert_eq!(transition::interrupted(interrupted, false), Some(TASK | AWAITER));
}

#[test]
fn snapshot_reads_every_field() {
    assert_eq!(
        transition::snapshot(SCHEDULED | COMPLETED | TASK | 7 * REFERENCE),
        Snapshot {
            scheduled: true,
            running: false,
            completed: true,
            closed: false,
            awaiter: false,
            task: true,
            ref_count: 7,
        }
    );
    assert_eq!(
        transition::snapshot(RUNNING | CLOSED | AWAITER | REGISTERING | NOTIFYING),
        Snapshot {
            scheduled: false,
            running: true,
            completed: false,
            closed: true,
            awaiter: true,
            task: false,
            ref_count: 0,
        }
    );
}
