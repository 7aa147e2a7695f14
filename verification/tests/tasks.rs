use std::sync::atomic::{AtomicUsize, Ordering};
use std::sync::Arc;
use std::task::{Wake, Waker};

use async_task::header::{Header, Taken};
use async_task::raw::{Handoff, Woken};
use async_task::run::{Ending, Polled, Run};
use async_task::schedule::ScheduleInfo;
use async_task::journal::Journal;
use async_task::transition::{Action, RefDrop, Snapshot};
use async_task::Runnable;

struct Counter(AtomicUsize);

impl Wake for Counter {
    fn wake(self: Arc<Self>) {
        self.0.fetch_add(1, Ordering::SeqCst);
    }
}

fn counter() -> (Arc<Counter>, Waker) {
    let counter = Arc::new(Counter(AtomicUsize::new(0)));
    let waker = Waker::from(counter.clone());
    (counter, waker)
}

/// Makes the header of a task, and a journal that is kept on it.
fn task<M>(metadata: M, propagate_panic: bool) -> (Header<M>, Journal) {
    let mut journal = Journal::new();
    let header = Header::new(metadata, propagate_panic, &mut journal);
    (header, journal)
}

fn look<M>(header: &Header<M>, journal: &mut Journal) -> Snapshot {
    header.snapshot(journal)
}

fn await_with<M>(header: &Header<M>, waker: Waker, journal: &mut Journal) {
    let registering = header.register(journal).expect("nobody notifies");
    let registered = registering.store(waker, journal);
    assert!(registered.displaced.is_none());
    assert!(registered.notified.is_none());
}

fn start<'t, M>(header: &'t Header<M>, journal: &mut Journal) -> Run<'t, M> {
    Runnable::from_raw(header).run(journal)
}

fn poll<'t, M>(run: Run<'t, M>, polled: Polled, journal: &mut Journal) -> Run<'t, M> {
    match run {
        Run::Poll(running) => running.polled(polled, journal),
        _ => panic!("polling is not due"),
    }
}

fn over<M>(run: Run<'_, M>) -> Ending {
    match run {
        Run::Over(ending) => ending,
        _ => panic!("the run is not over"),
    }
}

/// Runs the task once with a future that stays pending.
fn run_pending<M>(header: &Header<M>, journal: &mut Journal) -> Ending {
    let run = start(header, journal);
    over(poll(run, Polled::Pending, journal))
}

fn close<M>(header: &Header<M>, journal: &mut Journal) {
    Runnable::from_raw(header).cancel(journal);
}

#[test]
fn new_task_is_scheduled() {
    let (header, mut journal) = task("name", false);
    assert_eq!(
        look(&header, &mut journal),
        Snapshot {
            scheduled: true,
            running: false,
            completed: false,
            closed: false,
            awaiter: false,
            task: true,
            ref_count: 1,
        }
    );
    assert_eq!(*header.metadata(), "name");
    assert!(!header.propagate_panic());
}

#[test]
fn runnable_survives_into_raw() {
    let (header, mut journal) = task(7u32, false);
    let runnable = Runnable::from_raw(&header);
    assert_eq!(*runnable.metadata(), 7);
    let raw = runnable.into_raw();
    assert!(std::ptr::eq(raw, &header));
    let runnable = Runnable::from_raw(raw);
    assert_eq!(*runnable.metadata(), 7);
    assert!(look(&header, &mut journal).scheduled);
}

#[test]
fn scheduling_guards_functions_with_captures() {
    let (header, mut journal) = task((), false);
    let plain = Runnable::from_raw(&header).schedule(0, &mut journal);
    assert_eq!(plain, Handoff::Plain(ScheduleInfo::new(false)));
    assert_eq!(look(&header, &mut journal).ref_count, 1);
    let guarded = Runnable::from_raw(&header).schedule(16, &mut journal);
    assert_eq!(guarded, Handoff::Guarded(ScheduleInfo::new(false)));
    assert_eq!(look(&header, &mut journal).ref_count, 2);
    let woken = header.schedule(16, ScheduleInfo::new(true), &mut journal);
    assert_eq!(woken, Handoff::Guarded(ScheduleInfo::new(true)));
    assert_eq!(look(&header, &mut journal).ref_count, 3);
}

#[test]
fn wakers_are_counted() {
    let (header, mut journal) = task((), false);
    assert_eq!(Runnable::from_raw(&header).waker(&mut journal), Action::Nothing);
    assert_eq!(header.clone_waker(&mut journal), Action::Nothing);
    assert_eq!(look(&header, &mut journal).ref_count, 3);
    assert_eq!(header.drop_waker(&mut journal), Action::Nothing);
    assert_eq!(look(&header, &mut journal).ref_count, 2);
    assert_eq!(header.drop_ref(true, &mut journal), RefDrop::Keep);
    assert_eq!(look(&header, &mut journal).ref_count, 1);
    // The await handle keeps the task.
    assert_eq!(header.drop_waker(&mut journal), Action::Nothing);
    assert_eq!(look(&header, &mut journal).ref_count, 0);
}

#[test]
fn waker_schedules_the_task_again() {
    let (header, mut journal) = task((), false);
    Runnable::from_raw(&header).waker(&mut journal);
    let ending = run_pending(&header, &mut journal);
    assert!(!ending.destroy);
    assert!(!ending.woken());
    assert!(!look(&header, &mut journal).scheduled);
    assert_eq!(look(&header, &mut journal).ref_count, 1);

    let woken = header.wake(0, &mut journal);
    assert_eq!(woken, Woken::Consumed(Action::Schedule(ScheduleInfo::new(false))));
    assert!(look(&header, &mut journal).scheduled);
    assert_eq!(look(&header, &mut journal).ref_count, 1);
}

#[test]
fn waking_by_reference_adds_a_reference() {
    let (header, mut journal) = task((), false);
    Runnable::from_raw(&header).waker(&mut journal);
    run_pending(&header, &mut journal);
    let info = ScheduleInfo::new(false);
    assert_eq!(header.wake_by_ref(&mut journal), Action::ScheduleDirectly(info));
    assert_eq!(look(&header, &mut journal).ref_count, 2);
    assert_eq!(header.wake_by_ref(&mut journal), Action::Nothing);
    assert_eq!(look(&header, &mut journal).ref_count, 2);
}

#[test]
fn functions_with_captures_are_woken_by_reference() {
    let (header, mut journal) = task((), false);
    Runnable::from_raw(&header).waker(&mut journal);
    run_pending(&header, &mut journal);
    let info = ScheduleInfo::new(false);
    assert_eq!(header.wake(8, &mut journal), Woken::ByRef(Action::ScheduleDirectly(info)));
    assert_eq!(look(&header, &mut journal).ref_count, 2);
}

#[test]
fn waking_a_scheduled_task_drops_the_waker() {
    let (header, mut journal) = task((), false);
    Runnable::from_raw(&header).waker(&mut journal);
    assert_eq!(header.wake(0, &mut journal), Woken::Consumed(Action::Nothing));
    assert_eq!(look(&header, &mut journal).ref_count, 1);
}

#[test]
fn ready_task_completes() {
    let (header, mut journal) = task((), false);
    let (count, waker) = counter();
    await_with(&header, waker, &mut journal);
    assert!(look(&header, &mut journal).awaiter);
    let run = start(&header, &mut journal);
    assert!(look(&header, &mut journal).running);
    assert!(!look(&header, &mut journal).scheduled);
    let run = poll(run, Polled::Ready, &mut journal);
    assert!(matches!(run, Run::StoreOutput(_)));
    assert!(!look(&header, &mut journal).completed);
    let ending = over(run.done(&mut journal));
    let seen = look(&header, &mut journal);
    assert!(seen.completed && !seen.running && !seen.scheduled && !seen.closed && !seen.awaiter);
    assert_eq!(seen.ref_count, 0);
    assert!(!ending.destroy);
    assert!(ending.reschedule.is_none());
    ending.awaiter.expect("the awaiter is woken").wake();
    assert_eq!(count.0.load(Ordering::SeqCst), 1);
}

#[test]
fn output_of_closed_task_is_dropped() {
    let (header, mut journal) = task((), false);
    let (_, waker) = counter();
    await_with(&header, waker, &mut journal);
    let run = start(&header, &mut journal);
    let run = poll(run, Polled::Ready, &mut journal);
    close(&header, &mut journal);
    let run = run.done(&mut journal);
    assert!(matches!(run, Run::DropOutput(_)));
    assert!(look(&header, &mut journal).completed && look(&header, &mut journal).closed);
    assert_eq!(look(&header, &mut journal).ref_count, 1);
    let ending = over(run.done(&mut journal));
    assert!(ending.awaiter.is_some());
    assert_eq!(look(&header, &mut journal).ref_count, 0);
}

#[test]
fn task_woken_while_running_is_rescheduled() {
    let (header, mut journal) = task((), false);
    let run = start(&header, &mut journal);
    assert_eq!(header.wake_by_ref(&mut journal), Action::Nothing);
    let ending = over(poll(run, Polled::Pending, &mut journal));
    assert!(ending.woken());
    assert_eq!(ending.reschedule, Some(ScheduleInfo::new(true)));
    assert!(!ending.destroy);
    assert!(look(&header, &mut journal).scheduled && !look(&header, &mut journal).running);
    assert_eq!(look(&header, &mut journal).ref_count, 1);
}

#[test]
fn task_closed_while_running_drops_its_future() {
    let (header, mut journal) = task((), false);
    let (_, waker) = counter();
    await_with(&header, waker, &mut journal);
    let run = start(&header, &mut journal);
    header.wake_by_ref(&mut journal);
    close(&header, &mut journal);
    let run = poll(run, Polled::Pending, &mut journal);
    assert!(matches!(run, Run::DropPending(_)));
    assert!(look(&header, &mut journal).running);
    let ending = over(run.done(&mut journal));
    assert!(ending.awaiter.is_some());
    assert!(!ending.woken());
    let seen = look(&header, &mut journal);
    assert!(seen.closed && !seen.running && !seen.scheduled && !seen.awaiter);
    assert_eq!(seen.ref_count, 0);
}

#[test]
fn closed_task_is_not_polled() {
    let (header, mut journal) = task((), false);
    let (_, waker) = counter();
    await_with(&header, waker, &mut journal);
    close(&header, &mut journal);
    let run = start(&header, &mut journal);
    assert!(matches!(run, Run::DropClosed(_)));
    assert!(look(&header, &mut journal).scheduled);
    let ending = over(run.done(&mut journal));
    assert!(ending.awaiter.is_some());
    assert!(!ending.destroy && !ending.woken());
    assert!(!look(&header, &mut journal).scheduled);
    assert_eq!(look(&header, &mut journal).ref_count, 0);
}

#[test]
fn panic_goes_on_in_the_caller() {
    let (header, mut journal) = task((), false);
    let (_, waker) = counter();
    await_with(&header, waker, &mut journal);
    let run = start(&header, &mut journal);
    let run = poll(run, Polled::Panicked, &mut journal);
    assert!(matches!(run, Run::DropPanicked(_)));
    assert!(look(&header, &mut journal).closed && !look(&header, &mut journal).running);
    let ending = over(run.done(&mut journal));
    assert!(ending.awaiter.is_some());
    assert_eq!(look(&header, &mut journal).ref_count, 0);
}

#[test]
fn panic_of_closed_task_stops_it() {
    let (header, mut journal) = task((), false);
    let run = start(&header, &mut journal);
    close(&header, &mut journal);
    let run = poll(run, Polled::Panicked, &mut journal);
    assert!(matches!(run, Run::DropPanicked(_)));
    assert!(look(&header, &mut journal).running);
    let ending = over(run.done(&mut journal));
    assert!(ending.awaiter.is_none());
    assert!(!look(&header, &mut journal).running);
    assert_eq!(look(&header, &mut journal).ref_count, 0);
}

#[test]
fn propagated_panic_is_an_output() {
    let (header, mut journal) = task((), true);
    assert!(header.propagate_panic());
    let run = start(&header, &mut journal);
    let run = poll(run, Polled::Panicked, &mut journal);
    assert!(matches!(run, Run::StoreOutput(_)));
    over(run.done(&mut journal));
    assert!(look(&header, &mut journal).completed && !look(&header, &mut journal).closed);
}

#[test]
fn runs_wait_for_polling_and_stay_over() {
    let (header, mut journal) = task((), false);
    let run = start(&header, &mut journal).done(&mut journal);
    assert!(matches!(run, Run::Poll(_)));
    let run = poll(run, Polled::Pending, &mut journal).done(&mut journal);
    assert!(matches!(run, Run::Over(_)));
}

#[test]
fn dropping_the_runnable_cancels_the_task() {
    let (header, mut journal) = task((), false);
    let (_, waker) = counter();
    await_with(&header, waker, &mut journal);
    let canceling = Runnable::from_raw(&header).cancel(&mut journal);
    assert!(look(&header, &mut journal).closed && look(&header, &mut journal).scheduled);
    let canceled = canceling.future_dropped(&mut journal);
    assert!(canceled.awaiter.is_some());
    assert!(!look(&header, &mut journal).scheduled);
    assert_eq!(look(&header, &mut journal).ref_count, 1);
    assert!(!canceled.reference.release(&mut journal));
    assert_eq!(look(&header, &mut journal).ref_count, 0);
    // A closed task can't be woken up any more.
    assert_eq!(header.wake_by_ref(&mut journal), Action::Nothing);
}

#[test]
fn nobody_is_taken_from_an_empty_slot() {
    let (header, mut journal) = task((), false);
    assert!(matches!(header.take(None, &mut journal), Taken::Nobody));
    assert!(!look(&header, &mut journal).awaiter);
}

#[test]
fn awaiter_is_compared_with_the_current_waker() {
    let (header, mut journal) = task((), false);
    let (_, mine) = counter();
    let (_, other) = counter();

    await_with(&header, mine.clone(), &mut journal);
    assert!(matches!(header.take(Some(&mine), &mut journal), Taken::Discard(_)));
    assert!(!look(&header, &mut journal).awaiter);

    await_with(&header, mine.clone(), &mut journal);
    assert!(matches!(header.take(Some(&other), &mut journal), Taken::Wake(_)));

    await_with(&header, mine, &mut journal);
    assert!(matches!(header.take(None, &mut journal), Taken::Wake(_)));
    assert!(matches!(header.take(None, &mut journal), Taken::Nobody));
}

#[test]
fn new_awaiter_displaces_the_old_one() {
    let (header, mut journal) = task((), false);
    let (first, waker) = counter();
    await_with(&header, waker, &mut journal);
    let (second, waker) = counter();
    let registered = header.register(&mut journal).unwrap().store(waker, &mut journal);
    registered.displaced.unwrap().wake();
    assert_eq!(first.0.load(Ordering::SeqCst), 1);
    match header.take(None, &mut journal) {
        Taken::Wake(waker) => waker.wake(),
        _ => panic!("an awaiter is registered"),
    }
    assert_eq!(second.0.load(Ordering::SeqCst), 1);
}

#[test]
fn notification_during_registration_is_not_lost() {
    let (header, mut journal) = task((), false);
    let registering = header.register(&mut journal).unwrap();
    // The notification finds the slot locked, and leaves the rest to the registration.
    assert!(matches!(header.take(None, &mut journal), Taken::Nobody));
    let (count, waker) = counter();
    let registered = registering.store(waker, &mut journal);
    registered.notified.expect("the notification came in").wake();
    assert_eq!(count.0.load(Ordering::SeqCst), 1);
    assert!(!look(&header, &mut journal).awaiter);
    // Nothing is left of either.
    assert!(header.register(&mut journal).is_some());
}

#[test]
fn last_registration_wins() {
    let (header, mut journal) = task((), false);
    let (first, waker) = counter();
    await_with(&header, waker, &mut journal);
    let (second, waker) = counter();
    let registered = header.register(&mut journal).unwrap().store(waker, &mut journal);
    assert!(registered.displaced.is_some());
    match header.take(None, &mut journal) {
        Taken::Wake(waker) => waker.wake(),
        _ => panic!("an awaiter is registered"),
    }
    assert!(matches!(header.take(None, &mut journal), Taken::Nobody));
    assert_eq!(first.0.load(Ordering::SeqCst), 0);
    assert_eq!(second.0.load(Ordering::SeqCst), 1);
    let seen = look(&header, &mut journal);
    assert!(seen.scheduled && seen.task && !seen.awaiter);
    assert_eq!(seen.ref_count, 1);
}

#[test]
fn pending_run_keeps_the_awaiter() {
    let (header, mut journal) = task((), false);
    let (count, waker) = counter();
    await_with(&header, waker, &mut journal);
    let ending = run_pending(&header, &mut journal);
    assert!(ending.awaiter.is_none());
    assert!(look(&header, &mut journal).awaiter);
    assert_eq!(count.0.load(Ordering::SeqCst), 0);
}

#[test]
fn awaiter_is_dropped_with_the_header() {
    let (header, mut journal) = task((), false);
    let (count, waker) = counter();
    await_with(&header, waker, &mut journal);
    assert_eq!(Arc::strong_count(&count), 2);
    drop(header);
    assert_eq!(Arc::strong_count(&count), 1);
    assert_eq!(count.0.load(Ordering::SeqCst), 0);
}

#[test]
fn copied_journals_go_their_own_ways() {
    let (header, mut journal) = task((), false);
    let mut other = journal.clone();
    assert_eq!(header.clone_waker(&mut other), Action::Nothing);
    assert_eq!(look(&header, &mut journal).ref_count, 2);
}
