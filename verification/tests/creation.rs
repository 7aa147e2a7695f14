use std::cell::RefCell;

use async_task::builder::boxes_future;
use async_task::layout::{eval_task_layout, task_layout, Layout};
use async_task::local::{Access, Checked};
use async_task::journal::Journal;
use async_task::{Builder, Runnable, Schedule, ScheduleInfo, WithInfo};

const fn layout(size: usize, align: usize) -> Layout {
    Layout { size, align }
}

#[test]
fn builder_passes_its_settings_on() {
    let blank = Builder::new()
        .allocate::<[u64; 6], (), [u32; 5], u64>(&mut Journal::new())
        .unwrap();
    assert_eq!(*blank.header.metadata(), ());
    assert!(!blank.header.propagate_panic());

    let mut journal = Journal::new();
    let blank = Builder::new()
        .propagate_panic(true)
        .metadata("name")
        .propagate_panic(true)
        .allocate::<[u64; 6], (), [u32; 5], u64>(&mut journal)
        .unwrap();
    assert_eq!(*blank.header.metadata(), "name");
    assert!(blank.header.propagate_panic());
    let seen = blank.header.snapshot(&mut journal);
    assert!(seen.scheduled && seen.task && !seen.running && !seen.closed);
    assert_eq!(seen.ref_count, 1);
}

#[test]
fn order_of_settings_does_not_matter() {
    for blank in [
        Builder::new().propagate_panic(true).metadata(5u8),
        Builder::new().metadata(5u8).propagate_panic(true),
    ]
    .map(|builder| builder.allocate::<u64, (), (), ()>(&mut Journal::new()).unwrap())
    {
        assert_eq!(*blank.header.metadata(), 5);
        assert!(blank.header.propagate_panic());
    }
}

#[test]
fn default_builder_has_default_metadata() {
    let blank = Builder::<u32>::default().allocate::<u64, (), (), ()>(&mut Journal::new()).unwrap();
    assert_eq!(*blank.header.metadata(), 0);
    assert!(!blank.header.propagate_panic());
}

#[test]
fn tasks_can_be_ordered_by_metadata() {
    let headers: Vec<_> = [1usize, 2, 3]
        .iter()
        .map(|priority| {
            Builder::new()
                .metadata(*priority)
                .allocate::<u64, (), (), ()>(&mut Journal::new())
                .unwrap()
                .header
        })
        .collect();
    let mut runnables: Vec<_> = headers.iter().map(Runnable::from_raw).collect();
    runnables.sort_by_key(|runnable| *runnable.metadata());
    let mut seen = vec![];
    while let Some(runnable) = runnables.pop() {
        seen.push(*runnable.metadata());
    }
    assert_eq!(seen, vec![3, 2, 1]);
}

#[test]
fn large_futures_are_boxed() {
    assert!(!boxes_future::<[u8; 2047]>());
    assert!(boxes_future::<[u8; 2048]>());
    assert!(boxes_future::<[u8; 5000]>());
    assert!(!boxes_future::<()>());
}

#[test]
fn fields_follow_each_other_with_padding() {
    let task = task_layout(layout(24, 8), layout(1, 1), layout(8, 4), layout(16, 16)).unwrap();
    assert_eq!(task.offset_s, 24);
    assert_eq!(task.offset_f, 32);
    assert_eq!(task.offset_r, 32);
    assert_eq!(task.layout, layout(48, 16));
}

#[test]
fn output_shares_the_place_of_the_future() {
    let task = task_layout(layout(40, 8), layout(0, 1), layout(100, 4), layout(24, 8)).unwrap();
    assert_eq!(task.offset_s, 40);
    assert_eq!(task.offset_f, 40);
    assert_eq!(task.offset_r, 40);
    assert_eq!(task.layout, layout(140, 8));
}

#[test]
fn layout_of_types() {
    let task = eval_task_layout::<[u64; 3], u8, u32, u64>().unwrap();
    assert_eq!(task.offset_s, 24);
    assert_eq!(task.offset_f, std::mem::align_of::<u64>().max(4) + 24);
    assert_eq!(task.layout.size, task.offset_f + 8);
    assert_eq!(Layout::new::<[u16; 3]>(), layout(6, 2));
}

#[test]
fn too_large_tasks_have_no_layout() {
    let half = isize::MAX as usize / 2;
    assert!(task_layout(layout(half, 1), layout(half, 1), layout(1, 1), layout(0, 1)).is_some());
    assert!(task_layout(layout(half, 1), layout(half, 1), layout(2, 1), layout(0, 1)).is_none());
    let more = half + 2;
    assert!(task_layout(layout(half, 1), layout(more, 1), layout(0, 1), layout(0, 1)).is_none());
    // Rounding up to the alignment would make it too large.
    assert!(task_layout(layout(half, 1), layout(half, 1), layout(0, 8), layout(0, 1)).is_none());
}

#[test]
fn extended_layouts() {
    assert_eq!(layout(5, 1).extend(layout(8, 8)), Some((layout(16, 8), 8)));
    assert_eq!(layout(8, 8).extend(layout(3, 1)), Some((layout(11, 8), 8)));
    assert_eq!(layout(0, 1).extend(layout(0, 1)), Some((layout(0, 1), 0)));
    assert_eq!(layout(isize::MAX as usize, 1).extend(layout(1, 1)), None);
    assert_eq!(layout(5, 4).union(layout(3, 8)), layout(5, 8));
}

#[test]
fn plain_functions_schedule() {
    let queue = RefCell::new(vec![]);
    let schedule = |runnable: u32| queue.borrow_mut().push(runnable);
    schedule.schedule(4, ScheduleInfo::new(true));
    schedule.schedule(5, ScheduleInfo::new(false));
    assert_eq!(*queue.borrow(), vec![4, 5]);
}

#[test]
fn functions_with_info_are_told() {
    let queue = RefCell::new(vec![]);
    let slot = RefCell::new(None);
    let schedule = |runnable: u32, info: ScheduleInfo| {
        if info.woken_while_running {
            queue.borrow_mut().push(runnable)
        } else {
            let last = slot.borrow_mut().replace(runnable);
            if let Some(last) = last {
                queue.borrow_mut().push(last)
            }
        }
    };
    let schedule = WithInfo::from(schedule);
    schedule.schedule(1, ScheduleInfo::new(false));
    schedule.schedule(2, ScheduleInfo::new(true));
    schedule.schedule(3, ScheduleInfo::new(false));
    assert_eq!(*queue.borrow(), vec![2, 1]);
    assert_eq!(*slot.borrow(), Some(3));
}

#[test]
fn local_futures_stay_on_their_thread() {
    let checked = Checked::new(3u64);
    assert_eq!(checked.check(&3, Access::Poll), Ok(()));
    assert_eq!(checked.check(&3, Access::Drop), Ok(()));
    assert_eq!(
        checked.check(&4, Access::Poll),
        Err("local task polled by a thread that didn't spawn it")
    );
    assert_eq!(
        checked.check(&4, Access::Drop),
        Err("local task dropped by a thread that didn't spawn it")
    );
}
