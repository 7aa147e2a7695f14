//! Task abstraction for building executors.
//!
//! To spawn a future onto an executor, we first need to allocate it on the heap and keep some
//! state attached to it. The state indicates whether the future is ready for polling, waiting to
//! be woken up, or completed. Such a stateful future is called a *task*.
//!
//! A task has a [`Runnable`] that is used to poll its future, and an await handle that is used to
//! await its output. Method [`run()`][`Runnable::run()`] polls the future once. Then, the
//! [`Runnable`] vanishes and only reappears when a waker wakes the task, thus scheduling it to be
//! run again.
//!
//! All that several threads share about a task is one state word and one slot for the awaiter:
//!
//! - [`state`] says what a state word means, and [`transition`] what each operation makes of the
//!   word that it finds.
//! - [`header`], [`raw`], [`run`] and [`runnable`] are the operations themselves. Their contracts
//!   speak of the entries that they add to a [`journal::Journal`].
//! - [`protocol`] is a model of a task and all its users. Its laws hold whatever the threads do.
//!   The laws of [`refinement`] say that the operations are the steps of that model.
//! - [`decisions`] and [`conduct`] say what each decision and each operation does for its caller.
//! - [`awaiting`] says what becomes of the waker that is registered with a task.
//! - [`layout`], [`builder`], [`schedule`] and [`local`] are about the creation of tasks.
//!
//! The memory of a task, its future and its output belong to the caller. The operations say what
//! is to be done with them.
pub mod awaiting;
pub mod builder;
pub mod conduct;
pub mod decisions;
pub mod header;
pub mod journal;
pub mod layout;
pub mod local;
pub mod protocol;
pub mod raw;
pub mod refinement;
pub mod run;
pub mod runnable;
pub mod schedule;
mod sealed;
pub mod shared;
pub mod state;
pub mod transition;

pub use builder::Builder;
pub use runnable::Runnable;
pub use schedule::{Schedule, ScheduleInfo, WithInfo};
