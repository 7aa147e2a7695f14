//! Scheduling functions and what they are told.
use vstd::prelude::*;

use crate::sealed::Sealed;

verus! {

/// Extra scheduling information that can be passed to the scheduling function.
///
/// The data source of this struct is directly from the actual implementation of the crate
/// itself, different from the metadata of a `Runnable`, which is managed by the caller.
#[derive(Debug, Copy, Clone, PartialEq, Eq, Structural)]
#[non_exhaustive]
pub struct ScheduleInfo {
    /// Indicates whether the task gets woken up while running.
    ///
    /// It is set to true usually because the task has yielded itself to the scheduler.
    pub woken_while_running: bool,
}

impl ScheduleInfo {
    /// Tells whether the task was woken up while running.
    pub fn new(woken_while_running: bool) -> (info: Self)
        ensures
            info == (ScheduleInfo { woken_while_running }),
    {
        ScheduleInfo { woken_while_running }
    }
}

/// The trait for scheduling functions, which take a runnable `R`.
pub trait Schedule<R>: Sealed<R> {
    /// The scheduling function may be called with these arguments.
    spec fn accepts(&self, runnable: R, info: ScheduleInfo) -> bool;

    /// A call of the scheduling function with these arguments may end like this.
    spec fn finishes(&self, runnable: R, info: ScheduleInfo) -> bool;

    /// The actual scheduling procedure.
    fn schedule(&self, runnable: R, info: ScheduleInfo)
        requires
            self.accepts(runnable, info),
        ensures
            self.finishes(runnable, info),
    ;
}

impl<R, F> Schedule<R> for F where F: Fn(R) {
    open spec fn accepts(&self, runnable: R, info: ScheduleInfo) -> bool {
        call_requires(*self, (runnable,))
    }

    open spec fn finishes(&self, runnable: R, info: ScheduleInfo) -> bool {
        call_ensures(*self, (runnable,), ())
    }

    fn schedule(&self, runnable: R, info: ScheduleInfo) {
        self(runnable)
    }
}

/// Pass a scheduling function with more scheduling information - a.k.a. [`ScheduleInfo`].
///
/// Sometimes, it's useful to pass the runnable's state directly to the scheduling function, such
/// as whether it's woken up while running. The scheduler can thus use the information to determine
/// its scheduling strategy.
///
/// The data source of [`ScheduleInfo`] is directly from the actual implementation of the crate
/// itself, different from the metadata of a `Runnable`, which is managed by the caller.
#[derive(Debug)]
pub struct WithInfo<F>(pub F);

impl<F> From<F> for WithInfo<F> {
    fn from(value: F) -> (scheduler: Self) {
        WithInfo(value)
    }
}

impl<F> vstd::std_specs::convert::FromSpecImpl<F> for WithInfo<F> {
    open spec fn obeys_from_spec() -> bool {
        true
    }

    open spec fn from_spec(value: F) -> Self {
        WithInfo(value)
    }
}

impl<R, F> Schedule<R> for WithInfo<F> where F: Fn(R, ScheduleInfo) {
    open spec fn accepts(&self, runnable: R, info: ScheduleInfo) -> bool {
        call_requires(self.0, (runnable, info))
    }

    open spec fn finishes(&self, runnable: R, info: ScheduleInfo) -> bool {
        call_ensures(self.0, (runnable, info), ())
    }

    fn schedule(&self, runnable: R, info: ScheduleInfo) {
        (self.0)(runnable, info)
    }
}

/// The schedule function is told exactly what the crate says.
pub proof fn law_info_tells_what_it_is_told(woken_while_running: bool, info: ScheduleInfo)
    requires
        call_ensures(ScheduleInfo::new, (woken_while_running,), info),
    ensures
        info.woken_while_running == woken_while_running,
{
}

/// A plain scheduling function is called with the runnable, whenever it may be.
pub proof fn law_plain_function_gets_runnable<R, F: Fn(R)>(
    function: F,
    runnable: R,
    info: ScheduleInfo,
)
    ensures
        call_requires(function, (runnable,)) ==> function.accepts(runnable, info),
        call_ensures(<F as Schedule<R>>::schedule, (&function, runnable, info), ())
            ==> call_ensures(function, (runnable,), ()),
{
}

/// A scheduling function with information is called with the runnable and with what it is to be
/// told, whenever it may be.
pub proof fn law_function_with_info_is_told<R, F: Fn(R, ScheduleInfo)>(
    function: F,
    scheduler: WithInfo<F>,
    runnable: R,
    info: ScheduleInfo,
)
    requires
        call_ensures(<WithInfo<F> as From<F>>::from, (function,), scheduler),
    ensures
        call_requires(function, (runnable, info)) ==> scheduler.accepts(runnable, info),
        call_ensures(<WithInfo<F> as Schedule<R>>::schedule, (&scheduler, runnable, info), ())
            ==> call_ensures(function, (runnable, info), ()),
{
}

} // verus!
