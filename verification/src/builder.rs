//! How tasks are created.
use vstd::prelude::*;

use crate::header::Header;
use crate::journal::{Event, Journal};
use crate::layout::{eval_task_layout, TaskLayout};

verus! {

use crate::header::made;
use crate::layout::{laid_out, layout_of};
use crate::state::word;

/// A builder that creates a new task.
#[derive(Debug)]
pub struct Builder<M> {
    /// The metadata associated with the task.
    metadata: M,
    /// Whether or not a panic that occurs in the task should be propagated.
    propagate_panic: bool,
}

/// What there is to a task before its future and its schedule function are put in place.
pub struct Blank<M> {
    /// The memory that the task takes up.
    pub layout: TaskLayout,
    /// The header of the task.
    pub header: Header<M>,
}

impl<M: Default> Default for Builder<M> {
    fn default() -> (builder: Self)
        ensures
            call_ensures(M::default, (), builder.attached()),
            !builder.propagates(),
    {
        Builder::new().metadata(M::default())
    }
}

impl Builder<()> {
    /// Creates a new task builder.
    ///
    /// By default, the builder has no metadata. Use the [`metadata`][`Builder::metadata()`]
    /// method to set the metadata.
    pub fn new() -> (builder: Builder<()>)
        ensures
            builder.attached() == (),
            !builder.propagates(),
    {
        Builder { metadata: (), propagate_panic: false }
    }

    /// Adds metadata to the task.
    ///
    /// In certain cases, it may be useful to associate some metadata with a task. For instance,
    /// you may want to associate a name with a task, or a priority for a priority queue. This
    /// method allows the user to attach arbitrary metadata to a task that is available through the
    /// `Runnable` or the await handle.
    pub fn metadata<M>(self, metadata: M) -> (builder: Builder<M>)
        ensures
            builder.attached() == metadata,
            builder.propagates() == self.propagates(),
    {
        Builder { metadata, propagate_panic: self.propagate_panic }
    }
}

impl<M> Builder<M> {
    /// The metadata to be associated with the task.
    pub closed spec fn attached(&self) -> M {
        self.metadata
    }

    /// Whether panics of the task are to go to the await handle.
    pub closed spec fn propagates(&self) -> bool {
        self.propagate_panic
    }

    /// Propagates panics that occur in the task.
    ///
    /// When this is `true`, panics that occur in the task will be propagated to the caller of the
    /// await handle. When this is false, no special action is taken when a panic occurs in the
    /// task, meaning that the caller of the run will observe a panic.
    ///
    /// By default, this is `false`.
    pub fn propagate_panic(self, propagate_panic: bool) -> (builder: Builder<M>)
        ensures
            builder.attached() == self.attached(),
            builder.propagates() == propagate_panic,
    {
        Builder { metadata: self.metadata, propagate_panic }
    }

    /// Makes the header of a task with a schedule function `S`, a future `F` and an output `R`,
    /// and computes how much memory the task takes up.
    ///
    /// `H` is what is stored in front, which holds the header. Returns `None` if the task would be
    /// too large.
    pub fn allocate<H, S, F, R>(self, journal: &mut Journal) -> (blank: Option<Blank<M>>)
        requires
            old(journal).unbound(),
        ensures
            laid_out(
                match blank {
                    Some(b) => Some(b.layout),
                    None => None,
                },
                layout_of::<H>(),
                layout_of::<S>(),
                layout_of::<F>(),
                layout_of::<R>(),
            ),
            match blank {
                Some(b) => {
                    &&& b.header.attached() == self.attached()
                    &&& b.header.propagates() == self.propagates()
                    &&& final(journal).continues(*old(journal), b.header.place())
                    &&& made(final(journal).since(*old(journal)))
                },
                None => *final(journal) == *old(journal),
            },
    {
        match eval_task_layout::<H, S, F, R>() {
            Some(layout) => {
                let header = Header::new(self.metadata, self.propagate_panic, journal);
                Some(Blank { layout, header })
            },
            None => None,
        }
    }
}

/// A builder is nothing but its settings: in whatever order they were made, builders with the same
/// settings are the same.
pub proof fn law_builder_is_its_settings<M>(a: Builder<M>, b: Builder<M>)
    requires
        a.attached() == b.attached(),
        a.propagates() == b.propagates(),
    ensures
        a == b,
{
}

/// What a builder is told arrives at the header of the task: the metadata, and whether panics are
/// propagated, whichever is said first. Where both are said of the latter, the last word counts.
pub proof fn law_settings_reach_header<M, H, S, F, R>(
    start: Builder<()>,
    early: bool,
    told: Builder<()>,
    metadata: M,
    attached: Builder<M>,
    late: bool,
    corrected: Builder<M>,
    first: &mut Journal,
    blank: Option<Blank<M>>,
    second: &mut Journal,
    other: Option<Blank<M>>,
    found: &M,
    found_other: &M,
    propagates: bool,
    propagates_other: bool,
)
    requires
        call_ensures(Builder::<()>::new, (), start),
        call_ensures(Builder::<()>::propagate_panic, (start, early), told),
        call_ensures(Builder::<()>::metadata::<M>, (told, metadata), attached),
        call_ensures(Builder::<M>::propagate_panic, (attached, late), corrected),
        call_ensures(Builder::<M>::allocate::<H, S, F, R>, (attached, first), blank),
        call_ensures(Builder::<M>::allocate::<H, S, F, R>, (corrected, second), other),
        blank matches Some(b) ==> {
            &&& call_ensures(Header::<M>::metadata, (&b.header,), found)
            &&& call_ensures(Header::<M>::propagate_panic, (&b.header,), propagates)
        },
        other matches Some(b) ==> {
            &&& call_ensures(Header::<M>::metadata, (&b.header,), found_other)
            &&& call_ensures(Header::<M>::propagate_panic, (&b.header,), propagates_other)
        },
    ensures
        blank is Some <==> other is Some,
        blank is Some ==> *found == metadata && propagates == early,
        other is Some ==> *found_other == metadata && propagates_other == late,
{
}

/// Without being told, a builder has panics go on in the caller of the run.
pub proof fn law_panics_are_not_propagated_by_default<M, H, S, F, R>(
    start: Builder<()>,
    metadata: M,
    attached: Builder<M>,
    journal: &mut Journal,
    blank: Option<Blank<M>>,
    propagates: bool,
)
    requires
        call_ensures(Builder::<()>::new, (), start),
        call_ensures(Builder::<()>::metadata::<M>, (start, metadata), attached),
        call_ensures(Builder::<M>::allocate::<H, S, F, R>, (attached, journal), blank),
        blank matches Some(b) ==> call_ensures(
            Header::<M>::propagate_panic,
            (&b.header,),
            propagates,
        ),
    ensures
        blank is Some ==> !propagates,
{
}

/// A default builder has the default metadata, and has panics go on in the caller of the run.
pub proof fn law_default_builder_has_default_metadata<M: Default, H, S, F, R>(
    builder: Builder<M>,
    journal: &mut Journal,
    blank: Option<Blank<M>>,
    found: &M,
    propagates: bool,
)
    requires
        call_ensures(Builder::<M>::default, (), builder),
        call_ensures(Builder::<M>::allocate::<H, S, F, R>, (builder, journal), blank),
        blank matches Some(b) ==> {
            &&& call_ensures(Header::<M>::metadata, (&b.header,), found)
            &&& call_ensures(Header::<M>::propagate_panic, (&b.header,), propagates)
        },
    ensures
        blank is Some ==> call_ensures(M::default, (), *found) && !propagates,
{
}

/// A task is allocated exactly if it has a layout, with that layout. Its state word says that it is
/// scheduled, with one reference and an await handle, and its awaiter slot is empty.
pub proof fn law_allocation_has_task_layout<M, H, S, F, R>(
    builder: Builder<M>,
    journal: &mut Journal,
    blank: Option<Blank<M>>,
    layout: Option<TaskLayout>,
)
    requires
        call_ensures(Builder::<M>::allocate::<H, S, F, R>, (builder, journal), blank),
        call_ensures(eval_task_layout::<H, S, F, R>, (), layout),
    ensures
        blank is Some <==> layout is Some,
        blank matches Some(b) ==> {
            let run = final(journal).since(*old(journal));
            &&& Some(b.layout) == layout
            &&& final(journal).continues(*old(journal), b.header.place())
            &&& run.len() == 2
            &&& run[0] matches Event::Made { value, .. }
            &&& word(value).scheduled && word(value).task && word(value).refs == 1
            &&& !word(value).running && !word(value).completed && !word(value).closed
            &&& !word(value).awaiter && !word(value).registering && !word(value).notifying
            &&& run[1] matches Event::SlotMade { held, .. }
            &&& held is None
        },
        blank is None ==> final(journal)@ == old(journal)@,
{
}

/// The size from which on a future is put into a box of its own.
pub const LARGE_FUTURE: usize = 2048;

/// Decides whether a future is so large that it is allocated on the heap by itself, and the task
/// holds a pointer to it.
pub fn boxes_future<F>() -> (boxed: bool)
    ensures
        boxed == (vstd::layout::size_of::<F>() >= LARGE_FUTURE),
{
    core::mem::size_of::<F>() >= LARGE_FUTURE
}

/// A future is put into a box of its own exactly from 2048 bytes on.
pub proof fn law_large_futures_are_boxed<F>(boxed: bool)
    requires
        call_ensures(boxes_future::<F>, (), boxed),
    ensures
        boxed <==> vstd::layout::size_of::<F>() >= 2048,
{
}

} // verus!
