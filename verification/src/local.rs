//! Tasks that stay on the thread that spawned them.
use vstd::prelude::*;
use vstd::std_specs::cmp::PartialEqSpec;

verus! {

/// What is about to happen to the future of a thread-local task.
#[derive(Debug, Clone, Copy, PartialEq, Eq, Structural)]
pub enum Access {
    Poll,
    Drop,
}

/// Checks which thread a future is on.
#[derive(Debug)]
pub struct Checked<I> {
    /// The identity of the thread that spawned the task.
    id: I,
}

/// What is wrong if the future is accessed on another thread.
pub open spec fn complaint(access: Access) -> Seq<char> {
    match access {
        Access::Poll => "local task polled by a thread that didn't spawn it"@,
        Access::Drop => "local task dropped by a thread that didn't spawn it"@,
    }
}

impl<I> Checked<I> {
    /// The identity of the thread that spawned the task.
    pub closed spec fn owner(&self) -> I {
        self.id
    }

    /// Ties a future to the thread with this identity.
    pub fn new(id: I) -> (checked: Self)
        ensures
            checked.owner() == id,
    {
        Checked { id }
    }
}

impl<I: PartialEq> Checked<I> {
    /// Lets the thread `current` access the future if it is the one that spawned the task, and
    /// otherwise says what is wrong.
    pub fn check(&self, current: &I, access: Access) -> (checked: Result<(), &'static str>)
        ensures
            call_ensures(I::eq, (&self.owner(), current), checked is Ok),
            I::obeys_eq_spec() ==> (checked is Ok <==> self.owner().eq_spec(current)),
            checked matches Err(message) ==> message@ == complaint(access),
    {
        if self.id == *current {
            Ok(())
        } else {
            match access {
                Access::Poll => Err("local task polled by a thread that didn't spawn it"),
                Access::Drop => Err("local task dropped by a thread that didn't spawn it"),
            }
        }
    }
}

/// The future of a thread-local task is accessed exactly on the thread that it was tied to, as the
/// identities of the threads compare. Elsewhere it is refused, and the complaint says whether it
/// was to be polled or to be dropped.
pub proof fn law_local_future_stays_on_thread<I: PartialEq>(
    owner: I,
    checked: Checked<I>,
    current: &I,
    access: Access,
    result: Result<(), &'static str>,
)
    requires
        call_ensures(Checked::<I>::new, (owner,), checked),
        call_ensures(Checked::<I>::check, (&checked, current, access), result),
    ensures
        call_ensures(I::eq, (&owner, current), result is Ok),
        I::obeys_eq_spec() ==> (result is Ok <==> owner.eq_spec(current)),
        result matches Err(message) ==> match access {
            Access::Poll => message@ == "local task polled by a thread that didn't spawn it"@,
            Access::Drop => message@ == "local task dropped by a thread that didn't spawn it"@,
        },
{
}

} // verus!
