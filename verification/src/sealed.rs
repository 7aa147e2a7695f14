//! Keeps the [`Schedule`][`crate::schedule::Schedule`] trait to the scheduling functions that this
//! crate knows.
use vstd::prelude::*;

use crate::schedule::{ScheduleInfo, WithInfo};

verus! {

/// A function that can be used to schedule an `R`.
pub trait Sealed<R> {

}

impl<R, F> Sealed<R> for F where F: Fn(R) {

}

impl<R, F> Sealed<R> for WithInfo<F> where F: Fn(R, ScheduleInfo) {

}

} // verus!
