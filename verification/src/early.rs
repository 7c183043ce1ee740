//! Early-return values: for when a call may produce a final result right away
//! or want computation to continue.

use vstd::prelude::*;

verus! {

/// An early-return value. Either computation is finished and `Done` carries
/// the final result, or control flow should continue with the `Todo` value.
#[derive(Clone, Copy, Debug, PartialEq, Eq, Hash)]
pub enum Early<D, T> {
    /// The value to return if computation is done
    Done(D),
    /// The value to return if control-flow should continue
    Todo(T),
}

impl<D, T> Early<D, T> {
    /// Convert this `Early` into its `Done` value.
    pub fn unwrap(self) -> (r: D)
        requires
            self is Done,
        ensures
            self == Early::<D, T>::Done(r),
    {
        match self {
            Early::Done(val) => val,
            Early::Todo(_) => vstd::pervasive::unreached(),
        }
    }

    /// Convert this `Early` into its `Todo` value.
    pub fn unwrap_todo(self) -> (r: T)
        requires
            self is Todo,
        ensures
            self == Early::<D, T>::Todo(r),
    {
        match self {
            Early::Todo(val) => val,
            Early::Done(_) => vstd::pervasive::unreached(),
        }
    }

    /// Get a new `Early` that holds references to the values in this `Early`.
    pub fn as_ref(&self) -> (r: Early<&D, &T>)
        ensures
            (r is Done <==> self is Done),
            self matches Early::Done(val) ==> (r matches Early::Done(rv) && *rv == val),
            self matches Early::Todo(val) ==> (r matches Early::Todo(rv) && *rv == val),
    {
        match self {
            Early::Done(val) => Early::Done(val),
            Early::Todo(val) => Early::Todo(val),
        }
    }

    /// Get a new `Early` that holds mutable references to the values in this
    /// `Early`.
    pub fn as_mut(&mut self) -> (r: Early<&mut D, &mut T>)
        ensures
            (r is Done <==> *old(self) is Done),
            *old(self) matches Early::Done(val) ==> (r matches Early::Done(rv) && *rv == val
                && *final(self) == Early::Done::<D, T>(*final(rv))),
            *old(self) matches Early::Todo(val) ==> (r matches Early::Todo(rv) && *rv == val
                && *final(self) == Early::Todo::<D, T>(*final(rv))),
    {
        match self {
            Early::Done(val) => Early::Done(val),
            Early::Todo(val) => Early::Todo(val),
        }
    }

    /// If `Done`, keep the `Done` value and do not invoke `f`. If `Todo`,
    /// continue with `f` on the `Todo` value.
    pub fn and_then<U, F: FnOnce(T) -> Early<D, U>>(self, f: F) -> (r: Early<D, U>)
        requires
            self matches Early::Todo(val) ==> call_requires(f, (val,)),
        ensures
            self matches Early::Done(val) ==> r == Early::Done::<D, U>(val),
            self matches Early::Todo(val) ==> call_ensures(f, (val,), r),
    {
        match self {
            Early::Done(val) => Early::Done(val),
            Early::Todo(val) => f(val),
        }
    }
}

} // verus!
