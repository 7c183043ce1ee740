//! Runtime assertions as values: a check that evaluates to a success or to a
//! failure carrying a message, to be propagated, converted, or explicitly
//! discarded rather than silently dropped.

use vstd::prelude::*;

use crate::early::Early;

verus! {

/// The state of an assertion: either it succeeded, or it failed with a
/// message describing the failure.
enum AssertInner {
    Success,
    Failure(String),
}

/// A logical assertion made at runtime. A failed assertion carries a message
/// describing the failure; a successful one carries nothing.
///
/// An assertion is meant to be consumed: propagated upwards (see
/// [`branch`](Self::branch)), or — when a failure really must be ignored —
/// discarded explicitly with [`defuse`](Self::defuse).
pub struct Assert {
    inner: AssertInner,
}

impl Assert {
    /// True iff this assertion failed.
    pub closed spec fn spec_is_failure(&self) -> bool {
        self.inner is Failure
    }

    /// The message carried by a failed assertion.
    pub closed spec fn spec_message(&self) -> Seq<char> {
        self.inner->Failure_0@
    }

    /// Create a successful assertion.
    pub fn success() -> (r: Assert)
        ensures
            !r.spec_is_failure(),
    {
        Assert { inner: AssertInner::Success }
    }

    /// Create a failed assertion.
    pub fn failure() -> (r: Assert)
        ensures
            r.spec_is_failure(),
            r.spec_message() == "Assertion failed"@,
    {
        Assert { inner: AssertInner::Failure("Assertion failed".to_owned()) }
    }

    /// Assert that a boolean value is true.
    pub fn is_true(a: bool) -> (r: Assert)
        ensures
            r.spec_is_failure() == !a,
            !a ==> r.spec_message() == "Expected `true`, got `false`"@,
    {
        if a {
            Assert::success()
        } else {
            Assert::failure().msg("Expected `true`, got `false`".to_owned())
        }
    }

    /// Assert that a boolean value is false.
    pub fn is_false(a: bool) -> (r: Assert)
        ensures
            r.spec_is_failure() == a,
            a ==> r.spec_message() == "Expected `false`, got `true`"@,
    {
        if !a {
            Assert::success()
        } else {
            Assert::failure().msg("Expected `false`, got `true`".to_owned())
        }
    }

    /// Attach a custom message to an assertion. The message is discarded if
    /// the assertion was successful.
    pub fn msg(self, msg: String) -> (r: Assert)
        ensures
            r.spec_is_failure() == self.spec_is_failure(),
            self.spec_is_failure() ==> r.spec_message() == msg@,
    {
        match self.inner {
            AssertInner::Failure(_) => Assert { inner: AssertInner::Failure(msg) },
            AssertInner::Success => Assert { inner: AssertInner::Success },
        }
    }

    /// Attach a custom message to an assertion, invoking the provided
    /// function to produce the message only if the assertion failed.
    pub fn with_msg<F: FnOnce() -> String>(self, f: F) -> (r: Assert)
        requires
            self.spec_is_failure() ==> call_requires(f, ()),
        ensures
            r.spec_is_failure() == self.spec_is_failure(),
            self.spec_is_failure() ==> exists|m: String|
                #[trigger] call_ensures(f, (), m) && r.spec_message() == m@,
    {
        match self.inner {
            AssertInner::Failure(_) => Assert { inner: AssertInner::Failure(f()) },
            AssertInner::Success => Assert { inner: AssertInner::Success },
        }
    }

    /// The propagation step: a failed assertion is the residual (`Done`, to
    /// be returned from the enclosing chain at once); a successful one lets
    /// the chain continue with nothing to carry.
    pub fn branch(self) -> (r: Early<Assert, ()>)
        ensures
            self.spec_is_failure() ==> r == Early::Done::<Assert, ()>(self),
            !self.spec_is_failure() ==> r == Early::Todo::<Assert, ()>(()),
    {
        if self.is_failure() {
            Early::Done(self)
        } else {
            Early::Todo(())
        }
    }

    /// Consume this assertion harmlessly, doing nothing. This is probably
    /// not what you want, unless you really need to ignore a failed
    /// assertion for some reason.
    pub fn defuse(self) {
    }

    /// Check whether this assertion failed.
    pub fn is_failure(&self) -> (r: bool)
        ensures
            r == self.spec_is_failure(),
    {
        matches!(self.inner, AssertInner::Failure(_))
    }

    /// Check whether this assertion succeeded.
    pub fn is_success(&self) -> (r: bool)
        ensures
            r == !self.spec_is_failure(),
    {
        matches!(self.inner, AssertInner::Success)
    }

    /// The message of a failed assertion; nothing for a successful one.
    pub fn message(&self) -> (r: Option<&String>)
        ensures
            (r is Some <==> self.spec_is_failure()),
            self.spec_is_failure() ==> (r matches Some(m) && m@ == self.spec_message()),
    {
        match &self.inner {
            AssertInner::Failure(msg) => Some(msg),
            AssertInner::Success => None,
        }
    }
}

} // verus!
