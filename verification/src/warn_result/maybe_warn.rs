//! The carrier of a successful outcome: a value, optionally with a
//! diagnostic attached.

use vstd::prelude::*;

verus! {

/// A success that may carry a diagnostic: `Success` holds just the produced
/// value, `Warn` holds the value together with a diagnostic.
///
/// Every operation is total over the two variants: a carrier always holds
/// exactly one value, and a diagnostic exactly when the variant is `Warn`.
pub enum MaybeWarn<T, W> {
    /// The value was produced without any diagnostic
    Success(T),
    /// The value was produced, with a diagnostic attached
    Warn(T, W),
}

impl<T, W> MaybeWarn<T, W> {
    /// The carried value, whichever variant holds it.
    pub open spec fn spec_value(self) -> T {
        match self {
            MaybeWarn::Success(val) => val,
            MaybeWarn::Warn(val, _) => val,
        }
    }

    /// The carried diagnostic; meaningful only when the variant is `Warn`.
    pub open spec fn spec_warn(self) -> W
        recommends
            self is Warn,
    {
        self->Warn_1
    }

    /// The same carrier with its value replaced: the variant and any
    /// diagnostic are kept.
    pub open spec fn spec_with_value(self, val: T) -> MaybeWarn<T, W> {
        match self {
            MaybeWarn::Success(_) => MaybeWarn::Success(val),
            MaybeWarn::Warn(_, warn) => MaybeWarn::Warn(val, warn),
        }
    }

    /// Read the carried value, regardless of variant. Never fails.
    pub fn value(&self) -> (r: &T)
        ensures
            *r == self.spec_value(),
    {
        match self {
            MaybeWarn::Success(val) => val,
            MaybeWarn::Warn(val, _) => val,
        }
    }

    /// Get mutable access to the carried value, regardless of variant; the
    /// variant and any diagnostic stay as they were.
    pub fn value_mut(&mut self) -> (r: &mut T)
        ensures
            *r == old(self).spec_value(),
            *final(self) == old(self).spec_with_value(*final(r)),
    {
        match self {
            MaybeWarn::Success(val) => val,
            MaybeWarn::Warn(val, _) => val,
        }
    }

    /// Consume the carrier and keep only the value, dropping any diagnostic
    /// irreversibly.
    pub fn discard_warnings(self) -> (r: T)
        ensures
            r == self.spec_value(),
    {
        match self {
            MaybeWarn::Success(val) => val,
            MaybeWarn::Warn(val, _) => val,
        }
    }

    /// A carrier of references into this one, for inspection without
    /// consuming ownership.
    pub fn as_ref(&self) -> (r: MaybeWarn<&T, &W>)
        ensures
            (r is Warn <==> self is Warn),
            *r.spec_value() == self.spec_value(),
            self is Warn ==> *r.spec_warn() == self.spec_warn(),
    {
        match self {
            MaybeWarn::Success(val) => MaybeWarn::Success(val),
            MaybeWarn::Warn(val, warn) => MaybeWarn::Warn(val, warn),
        }
    }

    /// A carrier of mutable references into this one.
    pub fn as_mut(&mut self) -> (r: MaybeWarn<&mut T, &mut W>)
        ensures
            (r is Warn <==> *old(self) is Warn),
            *r.spec_value() == old(self).spec_value(),
            *old(self) is Warn ==> *r.spec_warn() == old(self).spec_warn(),
            *old(self) is Success ==> *final(self) == MaybeWarn::Success::<T, W>(
                *final(r.spec_value()),
            ),
            *old(self) is Warn ==> *final(self) == MaybeWarn::Warn::<T, W>(
                *final(r.spec_value()),
                *final(r.spec_warn()),
            ),
    {
        match self {
            MaybeWarn::Success(val) => MaybeWarn::Success(val),
            MaybeWarn::Warn(val, warn) => MaybeWarn::Warn(val, warn),
        }
    }

    /// Transform the carried value; the variant and any diagnostic are kept.
    pub fn map<U, F: FnOnce(T) -> U>(self, f: F) -> (r: MaybeWarn<U, W>)
        requires
            call_requires(f, (self.spec_value(),)),
        ensures
            (r is Warn <==> self is Warn),
            call_ensures(f, (self.spec_value(),), r.spec_value()),
            self is Warn ==> r.spec_warn() == self.spec_warn(),
    {
        match self {
            MaybeWarn::Success(val) => MaybeWarn::Success(f(val)),
            MaybeWarn::Warn(val, warn) => MaybeWarn::Warn(f(val), warn),
        }
    }

    /// Transform the diagnostic if one is present; the value is untouched.
    pub fn map_warn<U, F: FnOnce(W) -> U>(self, f: F) -> (r: MaybeWarn<T, U>)
        requires
            self is Warn ==> call_requires(f, (self.spec_warn(),)),
        ensures
            (r is Warn <==> self is Warn),
            r.spec_value() == self.spec_value(),
            self is Warn ==> call_ensures(f, (self.spec_warn(),), r.spec_warn()),
    {
        match self {
            MaybeWarn::Success(val) => MaybeWarn::Success(val),
            MaybeWarn::Warn(val, warn) => MaybeWarn::Warn(val, f(warn)),
        }
    }
}

} // verus!
