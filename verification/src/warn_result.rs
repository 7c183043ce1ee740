//! The tri-state outcome: success, success-with-warning, and failure, with
//! the combinators and the sequence aggregation that preserve the severity
//! ordering failure > warning > success.

use vstd::prelude::*;

pub mod maybe_warn;

pub use maybe_warn::MaybeWarn;

use crate::early::Early;

verus! {

/// A three-way outcome: a success carrying a value, a success carrying a
/// value together with a diagnostic, or a failure carrying an error.
///
/// Every combinator preserves the severity ordering failure > warning >
/// success: a failure dominates a warning, a warning dominates a plain
/// success.
#[derive(Clone, Copy, Debug, PartialEq, Eq, Hash)]
pub enum Result<T, E, W = E> {
    /// The operation succeeded.
    Success(T),
    /// The operation succeeded, with a diagnostic attached.
    Warn(T, W),
    /// The operation failed.
    Failure(E),
}

impl<T, E, W> Result<T, E, W> {
    /// The severity of this outcome: failure (2) dominates warning (1),
    /// which dominates plain success (0).
    pub open spec fn severity(self) -> int {
        match self {
            Result::Success(_) => 0,
            Result::Warn(_, _) => 1,
            Result::Failure(_) => 2,
        }
    }

    /// The carried value; meaningful only when the outcome is not a failure.
    pub open spec fn spec_value(self) -> T
        recommends
            !(self is Failure),
    {
        match self {
            Result::Success(val) => val,
            Result::Warn(val, _) => val,
            Result::Failure(_) => vstd::pervasive::arbitrary(),
        }
    }

    /// The carried diagnostic; meaningful only when the outcome is a warning.
    pub open spec fn spec_warn(self) -> W
        recommends
            self is Warn,
    {
        self->Warn_1
    }

    /// The carried error; meaningful only when the outcome is a failure.
    pub open spec fn spec_error(self) -> E
        recommends
            self is Failure,
    {
        self->Failure_0
    }

    /// The continuation payload of a non-failure outcome, as a carrier value.
    pub open spec fn spec_carrier(self) -> MaybeWarn<T, W>
        recommends
            !(self is Failure),
    {
        match self {
            Result::Success(val) => MaybeWarn::Success(val),
            Result::Warn(val, warn) => MaybeWarn::Warn(val, warn),
            Result::Failure(_) => vstd::pervasive::arbitrary(),
        }
    }

    /// The outcome a carrier value lifts to: `Success` to `Success`, `Warn`
    /// to `Warn`; a carrier never lifts to a failure.
    pub open spec fn spec_from_carrier(m: MaybeWarn<T, W>) -> Result<T, E, W> {
        match m {
            MaybeWarn::Success(val) => Result::Success(val),
            MaybeWarn::Warn(val, warn) => Result::Warn(val, warn),
        }
    }

    /// The outcome a plain binary result lifts to: `Ok` to `Success`, `Err`
    /// to `Failure`; the lift never produces a warning.
    pub open spec fn spec_from_binary(r: core::result::Result<T, E>) -> Result<T, E, W> {
        match r {
            core::result::Result::Ok(val) => Result::Success(val),
            core::result::Result::Err(err) => Result::Failure(err),
        }
    }

    /// True iff this outcome is a plain success.
    pub fn is_ok(&self) -> (r: bool)
        ensures
            r == (self is Success),
    {
        matches!(self, Result::Success(_))
    }

    /// True iff this outcome is a success with a diagnostic.
    pub fn is_warn(&self) -> (r: bool)
        ensures
            r == (self is Warn),
    {
        matches!(self, Result::Warn(_, _))
    }

    /// True iff this outcome is a failure.
    pub fn is_err(&self) -> (r: bool)
        ensures
            r == (self is Failure),
    {
        matches!(self, Result::Failure(_))
    }

    /// An outcome of references into this one, for inspection without
    /// consuming ownership.
    pub fn as_ref(&self) -> (r: Result<&T, &E, &W>)
        ensures
            r.severity() == self.severity(),
            !(self is Failure) ==> *r.spec_value() == self.spec_value(),
            self is Warn ==> *r.spec_warn() == self.spec_warn(),
            self is Failure ==> *r.spec_error() == self.spec_error(),
    {
        match self {
            Result::Success(val) => Result::Success(val),
            Result::Warn(val, warn) => Result::Warn(val, warn),
            Result::Failure(err) => Result::Failure(err),
        }
    }

    /// An outcome of mutable references into this one.
    pub fn as_mut(&mut self) -> (r: Result<&mut T, &mut E, &mut W>)
        ensures
            r.severity() == old(self).severity(),
            !(*old(self) is Failure) ==> *r.spec_value() == old(self).spec_value(),
            *old(self) is Warn ==> *r.spec_warn() == old(self).spec_warn(),
            *old(self) is Failure ==> *r.spec_error() == old(self).spec_error(),
            *old(self) is Success ==> *final(self) == Result::Success::<T, E, W>(
                *final(r.spec_value()),
            ),
            *old(self) is Warn ==> *final(self) == Result::Warn::<T, E, W>(
                *final(r.spec_value()),
                *final(r.spec_warn()),
            ),
            *old(self) is Failure ==> *final(self) == Result::Failure::<T, E, W>(
                *final(r.spec_error()),
            ),
    {
        match self {
            Result::Success(val) => Result::Success(val),
            Result::Warn(val, warn) => Result::Warn(val, warn),
            Result::Failure(err) => Result::Failure(err),
        }
    }

    /// The propagation step: decompose this outcome into either the residual
    /// failure (`Done`, to be returned from the enclosing chain at once) or
    /// the continuation carrier (`Todo`, for the caller to keep processing).
    pub fn branch(self) -> (r: Early<E, MaybeWarn<T, W>>)
        ensures
            (r is Done <==> self is Failure),
            self is Failure ==> r == Early::Done::<E, MaybeWarn<T, W>>(self.spec_error()),
            !(self is Failure) ==> r == Early::Todo::<E, MaybeWarn<T, W>>(self.spec_carrier()),
    {
        match self {
            Result::Success(val) => Early::Todo(MaybeWarn::Success(val)),
            Result::Warn(val, warn) => Early::Todo(MaybeWarn::Warn(val, warn)),
            Result::Failure(err) => Early::Done(err),
        }
    }

    /// Lift a carrier value into the tri-state outcome: `Success` to
    /// `Success`, `Warn` to `Warn`. The lift never produces a failure.
    pub fn from_carrier(m: MaybeWarn<T, W>) -> (r: Result<T, E, W>)
        ensures
            r == Self::spec_from_carrier(m),
    {
        match m {
            MaybeWarn::Success(val) => Result::Success(val),
            MaybeWarn::Warn(val, warn) => Result::Warn(val, warn),
        }
    }

    /// Lift a plain binary result into the tri-state outcome: `Ok` to
    /// `Success`, `Err` to `Failure`. The lift never produces a warning.
    pub fn from_binary(r: core::result::Result<T, E>) -> (t: Result<T, E, W>)
        ensures
            t == Self::spec_from_binary(r),
    {
        match r {
            core::result::Result::Ok(val) => Result::Success(val),
            core::result::Result::Err(err) => Result::Failure(err),
        }
    }

    /// Lift a residual failure — of this tri-state type or of a plain binary
    /// result — into the tri-state outcome.
    pub fn from_error(err: E) -> (r: Result<T, E, W>)
        ensures
            r == Result::Failure::<T, E, W>(err),
    {
        Result::Failure(err)
    }

    /// Transform the continuation payload: a failure propagates through
    /// untouched, and `f` is applied only to the carrier of a non-failure
    /// outcome, whose image is lifted back into the tri-state outcome.
    pub fn map<U, F: FnOnce(MaybeWarn<T, W>) -> MaybeWarn<U, W>>(self, f: F) -> (r: Result<
        U,
        E,
        W,
    >)
        requires
            !(self is Failure) ==> call_requires(f, (self.spec_carrier(),)),
        ensures
            (r is Failure <==> self is Failure),
            self is Failure ==> r.spec_error() == self.spec_error(),
            !(self is Failure) ==> call_ensures(f, (self.spec_carrier(),), r.spec_carrier()),
    {
        match self {
            Result::Success(val) => Result::from_carrier(f(MaybeWarn::Success(val))),
            Result::Warn(val, warn) => Result::from_carrier(f(MaybeWarn::Warn(val, warn))),
            Result::Failure(err) => Result::Failure(err),
        }
    }

    /// Transform exactly the carried value; the variant, any diagnostic, and
    /// any error are structurally unchanged.
    pub fn map_val<U, F: FnOnce(T) -> U>(self, f: F) -> (r: Result<U, E, W>)
        requires
            !(self is Failure) ==> call_requires(f, (self.spec_value(),)),
        ensures
            r.severity() == self.severity(),
            !(self is Failure) ==> call_ensures(f, (self.spec_value(),), r.spec_value()),
            self is Warn ==> r.spec_warn() == self.spec_warn(),
            self is Failure ==> r.spec_error() == self.spec_error(),
    {
        match self {
            Result::Success(val) => Result::Success(f(val)),
            Result::Warn(val, warn) => Result::Warn(f(val), warn),
            Result::Failure(err) => Result::Failure(err),
        }
    }

    /// Transform exactly the diagnostic, if one is present; the value and any
    /// error are structurally unchanged.
    pub fn map_warn<U, F: FnOnce(W) -> U>(self, f: F) -> (r: Result<T, E, U>)
        requires
            self is Warn ==> call_requires(f, (self.spec_warn(),)),
        ensures
            r.severity() == self.severity(),
            !(self is Failure) ==> r.spec_value() == self.spec_value(),
            self is Warn ==> call_ensures(f, (self.spec_warn(),), r.spec_warn()),
            self is Failure ==> r.spec_error() == self.spec_error(),
    {
        match self {
            Result::Success(val) => Result::Success(val),
            Result::Warn(val, warn) => Result::Warn(val, f(warn)),
            Result::Failure(err) => Result::Failure(err),
        }
    }

    /// Transform exactly the error, if the outcome is a failure; the value
    /// and any diagnostic are structurally unchanged.
    pub fn map_err<U, F: FnOnce(E) -> U>(self, f: F) -> (r: Result<T, U, W>)
        requires
            self is Failure ==> call_requires(f, (self.spec_error(),)),
        ensures
            r.severity() == self.severity(),
            !(self is Failure) ==> r.spec_value() == self.spec_value(),
            self is Warn ==> r.spec_warn() == self.spec_warn(),
            self is Failure ==> call_ensures(f, (self.spec_error(),), r.spec_error()),
    {
        match self {
            Result::Success(val) => Result::Success(val),
            Result::Warn(val, warn) => Result::Warn(val, warn),
            Result::Failure(err) => Result::Failure(f(err)),
        }
    }

    /// Chain a dependent operation: a failure short-circuits without invoking
    /// `f`; otherwise the continuation carrier — value and any diagnostic —
    /// is handed to `f`, whose outcome is the result.
    pub fn and_then<U, F: FnOnce(MaybeWarn<T, W>) -> Result<U, E, W>>(self, f: F) -> (r:
        Result<U, E, W>)
        requires
            !(self is Failure) ==> call_requires(f, (self.spec_carrier(),)),
        ensures
            self is Failure ==> r == Result::Failure::<U, E, W>(self.spec_error()),
            !(self is Failure) ==> call_ensures(f, (self.spec_carrier(),), r),
    {
        match self {
            Result::Success(val) => f(MaybeWarn::Success(val)),
            Result::Warn(val, warn) => f(MaybeWarn::Warn(val, warn)),
            Result::Failure(err) => Result::Failure(err),
        }
    }

    /// Recovery hook: `f` is invoked only on a failure; a success or a
    /// warning passes through untouched.
    pub fn or_else<U, F: FnOnce(E) -> Result<T, U, W>>(self, f: F) -> (r: Result<T, U, W>)
        requires
            self is Failure ==> call_requires(f, (self.spec_error(),)),
        ensures
            self is Success ==> r == Result::Success::<T, U, W>(self.spec_value()),
            self is Warn ==> r == Result::Warn::<T, U, W>(self.spec_value(), self.spec_warn()),
            self is Failure ==> call_ensures(f, (self.spec_error(),), r),
    {
        match self {
            Result::Success(val) => Result::Success(val),
            Result::Warn(val, warn) => Result::Warn(val, warn),
            Result::Failure(err) => f(err),
        }
    }
}

impl<'a, T, E, W> Result<&'a T, E, W> {
    /// Copy the referenced value out, keeping variant, diagnostic and error.
    pub fn copied(self) -> (r: Result<T, E, W>) where T: Copy
        ensures
            r.severity() == self.severity(),
            !(self is Failure) ==> r.spec_value() == *self.spec_value(),
            self is Warn ==> r.spec_warn() == self.spec_warn(),
            self is Failure ==> r.spec_error() == self.spec_error(),
    {
        match self {
            Result::Success(val) => Result::Success(*val),
            Result::Warn(val, warn) => Result::Warn(*val, warn),
            Result::Failure(err) => Result::Failure(err),
        }
    }

    /// Clone the referenced value out, keeping variant, diagnostic and error.
    pub fn cloned(self) -> (r: Result<T, E, W>) where T: Clone
        ensures
            r.severity() == self.severity(),
            !(self is Failure) ==> vstd::pervasive::cloned::<T>(
                *self.spec_value(),
                r.spec_value(),
            ),
            self is Warn ==> r.spec_warn() == self.spec_warn(),
            self is Failure ==> r.spec_error() == self.spec_error(),
    {
        match self {
            Result::Success(val) => Result::Success(val.clone()),
            Result::Warn(val, warn) => Result::Warn(val.clone(), warn),
            Result::Failure(err) => Result::Failure(err),
        }
    }
}

impl<'a, T, E, W> Result<&'a mut T, E, W> {
    /// Copy the mutably referenced value out, keeping variant, diagnostic
    /// and error.
    pub fn copied(self) -> (r: Result<T, E, W>) where T: Copy
        ensures
            r.severity() == self.severity(),
            !(self is Failure) ==> r.spec_value() == *self.spec_value(),
            self is Warn ==> r.spec_warn() == self.spec_warn(),
            self is Failure ==> r.spec_error() == self.spec_error(),
    {
        match self {
            Result::Success(val) => Result::Success(*val),
            Result::Warn(val, warn) => Result::Warn(*val, warn),
            Result::Failure(err) => Result::Failure(err),
        }
    }

    /// Clone the mutably referenced value out, keeping variant, diagnostic
    /// and error.
    pub fn cloned(self) -> (r: Result<T, E, W>) where T: Clone
        ensures
            r.severity() == self.severity(),
            !(self is Failure) ==> vstd::pervasive::cloned::<T>(
                *self.spec_value(),
                r.spec_value(),
            ),
            self is Warn ==> r.spec_warn() == self.spec_warn(),
            self is Failure ==> r.spec_error() == self.spec_error(),
    {
        match self {
            Result::Success(val) => Result::Success(val.clone()),
            Result::Warn(val, warn) => Result::Warn(val.clone(), warn),
            Result::Failure(err) => Result::Failure(err),
        }
    }
}

impl<T, E, W> Result<Option<T>, E, W> {
    /// What `transpose_lossy` returns. The conversion is deliberately lossy:
    /// an absent value collapses to `None`, and a diagnostic attached to an
    /// absent value is dropped with it.
    pub open spec fn spec_transpose_lossy(self) -> Option<Result<T, E, W>> {
        match self {
            Result::Success(opt) => match opt {
                Some(val) => Some(Result::Success(val)),
                None => None,
            },
            Result::Warn(opt, warn) => match opt {
                Some(val) => Some(Result::Warn(val, warn)),
                None => None,
            },
            Result::Failure(err) => Some(Result::Failure(err)),
        }
    }

    /// Convert an optional-valued outcome into an optional outcome. Lossy by
    /// policy: a success or a warning holding no value collapses to `None`,
    /// and in the warning case the diagnostic is dropped — this is an
    /// explicit, named behavior, not an oversight.
    pub fn transpose_lossy(self) -> (r: Option<Result<T, E, W>>)
        ensures
            r == self.spec_transpose_lossy(),
    {
        match self {
            Result::Success(Some(val)) => Some(Result::Success(val)),
            Result::Success(None) | Result::Warn(None, _) => None,
            Result::Warn(Some(val), warn) => Some(Result::Warn(val, warn)),
            Result::Failure(err) => Some(Result::Failure(err)),
        }
    }
}

impl<T, E, W> Result<Result<T, E, W>, E, W> {
    /// What `flatten_inner` returns: when both levels carry a diagnostic,
    /// the inner one wins.
    pub open spec fn spec_flatten_inner(self) -> Result<T, E, W> {
        match self {
            Result::Success(inner) => inner,
            Result::Warn(inner, warn) => match inner {
                Result::Success(val) => Result::Warn(val, warn),
                Result::Warn(val, inner_warn) => Result::Warn(val, inner_warn),
                Result::Failure(err) => Result::Failure(err),
            },
            Result::Failure(err) => Result::Failure(err),
        }
    }

    /// What `flatten_outer` returns: when both levels carry a diagnostic,
    /// the outer one wins.
    pub open spec fn spec_flatten_outer(self) -> Result<T, E, W> {
        match self {
            Result::Success(inner) => inner,
            Result::Warn(inner, warn) => match inner {
                Result::Success(val) => Result::Warn(val, warn),
                Result::Warn(val, _) => Result::Warn(val, warn),
                Result::Failure(err) => Result::Failure(err),
            },
            Result::Failure(err) => Result::Failure(err),
        }
    }

    /// Flatten a nested outcome, giving the inner diagnostic precedence:
    /// when both levels warn, the inner diagnostic is kept and the outer one
    /// discarded. A failure on either level dominates.
    pub fn flatten_inner(self) -> (r: Result<T, E, W>)
        ensures
            r == self.spec_flatten_inner(),
    {
        match self {
            Result::Success(Result::Success(val)) => Result::Success(val),
            Result::Success(Result::Warn(val, warn))
            | Result::Warn(Result::Warn(val, warn), _)
            | Result::Warn(Result::Success(val), warn) => Result::Warn(val, warn),
            Result::Success(Result::Failure(err))
            | Result::Warn(Result::Failure(err), _)
            | Result::Failure(err) => Result::Failure(err),
        }
    }

    /// Flatten a nested outcome, giving the outer diagnostic precedence:
    /// when both levels warn, the outer diagnostic is kept and the inner one
    /// discarded. A failure on either level dominates.
    pub fn flatten_outer(self) -> (r: Result<T, E, W>)
        ensures
            r == self.spec_flatten_outer(),
    {
        match self {
            Result::Success(Result::Success(val)) => Result::Success(val),
            Result::Success(Result::Warn(val, warn))
            | Result::Warn(Result::Success(val) | Result::Warn(val, _), warn) => {
                Result::Warn(val, warn)
            },
            Result::Success(Result::Failure(err))
            | Result::Warn(Result::Failure(err), _)
            | Result::Failure(err) => Result::Failure(err),
        }
    }
}

/// The values carried by a sequence of outcomes, in order. Meaningful only
/// when no outcome in the sequence is a failure.
pub open spec fn vals_of<T, E, W>(s: Seq<Result<T, E, W>>) -> Seq<T>
    decreases s.len(),
{
    if s.len() == 0 {
        Seq::empty()
    } else {
        vals_of(s.drop_last()).push(s.last().spec_value())
    }
}

/// The diagnostics of the warning outcomes in a sequence, concatenated in
/// encounter order; outcomes without a diagnostic contribute nothing.
pub open spec fn warns_of<T, E, W>(s: Seq<Result<T, E, W>>) -> Seq<W>
    decreases s.len(),
{
    if s.len() == 0 {
        Seq::empty()
    } else if s.last() is Warn {
        warns_of(s.drop_last()).push(s.last().spec_warn())
    } else {
        warns_of(s.drop_last())
    }
}

/// True iff some outcome in the sequence is a failure.
pub open spec fn has_failure<T, E, W>(s: Seq<Result<T, E, W>>) -> bool {
    exists|i: int| 0 <= i < s.len() && s[i] is Failure
}

/// True iff some outcome in the sequence is a warning.
pub open spec fn has_warn<T, E, W>(s: Seq<Result<T, E, W>>) -> bool {
    exists|i: int| 0 <= i < s.len() && s[i] is Warn
}

/// The index of the first failure in the sequence; the sequence's length if
/// there is none.
pub open spec fn first_failure_index<T, E, W>(s: Seq<Result<T, E, W>>) -> int
    decreases s.len(),
{
    if s.len() == 0 {
        0
    } else if s[0] is Failure {
        0
    } else {
        1 + first_failure_index(s.drop_first())
    }
}

/// A failure preceded by no other failure is the first one.
proof fn lemma_first_failure_index<T, E, W>(s: Seq<Result<T, E, W>>, i: int)
    requires
        0 <= i < s.len(),
        s[i] is Failure,
        forall|j: int| 0 <= j < i ==> !(s[j] is Failure),
    ensures
        first_failure_index(s) == i,
    decreases i,
{
    if i > 0 {
        lemma_first_failure_index(s.drop_first(), i - 1);
    }
}

/// Fold a sequence of tri-state outcomes into one tri-state outcome over the
/// whole batch, in a single pass that stops at the first failure.
///
/// Every value is collected in order, and every diagnostic of a warning
/// outcome is appended to the diagnostics in encounter order. A failure
/// anywhere makes the whole batch a failure, carrying the first failure's
/// error; outcomes after it are not consumed. With no failure, the batch is
/// a warning exactly when some outcome warned, and a plain success
/// otherwise — in particular, an empty batch is a plain success over empty
/// containers.
pub fn aggregate<T, E, W>(items: Vec<Result<T, E, W>>) -> (r: Result<Vec<T>, E, Vec<W>>)
    ensures
        has_failure(items@) ==> (r matches Result::Failure(err) && err == items@[
            first_failure_index(items@)
        ].spec_error()),
        !has_failure(items@) ==> {
            &&& !(r is Failure)
            &&& (r is Warn <==> has_warn(items@))
            &&& r.spec_value()@ == vals_of(items@)
            &&& r is Warn ==> r.spec_warn()@ == warns_of(items@)
        },
{
    let ghost orig = items@;
    let mut remaining = items;
    let mut vals: Vec<T> = Vec::new();
    let mut warns: Vec<W> = Vec::new();
    let mut saw_warn = false;
    while remaining.len() > 0
        invariant
            orig == items@,
            remaining@.len() <= orig.len(),
            remaining@ == orig.subrange(orig.len() - remaining@.len(), orig.len() as int),
            forall|j: int|
                0 <= j < orig.len() - remaining@.len() ==> !(#[trigger] orig[j] is Failure),
            vals@ == vals_of(orig.take(orig.len() - remaining@.len())),
            warns@ == warns_of(orig.take(orig.len() - remaining@.len())),
            saw_warn == has_warn(orig.take(orig.len() - remaining@.len())),
        decreases remaining@.len(),
    {
        let ghost i = orig.len() - remaining@.len();
        let ghost prefix = orig.take(i);
        let item = remaining.remove(0);
        proof {
            assert(item == orig[i]);
            assert(orig.take(i + 1).drop_last() =~= prefix);
            assert(orig.take(i + 1).last() == orig[i]);
        }
        match item {
            Result::Success(val) => {
                vals.push(val);
                proof {
                    assert(forall|j: int|
                        0 <= j < i + 1 ==> (#[trigger] orig.take(i + 1)[j]) == orig[j]);
                    assert(has_warn(orig.take(i + 1)) == has_warn(prefix)) by {
                        if has_warn(orig.take(i + 1)) {
                            let k = choose|k: int|
                                0 <= k < i + 1 && (#[trigger] orig.take(i + 1)[k]) is Warn;
                            assert(k < i && prefix[k] is Warn);
                        }
                        if has_warn(prefix) {
                            let k = choose|k: int| 0 <= k < i && (#[trigger] prefix[k]) is Warn;
                            assert(orig.take(i + 1)[k] is Warn);
                        }
                    }
                }
            },
            Result::Warn(val, warn) => {
                vals.push(val);
                warns.push(warn);
                saw_warn = true;
                proof {
                    assert(orig.take(i + 1)[i] is Warn);
                }
            },
            Result::Failure(err) => {
                proof {
                    assert(orig[i] is Failure);
                    assert(has_failure(orig));
                    lemma_first_failure_index(orig, i);
                }
                return Result::Failure(err);
            },
        }
    }
    proof {
        assert(orig.take(orig.len() - remaining@.len()) =~= orig);
    }
    if saw_warn {
        Result::Warn(vals, warns)
    } else {
        Result::Success(vals)
    }
}

/// Severity ordering law for the two flatten policies: a failure on either
/// level makes the flattened outcome a failure; otherwise a warning on
/// either level makes it a warning; otherwise it is a plain success. The two
/// policies agree on severity and differ only in which diagnostic is kept.
pub proof fn lemma_flatten_severity<T, E, W>(nested: Result<Result<T, E, W>, E, W>)
    ensures
        (nested.spec_flatten_inner() is Failure <==> (nested is Failure || nested.spec_value()
            is Failure)),
        (nested.spec_flatten_inner() is Warn <==> (!(nested is Failure) && !(nested.spec_value()
            is Failure) && (nested is Warn || nested.spec_value() is Warn))),
        (nested.spec_flatten_inner() is Success <==> (nested is Success && nested.spec_value()
            is Success)),
        nested.spec_flatten_outer().severity() == nested.spec_flatten_inner().severity(),
{
}

/// Round-trip law for the binary lift: lifting a plain binary result into
/// the tri-state outcome and immediately narrowing it back — taking the
/// residual error where the outcome is a failure, and otherwise the
/// continuation carrier's value with its warnings discarded — reproduces the
/// original result exactly.
pub proof fn lemma_lift_round_trip<T, E, W>(r: core::result::Result<T, E>)
    ensures
        ({
            let lifted = Result::<T, E, W>::spec_from_binary(r);
            let narrowed: core::result::Result<T, E> = if lifted is Failure {
                core::result::Result::Err(lifted.spec_error())
            } else {
                core::result::Result::Ok(lifted.spec_carrier().spec_value())
            };
            narrowed == r
        }),
{
}

/// The values carried by the `Ok` results of a sequence of plain binary
/// results, in order. Meaningful only when no result in the sequence is an
/// `Err`.
pub open spec fn ok_vals_of<T, E>(s: Seq<core::result::Result<T, E>>) -> Seq<T>
    decreases s.len(),
{
    if s.len() == 0 {
        Seq::empty()
    } else {
        ok_vals_of(s.drop_last()).push(s.last()->Ok_0)
    }
}

/// True iff some result in the sequence is an `Err`.
pub open spec fn has_err<T, E>(s: Seq<core::result::Result<T, E>>) -> bool {
    exists|i: int| 0 <= i < s.len() && s[i] is Err
}

/// The index of the first `Err` in the sequence; the sequence's length if
/// there is none.
pub open spec fn first_err_index<T, E>(s: Seq<core::result::Result<T, E>>) -> int
    decreases s.len(),
{
    if s.len() == 0 {
        0
    } else if s[0] is Err {
        0
    } else {
        1 + first_err_index(s.drop_first())
    }
}

/// An `Err` preceded by no other `Err` is the first one.
proof fn lemma_first_err_index<T, E>(s: Seq<core::result::Result<T, E>>, i: int)
    requires
        0 <= i < s.len(),
        s[i] is Err,
        forall|j: int| 0 <= j < i ==> !(s[j] is Err),
    ensures
        first_err_index(s) == i,
    decreases i,
{
    if i > 0 {
        lemma_first_err_index(s.drop_first(), i - 1);
    }
}

/// Fold a sequence of plain binary results into one tri-state outcome over
/// the whole batch, in a single pass that stops at the first `Err`.
///
/// Every `Ok` value is collected in order. An `Err` anywhere makes the whole
/// batch a failure, carrying the first error; results after it are not
/// consumed. With no `Err` the batch is a plain success — a binary result
/// carries no diagnostic, so the batch never warns — and an empty batch is a
/// plain success over an empty container.
pub fn aggregate_binary<T, E, W>(items: Vec<core::result::Result<T, E>>) -> (r: Result<Vec<T>, E, Vec<W>>)
    ensures
        has_err(items@) ==> (r matches Result::Failure(err) && err == items@[
            first_err_index(items@)
        ]->Err_0),
        !has_err(items@) ==> (r matches Result::Success(vals) && vals@ == ok_vals_of(items@)),
{
    let ghost orig = items@;
    let mut remaining = items;
    let mut vals: Vec<T> = Vec::new();
    while remaining.len() > 0
        invariant
            orig == items@,
            remaining@.len() <= orig.len(),
            remaining@ == orig.subrange(orig.len() - remaining@.len(), orig.len() as int),
            forall|j: int| 0 <= j < orig.len() - remaining@.len() ==> !(#[trigger] orig[j] is Err),
            vals@ == ok_vals_of(orig.take(orig.len() - remaining@.len())),
        decreases remaining@.len(),
    {
        let ghost i = orig.len() - remaining@.len();
        let item = remaining.remove(0);
        proof {
            assert(item == orig[i]);
            assert(orig.take(i + 1).drop_last() =~= orig.take(i));
            assert(orig.take(i + 1).last() == orig[i]);
        }
        match item {
            core::result::Result::Ok(val) => {
                vals.push(val);
            },
            core::result::Result::Err(err) => {
                proof {
                    assert(orig[i] is Err);
                    assert(has_err(orig));
                    lemma_first_err_index(orig, i);
                }
                return Result::Failure(err);
            },
        }
    }
    proof {
        assert(orig.take(orig.len() - remaining@.len()) =~= orig);
    }
    Result::Success(vals)
}

} // verus!
