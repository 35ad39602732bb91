//! Turn a boolean into an `Either`: `Left` when it is true, `Right` when it
//! is false, with the two payloads supplied either eagerly as values or
//! lazily as thunks.

pub use either::Either;

use vstd::prelude::*;

verus! {

/// Relies on `either::Either`: a public two-variant enum, `Left(L)` or
/// `Right(R)`. Declaring it lets verified code construct and inspect it.
#[verifier::external_type_specification]
#[verifier::reject_recursive_types(L)]
#[verifier::reject_recursive_types(R)]
pub struct ExEither<L, R>(Either<L, R>);

/// The value that `either` must return: `Left(left)` when `b` is true,
/// `Right(right)` when it is false.
pub open spec fn either_of<L, R>(b: bool, left: L, right: R) -> Either<L, R> {
    if b {
        Either::Left(left)
    } else {
        Either::Right(right)
    }
}

/// What `either_else` must return: the variant chosen by `b`, carrying a
/// value that the chosen thunk can produce. The other thunk is never run,
/// so nothing is asked of it.
pub open spec fn lazy_either_post<L, R, FL: FnOnce() -> L, FR: FnOnce() -> R>(
    b: bool,
    l_func: FL,
    r_func: FR,
    r: Either<L, R>,
) -> bool {
    if b {
        r matches Either::Left(v) && call_ensures(l_func, (), v)
    } else {
        r matches Either::Right(v) && call_ensures(r_func, (), v)
    }
}

/// Extension trait to create the `Either` type from a boolean. Can be
/// implemented on any type that can answer a true/false question.
pub trait Eitherable {
    /// The truth value that picks the variant: `Left` when true, `Right`
    /// when false.
    spec fn truth(&self) -> bool;

    /// If the receiver is true, returns `Either::Left(left)`; if it is
    /// false, returns `Either::Right(right)`. `left` and `right` are
    /// evaluated eagerly. For lazy evaluation, use `either_else()`.
    fn either<L, R>(&self, left: L, right: R) -> (r: Either<L, R>)
        ensures
            r == either_of(self.truth(), left, right),
    ;

    /// Same as `either()`, but the values are lazily evaluated: only the
    /// thunk of the chosen variant is invoked, and its result becomes the
    /// payload.
    fn either_else<L, FL: FnOnce() -> L, R, FR: FnOnce() -> R>(
        &self,
        l_func: FL,
        r_func: FR,
    ) -> (r: Either<L, R>)
        requires
            self.truth() ==> call_requires(l_func, ()),
            !self.truth() ==> call_requires(r_func, ()),
        ensures
            lazy_either_post(self.truth(), l_func, r_func, r),
    ;
}

impl Eitherable for bool {
    open spec fn truth(&self) -> bool {
        *self
    }

    fn either<L, R>(&self, left: L, right: R) -> (r: Either<L, R>)
        ensures
            r == either_of(*self, left, right),
    {
        if *self {
            Either::Left(left)
        } else {
            Either::Right(right)
        }
    }

    fn either_else<L, FL: FnOnce() -> L, R, FR: FnOnce() -> R>(
        &self,
        l_func: FL,
        r_func: FR,
    ) -> (r: Either<L, R>)
        ensures
            lazy_either_post(*self, l_func, r_func, r),
    {
        if *self {
            Either::Left(l_func())
        } else {
            Either::Right(r_func())
        }
    }
}

/// Law: with effect-free thunks that can only return `left` and `right`,
/// the lazy form agrees with the eager form. Any result that meets
/// `either_else`'s contract is exactly the value `either` returns.
pub proof fn lemma_eager_lazy_agree<L, R, FL: FnOnce() -> L, FR: FnOnce() -> R>(
    b: bool,
    left: L,
    right: R,
    l_func: FL,
    r_func: FR,
    r_lazy: Either<L, R>,
)
    requires
        forall|v: L| call_ensures(l_func, (), v) ==> v == left,
        forall|v: R| call_ensures(r_func, (), v) ==> v == right,
        lazy_either_post(b, l_func, r_func, r_lazy),
    ensures
        r_lazy == either_of(b, left, right),
{
}

} // verus!
