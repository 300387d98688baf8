//! Boolean-style combinators: `and`, `and_then`, `or`, `or_else`.
use vstd::prelude::*;

use crate::Possible;

verus! {

/// What `x.and(y)` returns: `y` when `x` is present, otherwise the empty
/// state of `x`.
pub open spec fn and_spec<T, U>(x: Possible<T>, y: Possible<U>) -> Possible<U> {
    match x {
        Possible::Present(_) => y,
        Possible::Null => Possible::Null,
        Possible::Void => Possible::Void,
    }
}

/// What `x.or(y)` returns: `x` when it is present, otherwise `y`.
pub open spec fn or_spec<T>(x: Possible<T>, y: Possible<T>) -> Possible<T> {
    match x {
        Possible::Present(_) => x,
        Possible::Null | Possible::Void => y,
    }
}

impl<T> Possible<T> {
    /// Returns `possible_b` when `self` is present; otherwise `self`'s own
    /// empty state (`Null` or `Void`), without looking at `possible_b`.
    pub fn and<U>(self, possible_b: Possible<U>) -> (r: Possible<U>)
        ensures
            r == and_spec(self, possible_b),
    {
        match self {
            Possible::Present(_) => possible_b,
            Possible::Null => Possible::Null,
            Possible::Void => Possible::Void,
        }
    }

    /// Calls `f` with the present value and returns its result, which
    /// replaces `self` whatever its state; `Null` and `Void` pass through
    /// and `f` is not called.
    pub fn and_then<U, F: FnOnce(T) -> Possible<U>>(self, f: F) -> (r: Possible<U>)
        requires
            self matches Possible::Present(x) ==> f.requires((x,)),
        ensures
            match self {
                Possible::Present(x) => f.ensures((x,), r),
                Possible::Null => r is Null,
                Possible::Void => r is Void,
            },
    {
        match self {
            Possible::Present(x) => f(x),
            Possible::Null => Possible::Null,
            Possible::Void => Possible::Void,
        }
    }

    /// Returns `self` when it is present, otherwise `possible_b`.
    pub fn or(self, possible_b: Possible<T>) -> (r: Possible<T>)
        ensures
            r == or_spec(self, possible_b),
    {
        match self {
            Possible::Present(_) => self,
            Possible::Null | Possible::Void => possible_b,
        }
    }

    /// Returns `self` when it is present, otherwise calls `f` and returns
    /// its result.
    pub fn or_else<F: FnOnce() -> Possible<T>>(self, f: F) -> (r: Possible<T>)
        requires
            !(self is Present) ==> f.requires(()),
        ensures
            self is Present ==> r == self,
            !(self is Present) ==> f.ensures((), r),
    {
        match self {
            Possible::Present(_) => self,
            Possible::Null | Possible::Void => f(),
        }
    }
}

} // verus!
