//! Transforming the present value, and turning a `Possible` into a plain
//! value or a `Result`.
use vstd::prelude::*;

use crate::Possible;

verus! {

impl<T> Possible<T> {
    /// Applies `f` to a present value; `Null` and `Void` pass through and
    /// `f` is not called.
    pub fn map<U, F: FnOnce(T) -> U>(self, f: F) -> (r: Possible<U>)
        requires
            self matches Possible::Present(x) ==> f.requires((x,)),
        ensures
            match self {
                Possible::Present(x) => r matches Possible::Present(y) && f.ensures((x,), y),
                Possible::Null => r is Null,
                Possible::Void => r is Void,
            },
    {
        match self {
            Possible::Present(x) => Possible::Present(f(x)),
            Possible::Null => Possible::Null,
            Possible::Void => Possible::Void,
        }
    }

    /// Applies `f` to a present value, or returns `default` for both `Null`
    /// and `Void`.
    pub fn map_or<U, F: FnOnce(T) -> U>(self, default: U, f: F) -> (r: U)
        requires
            self matches Possible::Present(x) ==> f.requires((x,)),
        ensures
            match self {
                Possible::Present(x) => f.ensures((x,), r),
                Possible::Null | Possible::Void => r == default,
            },
    {
        match self {
            Possible::Present(t) => f(t),
            Possible::Null | Possible::Void => default,
        }
    }

    /// Applies `f` to a present value, or calls `default` for both `Null`
    /// and `Void`.
    pub fn map_or_else<U, D: FnOnce() -> U, F: FnOnce(T) -> U>(self, default: D, f: F) -> (r: U)
        requires
            self matches Possible::Present(x) ==> f.requires((x,)),
            !(self is Present) ==> default.requires(()),
        ensures
            match self {
                Possible::Present(x) => f.ensures((x,), r),
                Possible::Null | Possible::Void => default.ensures((), r),
            },
    {
        match self {
            Possible::Present(t) => f(t),
            Possible::Null | Possible::Void => default(),
        }
    }

    /// `Ok` of a present value, or `Err(err)` for both `Null` and `Void`.
    pub fn ok_or<E>(self, err: E) -> (r: Result<T, E>)
        ensures
            r == (match self {
                Possible::Present(v) => Ok(v),
                Possible::Null | Possible::Void => Err(err),
            }),
    {
        match self {
            Possible::Present(v) => Ok(v),
            Possible::Null | Possible::Void => Err(err),
        }
    }

    /// `Ok` of a present value, or `Err` of what `err` computes for both
    /// `Null` and `Void`.
    pub fn ok_or_else<E, F: FnOnce() -> E>(self, err: F) -> (r: Result<T, E>)
        requires
            !(self is Present) ==> err.requires(()),
        ensures
            match self {
                Possible::Present(v) => r == Ok::<T, E>(v),
                Possible::Null | Possible::Void => r matches Err(e) && err.ensures((), e),
            },
    {
        match self {
            Possible::Present(v) => Ok(v),
            Possible::Null | Possible::Void => Err(err()),
        }
    }
}

} // verus!
