//! Taking the value out: forced, or with a fallback for `Null` and `Void`.
use vstd::prelude::*;

use crate::Possible;

verus! {

impl<T> Possible<T> {
    /// Returns the present value. Calling it on `Null` or `Void` is a
    /// contract violation; `msg` names the expectation for readers.
    pub fn expect(self, msg: &str) -> (r: T)
        requires
            self is Present,
        ensures
            r == self->Present_0,
    {
        match self {
            Possible::Present(val) => val,
            Possible::Null | Possible::Void => vstd::pervasive::unreached(),
        }
    }

    /// Returns the present value. Calling it on `Null` or `Void` is a
    /// contract violation; the fallback-based extractions never fail.
    pub fn unwrap(self) -> (r: T)
        requires
            self is Present,
        ensures
            r == self->Present_0,
    {
        match self {
            Possible::Present(value) => value,
            Possible::Null => vstd::pervasive::unreached(),
            Possible::Void => vstd::pervasive::unreached(),
        }
    }

    /// Returns the present value, or `default` for both `Null` and `Void`.
    pub fn unwrap_or(self, default: T) -> (r: T)
        ensures
            r == (match self {
                Possible::Present(x) => x,
                Possible::Null | Possible::Void => default,
            }),
    {
        match self {
            Possible::Present(x) => x,
            Possible::Null | Possible::Void => default,
        }
    }

    /// Returns the present value, or what `f` computes for both `Null` and
    /// `Void`.
    pub fn unwrap_or_else<F: FnOnce() -> T>(self, f: F) -> (r: T)
        requires
            !(self is Present) ==> f.requires(()),
        ensures
            match self {
                Possible::Present(x) => r == x,
                Possible::Null | Possible::Void => f.ensures((), r),
            },
    {
        match self {
            Possible::Present(x) => x,
            Possible::Null | Possible::Void => f(),
        }
    }
}

impl<T: Default> Possible<T> {
    /// Returns the present value, or `T`'s default for both `Null` and
    /// `Void`.
    pub fn unwrap_or_default(self) -> (r: T)
        ensures
            match self {
                Possible::Present(x) => r == x,
                Possible::Null | Possible::Void => call_ensures(T::default, (), r),
            },
    {
        match self {
            Possible::Present(x) => x,
            Possible::Null | Possible::Void => T::default(),
        }
    }
}

} // verus!
