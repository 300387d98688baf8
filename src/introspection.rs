//! Asking which state a `Possible` is in.
use vstd::prelude::*;

use crate::Possible;
use vstd::std_specs::cmp::PartialEqSpec;

verus! {

impl<T> Possible<T> {
    /// Whether a value is present.
    pub fn is_some(&self) -> (r: bool)
        ensures
            r == (*self is Present),
    {
        match self {
            Possible::Present(_) => true,
            Possible::Null | Possible::Void => false,
        }
    }

    /// Whether the value is an explicit null.
    pub fn is_none(&self) -> (r: bool)
        ensures
            r == (*self is Null),
    {
        match self {
            Possible::Null => true,
            Possible::Present(_) | Possible::Void => false,
        }
    }

    /// Whether the value is absent. A structure that embeds a `Possible`
    /// field uses this to leave the field out of its encoding.
    pub fn is_void(&self) -> (r: bool)
        ensures
            r == (*self is Void),
    {
        match self {
            Possible::Void => true,
            Possible::Present(_) | Possible::Null => false,
        }
    }

    /// Whether a value is present and `x` equals it.
    pub fn contains<U>(&self, x: &U) -> (r: bool) where U: PartialEq<T>
        ensures
            match *self {
                Possible::Present(y) => <U as PartialEqSpec<T>>::obeys_eq_spec() ==> r == x.eq_spec(&y),
                Possible::Null | Possible::Void => !r,
            },
    {
        match self {
            Possible::Present(y) => x == y,
            Possible::Null => false,
            Possible::Void => false,
        }
    }
}

} // verus!
