//! Copying and cloning: of the whole `Possible`, and of a referenced value.
use vstd::prelude::*;

use crate::Possible;

verus! {

/// `b` holds in the same state as `a`, with a present value that is a clone
/// of `a`'s.
pub open spec fn cloned_possible<T: Clone>(a: Possible<T>, b: Possible<T>) -> bool {
    match a {
        Possible::Present(x) => b matches Possible::Present(y) && cloned::<T>(x, y),
        Possible::Null => b is Null,
        Possible::Void => b is Void,
    }
}

impl<T: Copy> Possible<&T> {
    /// Copies the referenced value out; the state is kept.
    pub fn copied(self) -> (r: Possible<T>)
        ensures
            match self {
                Possible::Present(x) => r == Possible::Present(*x),
                Possible::Null => r is Null,
                Possible::Void => r is Void,
            },
    {
        match self {
            Possible::Present(x) => Possible::Present(*x),
            Possible::Null => Possible::Null,
            Possible::Void => Possible::Void,
        }
    }
}

impl<T: Copy> Possible<&mut T> {
    /// Copies the mutably referenced value out; the state is kept.
    pub fn copied(self) -> (r: Possible<T>)
        ensures
            match self {
                Possible::Present(x) => r == Possible::Present(*x),
                Possible::Null => r is Null,
                Possible::Void => r is Void,
            },
    {
        match self {
            Possible::Present(x) => Possible::Present(*x),
            Possible::Null => Possible::Null,
            Possible::Void => Possible::Void,
        }
    }
}

impl<T: Clone> Possible<&T> {
    /// Clones the referenced value out; the state is kept.
    pub fn cloned(self) -> (r: Possible<T>)
        ensures
            match self {
                Possible::Present(x) => r matches Possible::Present(y) && cloned::<T>(*x, y),
                Possible::Null => r is Null,
                Possible::Void => r is Void,
            },
    {
        match self {
            Possible::Present(x) => Possible::Present(x.clone()),
            Possible::Null => Possible::Null,
            Possible::Void => Possible::Void,
        }
    }
}

impl<T: Clone> Possible<&mut T> {
    /// Clones the mutably referenced value out; the state is kept.
    pub fn cloned(self) -> (r: Possible<T>)
        ensures
            match self {
                Possible::Present(x) => r matches Possible::Present(y) && cloned::<T>(*x, y),
                Possible::Null => r is Null,
                Possible::Void => r is Void,
            },
    {
        match self {
            Possible::Present(x) => Possible::Present(x.clone()),
            Possible::Null => Possible::Null,
            Possible::Void => Possible::Void,
        }
    }
}

impl<T: Clone> Clone for Possible<T> {
    /// Clones the present value; `Null` and `Void` reproduce themselves.
    fn clone(&self) -> (r: Self)
        ensures
            cloned_possible(*self, r),
    {
        match self {
            Possible::Present(x) => Possible::Present(x.clone()),
            Possible::Null => Possible::Null,
            Possible::Void => Possible::Void,
        }
    }

    /// Clones `source` into `self`.
    fn clone_from(&mut self, source: &Self)
        ensures
            cloned_possible(*source, *final(self)),
    {
        *self = source.clone();
    }
}

} // verus!
