//! Views through a value's `Deref` target.
use vstd::prelude::*;

use core::ops::{Deref, DerefMut};

use crate::Possible;

verus! {

impl<T: Deref> Possible<T> {
    /// `Present(&*value)`, or the same empty state.
    pub fn as_deref(&self) -> (r: Possible<&T::Target>)
        ensures
            match *self {
                Possible::Present(t) => r matches Possible::Present(d) && call_ensures(T::deref, (&t,), d),
                Possible::Null => r is Null,
                Possible::Void => r is Void,
            },
    {
        match self {
            Possible::Present(t) => Possible::Present(t.deref()),
            Possible::Null => Possible::Null,
            Possible::Void => Possible::Void,
        }
    }
}

impl<T: DerefMut> Possible<T> {
    /// `Present(&mut *value)`, or the same empty state; the state of `self`
    /// is kept.
    pub fn as_deref_mut(&mut self) -> (r: Possible<&mut T::Target>)
        ensures
            match *old(self) {
                Possible::Present(v) => exists|m: &mut T| {
                    &&& *m == v
                    &&& *final(self) == Possible::Present(*final(m))
                    &&& r matches Possible::Present(d) && call_ensures(T::deref_mut, (m,), d)
                },
                Possible::Null => r is Null && *final(self) is Null,
                Possible::Void => r is Void && *final(self) is Void,
            },
    {
        match self {
            Possible::Present(t) => Possible::Present(t.deref_mut()),
            Possible::Null => Possible::Null,
            Possible::Void => Possible::Void,
        }
    }
}

} // verus!
