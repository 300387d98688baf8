//! Borrowed views of the contents, which keep the state.
use vstd::prelude::*;

use crate::Possible;

verus! {

/// `r` is `p` with its present value seen by reference.
pub open spec fn ref_of<T>(p: &Possible<T>) -> Possible<&T> {
    match *p {
        Possible::Present(x) => Possible::Present(&x),
        Possible::Null => Possible::Null,
        Possible::Void => Possible::Void,
    }
}

impl<T> Possible<T> {
    /// A read-only view: `Present(&value)`, or the same empty state.
    pub fn as_ref(&self) -> (r: Possible<&T>)
        ensures
            r == ref_of(self),
    {
        match self {
            Possible::Present(x) => Possible::Present(x),
            Possible::Null => Possible::Null,
            Possible::Void => Possible::Void,
        }
    }

    /// An exclusive view: `Present(&mut value)`, or the same empty state.
    /// Writes through the reference land in `self`; the state is kept.
    pub fn as_mut(&mut self) -> (r: Possible<&mut T>)
        ensures
            match *old(self) {
                Possible::Present(v) => {
                    &&& r matches Possible::Present(m)
                    &&& *m == v
                    &&& *final(self) == Possible::Present(*final(m))
                },
                Possible::Null => r is Null && *final(self) is Null,
                Possible::Void => r is Void && *final(self) is Void,
            },
    {
        match self {
            Possible::Present(x) => Possible::Present(x),
            Possible::Null => Possible::Null,
            Possible::Void => Possible::Void,
        }
    }
}

} // verus!
