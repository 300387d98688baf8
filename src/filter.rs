//! Keeping a present value only when it passes a test.
use vstd::prelude::*;

use crate::Possible;

verus! {

impl<T> Possible<T> {
    /// `Null` and `Void` pass through. A present value is kept when
    /// `predicate` accepts it, and becomes `Null` when it does not: the
    /// value existed but was rejected.
    pub fn filter<P: FnOnce(&T) -> bool>(self, predicate: P) -> (r: Self)
        requires
            self matches Possible::Present(x) ==> predicate.requires((&x,)),
        ensures
            match self {
                Possible::Present(x) => exists|keep: bool| {
                    &&& predicate.ensures((&x,), keep)
                    &&& r == (if keep { Possible::Present(x) } else { Possible::Null })
                },
                Possible::Null => r is Null,
                Possible::Void => r is Void,
            },
    {
        match self {
            Possible::Void => Possible::Void,
            Possible::Null => Possible::Null,
            Possible::Present(x) => {
                if predicate(&x) {
                    Possible::Present(x)
                } else {
                    Possible::Null
                }
            },
        }
    }
}

} // verus!
