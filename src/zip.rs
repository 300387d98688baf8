//! Combining two `Possible`s into one of a pair.
use vstd::prelude::*;

use crate::Possible;

verus! {

/// What `x.zip(y)` returns: the pair when both are present; else `Void`
/// when either is `Void`, and `Null` otherwise. `Void` wins over `Null`,
/// which wins over `Present`.
pub open spec fn zip_spec<T, U>(x: Possible<T>, y: Possible<U>) -> Possible<(T, U)> {
    match (x, y) {
        (Possible::Present(a), Possible::Present(b)) => Possible::Present((a, b)),
        (Possible::Void, _) | (_, Possible::Void) => Possible::Void,
        _ => Possible::Null,
    }
}

impl<T> Possible<T> {
    /// Zips `self` with `other`: `Present((s, o))` when both are present;
    /// `Void` when either is `Void`; `Null` otherwise.
    pub fn zip<U>(self, other: Possible<U>) -> (r: Possible<(T, U)>)
        ensures
            r == zip_spec(self, other),
    {
        match (self, other) {
            (Possible::Present(a), Possible::Present(b)) => Possible::Present((a, b)),
            (Possible::Present(_), Possible::Null)
            | (Possible::Null, Possible::Present(_))
            | (Possible::Null, Possible::Null) => Possible::Null,
            (Possible::Void, _) | (_, Possible::Void) => Possible::Void,
        }
    }
}

} // verus!
