//! Turning a `Possible` of a `Result` inside out.
use vstd::prelude::*;

use crate::Possible;

verus! {

impl<T, E> Possible<Result<T, E>> {
    /// `Present(Ok(x))` becomes `Ok(Present(x))`, `Present(Err(e))`
    /// becomes `Err(e)`, and `Null` and `Void` become `Ok` of themselves.
    pub fn transpose(self) -> (r: Result<Possible<T>, E>)
        ensures
            r == (match self {
                Possible::Present(Err(e)) => Err(e),
                Possible::Present(Ok(x)) => Ok(Possible::Present(x)),
                Possible::Null => Ok(Possible::Null),
                Possible::Void => Ok(Possible::Void),
            }),
    {
        match self {
            Possible::Present(Err(e)) => Err(e),
            Possible::Present(Ok(x)) => Ok(Possible::Present(x)),
            Possible::Null => Ok(Possible::Null),
            Possible::Void => Ok(Possible::Void),
        }
    }
}

} // verus!
