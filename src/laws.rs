//! Laws that relate the combinators across all three states.
use vstd::prelude::*;

use crate::Possible;
use crate::boolean::{and_spec, or_spec};
use crate::from::{option_of, possible_of};
use crate::zip::zip_spec;

verus! {

/// A present `x` is kept by `x.or(y)` whatever `y` is, and `x.and(z)` is
/// `z` whatever `z` is.
pub proof fn lemma_present_identities<T, U>(x: Possible<T>, y: Possible<T>, z: Possible<U>)
    requires
        x is Present,
    ensures
        or_spec(x, y) == x,
        and_spec(x, z) == z,
{
}

/// `Void` beats `Null`, which beats `Present`: `zip` of anything with
/// `Void` is `Void`, `Void.and(y)` is `Void`, and `x.and(Void)` is `Void`
/// for a present `x`; two nulls give `Null`; two present values give the
/// present pair (and `and` gives the second).
pub proof fn lemma_dominance<T, U>(x: Possible<T>, y: Possible<U>)
    ensures
        x is Void || y is Void ==> zip_spec(x, y) is Void,
        x is Void ==> and_spec(x, y) is Void,
        x is Present && y is Void ==> and_spec(x, y) is Void,
        x is Null && y is Null ==> zip_spec(x, y) is Null && and_spec(x, y) is Null,
        x is Null && y is Present ==> zip_spec(x, y) is Null,
        x is Present && y is Null ==> zip_spec(x, y) is Null,
        x is Present && y is Present ==> {
            &&& zip_spec(x, y) == Possible::Present((x->Present_0, y->Present_0))
            &&& and_spec(x, y) == y
        },
{
}

/// A default `Possible` is absent: it is `Void`, neither `Null` nor
/// present.
pub proof fn lemma_default_is_void<T>(r: Possible<T>)
    requires
        call_ensures(<Possible<T> as Default>::default, (), r),
    ensures
        r is Void,
        !(r is Null),
        !(r is Present),
{
}

/// Through a two-state optional and back, `Null` and `Void` both come
/// back as `Null` (absence is never recovered), and a present value comes
/// back as it was.
pub proof fn lemma_option_round_trip<T>(x: Possible<T>)
    ensures
        !(x is Present) ==> option_of(x) is None && possible_of(option_of(x)) is Null,
        x is Present ==> possible_of(option_of(x)) == x,
{
}

} // verus!
