//! Conversions to and from two-state optionals and plain values, and
//! collecting many `Possible`s into one.
use vstd::prelude::*;

use crate::Possible;
use crate::refs::ref_of;

verus! {

/// The two-state optional for `p`: `Null` and `Void` both become `None`.
/// The loss of the difference is intended.
pub open spec fn option_of<T>(p: Possible<T>) -> Option<T> {
    match p {
        Possible::Present(v) => Option::Some(v),
        Possible::Null | Possible::Void => Option::None,
    }
}

/// The `Possible` for a two-state optional: `None` becomes `Null`, since
/// absence cannot be read from an `Option`.
pub open spec fn possible_of<T>(o: Option<T>) -> Possible<T> {
    match o {
        Option::Some(v) => Possible::Present(v),
        Option::None => Possible::Null,
    }
}

impl<T> From<Possible<T>> for Option<T> {
    fn from(value: Possible<T>) -> (r: Option<T>) {
        match value {
            Possible::Present(value) => Option::Some(value),
            Possible::Null | Possible::Void => Option::None,
        }
    }
}

impl<T> vstd::std_specs::convert::FromSpecImpl<Possible<T>> for Option<T> {
    open spec fn obeys_from_spec() -> bool {
        true
    }

    open spec fn from_spec(value: Possible<T>) -> Option<T> {
        option_of(value)
    }
}

impl<T> From<Option<T>> for Possible<T> {
    fn from(value: Option<T>) -> (r: Possible<T>) {
        match value {
            Option::Some(value) => Possible::Present(value),
            Option::None => Possible::Null,
        }
    }
}

impl<T> vstd::std_specs::convert::FromSpecImpl<Option<T>> for Possible<T> {
    open spec fn obeys_from_spec() -> bool {
        true
    }

    open spec fn from_spec(value: Option<T>) -> Possible<T> {
        possible_of(value)
    }
}

impl<T> From<T> for Possible<T> {
    fn from(value: T) -> (r: Possible<T>) {
        Possible::Present(value)
    }
}

impl<T> vstd::std_specs::convert::FromSpecImpl<T> for Possible<T> {
    open spec fn obeys_from_spec() -> bool {
        true
    }

    open spec fn from_spec(value: T) -> Possible<T> {
        Possible::Present(value)
    }
}

impl<'a, T> From<&'a Possible<T>> for Possible<&'a T> {
    fn from(o: &'a Possible<T>) -> (r: Possible<&'a T>) {
        o.as_ref()
    }
}

impl<'a, T> vstd::std_specs::convert::FromSpecImpl<&'a Possible<T>> for Possible<&'a T> {
    open spec fn obeys_from_spec() -> bool {
        true
    }

    open spec fn from_spec(o: &'a Possible<T>) -> Possible<&'a T> {
        ref_of(o)
    }
}

impl<'a, T> From<&'a mut Possible<T>> for Possible<&'a mut T> {
    fn from(o: &'a mut Possible<T>) -> (r: Possible<&'a mut T>)
        ensures
            match *old(o) {
                Possible::Present(v) => {
                    &&& r matches Possible::Present(m)
                    &&& *m == v
                    &&& *final(o) == Possible::Present(*final(m))
                },
                Possible::Null => r is Null && *final(o) is Null,
                Possible::Void => r is Void && *final(o) is Void,
            },
    {
        o.as_mut()
    }
}

/// The result borrows mutably, which a spec function cannot state; the
/// contract of `from` itself says what it returns.
impl<'a, T> vstd::std_specs::convert::FromSpecImpl<&'a mut Possible<T>> for Possible<&'a mut T> {
    open spec fn obeys_from_spec() -> bool {
        false
    }

    open spec fn from_spec(o: &'a mut Possible<T>) -> Possible<&'a mut T> {
        vstd::pervasive::arbitrary()
    }
}

impl<A> Possible<Vec<A>> {
    /// Collects the values of `items` in order. The result is present only
    /// when every item is present; the first `Null` or `Void` ends the walk,
    /// and the whole is then `Null` (which of the two it was is not kept).
    pub fn from_iter(items: Vec<Possible<A>>) -> (r: Possible<Vec<A>>)
        ensures
            r is Present <==> forall|i: int| 0 <= i < items@.len() ==> #[trigger] items@[i] is Present,
            !(r is Present) ==> r is Null,
            r matches Possible::Present(v) ==> v@ == items@.map_values(|p: Possible<A>| p->Present_0),
    {
        let mut out: Vec<A> = Vec::new();
        for item in it: items
            invariant
                it.seq() == items@,
                out@.len() == it.index(),
                forall|i: int| 0 <= i < it.index() ==> #[trigger] items@[i] is Present,
                forall|i: int| 0 <= i < it.index() ==> out@[i] == #[trigger] items@[i]->Present_0,
        {
            match item {
                Possible::Present(v) => out.push(v),
                Possible::Null | Possible::Void => {
                    return Possible::Null;
                },
            }
        }
        proof {
            assert(out@ =~= items@.map_values(|p: Possible<A>| p->Present_0));
        }
        Possible::Present(out)
    }

    /// Collects the values of two-state `items` in order. The result is
    /// present only when every item is `Some`; otherwise it is `Null`.
    pub fn from_iter_options(items: Vec<Option<A>>) -> (r: Possible<Vec<A>>)
        ensures
            r is Present <==> forall|i: int| 0 <= i < items@.len() ==> #[trigger] items@[i] is Some,
            !(r is Present) ==> r is Null,
            r matches Possible::Present(v) ==> v@ == items@.map_values(|o: Option<A>| o->Some_0),
    {
        let mut out: Vec<A> = Vec::new();
        for item in it: items
            invariant
                it.seq() == items@,
                out@.len() == it.index(),
                forall|i: int| 0 <= i < it.index() ==> #[trigger] items@[i] is Some,
                forall|i: int| 0 <= i < it.index() ==> out@[i] == #[trigger] items@[i]->Some_0,
        {
            match item {
                Option::Some(v) => out.push(v),
                Option::None => {
                    return Possible::Null;
                },
            }
        }
        proof {
            assert(out@ =~= items@.map_values(|o: Option<A>| o->Some_0));
        }
        Possible::Present(out)
    }
}

} // verus!
