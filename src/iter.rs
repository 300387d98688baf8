//! Walking a `Possible` as a sequence of zero or one elements: none for
//! `Null` and `Void`, one for a present value, from either end.
use vstd::prelude::*;

use crate::Possible;
use crate::refs::ref_of;

verus! {

/// The elements that a walk over `p` yields.
pub open spec fn seq_of<T>(p: Possible<T>) -> Seq<T> {
    match p {
        Possible::Present(x) => seq![x],
        Possible::Null | Possible::Void => Seq::empty(),
    }
}

impl<T> Possible<T> {
    /// A walk over a reference to the present value, if any.
    pub fn iter(&self) -> (r: Iter<'_, T>)
        ensures
            r@ == seq_of(ref_of(self)),
    {
        Iter { inner: Item { opt: self.as_ref() } }
    }

    /// A walk over a mutable reference to the present value, if any. Writes
    /// through it land in `self`; the state is kept.
    pub fn iter_mut(&mut self) -> (r: IterMut<'_, T>)
        ensures
            match *old(self) {
                Possible::Present(v) => {
                    &&& r@.len() == 1
                    &&& *r@[0] == v
                    &&& *final(self) == Possible::Present(*final(r@[0]))
                },
                Possible::Null => r@.len() == 0 && *final(self) is Null,
                Possible::Void => r@.len() == 0 && *final(self) is Void,
            },
    {
        IterMut { inner: Item { opt: self.as_mut() } }
    }

    /// A walk that moves the present value out, if any.
    pub fn into_iter(self) -> (r: IntoIter<T>)
        ensures
            r@ == seq_of(self),
    {
        IntoIter { inner: Item { opt: self } }
    }
}

/// Walk over a reference to the value of a `Possible`.
#[derive(Debug)]
pub struct Iter<'a, A: 'a> {
    inner: Item<&'a A>,
}

impl<'a, A> View for Iter<'a, A> {
    type V = Seq<&'a A>;

    /// The elements not yet yielded.
    closed spec fn view(&self) -> Seq<&'a A> {
        seq_of(self.inner.opt)
    }
}

impl<'a, A> Iter<'a, A> {
    /// Yields the next element, if one is left.
    pub fn next(&mut self) -> (r: Option<&'a A>)
        ensures
            next_spec(old(self)@, r),
            final(self)@ == rest_spec(old(self)@),
    {
        self.inner.next()
    }

    /// The number of elements left, as a lower and an exact upper bound.
    pub fn size_hint(&self) -> (r: (usize, Option<usize>))
        ensures
            r.0 == self@.len(),
            r.1 == Option::Some(self@.len() as usize),
    {
        self.inner.size_hint()
    }

    /// The number of elements left.
    pub fn len(&self) -> (r: usize)
        ensures
            r == self@.len(),
    {
        self.inner.len()
    }

    /// Yields the last element, if one is left.
    pub fn next_back(&mut self) -> (r: Option<&'a A>)
        ensures
            next_back_spec(old(self)@, r),
            final(self)@ == rest_back_spec(old(self)@),
    {
        self.inner.next_back()
    }
}

impl<'a, A> Clone for Iter<'a, A> {
    /// A walk over the same elements that are left.
    fn clone(&self) -> (r: Self)
        ensures
            r@ == self@,
    {
        Iter { inner: Item { opt: self.inner.opt } }
    }
}

/// Walk over a mutable reference to the value of a `Possible`.
#[derive(Debug)]
pub struct IterMut<'a, A: 'a> {
    inner: Item<&'a mut A>,
}

impl<'a, A> View for IterMut<'a, A> {
    type V = Seq<&'a mut A>;

    /// The elements not yet yielded.
    closed spec fn view(&self) -> Seq<&'a mut A> {
        seq_of(self.inner.opt)
    }
}

impl<'a, A> IterMut<'a, A> {
    /// Yields the next element, if one is left.
    pub fn next(&mut self) -> (r: Option<&'a mut A>)
        ensures
            next_spec(old(self)@, r),
            final(self)@ == rest_spec(old(self)@),
    {
        self.inner.next()
    }

    /// The number of elements left, as a lower and an exact upper bound.
    pub fn size_hint(&self) -> (r: (usize, Option<usize>))
        ensures
            r.0 == self@.len(),
            r.1 == Option::Some(self@.len() as usize),
    {
        self.inner.size_hint()
    }

    /// The number of elements left.
    pub fn len(&self) -> (r: usize)
        ensures
            r == self@.len(),
    {
        self.inner.len()
    }

    /// Yields the last element, if one is left.
    pub fn next_back(&mut self) -> (r: Option<&'a mut A>)
        ensures
            next_back_spec(old(self)@, r),
            final(self)@ == rest_back_spec(old(self)@),
    {
        self.inner.next_back()
    }
}

/// Walk that moves the value out of a `Possible`.
#[derive(Debug)]
pub struct IntoIter<A> {
    inner: Item<A>,
}

impl<A> View for IntoIter<A> {
    type V = Seq<A>;

    /// The elements not yet yielded.
    closed spec fn view(&self) -> Seq<A> {
        seq_of(self.inner.opt)
    }
}

impl<A> IntoIter<A> {
    /// Yields the next element, if one is left.
    pub fn next(&mut self) -> (r: Option<A>)
        ensures
            next_spec(old(self)@, r),
            final(self)@ == rest_spec(old(self)@),
    {
        self.inner.next()
    }

    /// The number of elements left, as a lower and an exact upper bound.
    pub fn size_hint(&self) -> (r: (usize, Option<usize>))
        ensures
            r.0 == self@.len(),
            r.1 == Option::Some(self@.len() as usize),
    {
        self.inner.size_hint()
    }

    /// The number of elements left.
    pub fn len(&self) -> (r: usize)
        ensures
            r == self@.len(),
    {
        self.inner.len()
    }

    /// Yields the last element, if one is left.
    pub fn next_back(&mut self) -> (r: Option<A>)
        ensures
            next_back_spec(old(self)@, r),
            final(self)@ == rest_back_spec(old(self)@),
    {
        self.inner.next_back()
    }
}

impl<A: Clone> Clone for IntoIter<A> {
    /// A walk over clones of the elements that are left.
    fn clone(&self) -> (r: Self)
        ensures
            r@.len() == self@.len(),
            forall|i: int| 0 <= i < self@.len() ==> cloned::<A>(#[trigger] self@[i], r@[i]),
    {
        IntoIter { inner: Item { opt: self.inner.opt.clone() } }
    }
}

/// `r` is the first of the elements `s`, or `None` when there are none.
pub open spec fn next_spec<A>(s: Seq<A>, r: Option<A>) -> bool {
    if s.len() == 0 {
        r is None
    } else {
        r == Option::Some(s[0])
    }
}

/// What is left of `s` after one element is taken from the front.
pub open spec fn rest_spec<A>(s: Seq<A>) -> Seq<A> {
    if s.len() == 0 {
        s
    } else {
        s.drop_first()
    }
}

/// `r` is the last of the elements `s`, or `None` when there are none.
pub open spec fn next_back_spec<A>(s: Seq<A>, r: Option<A>) -> bool {
    if s.len() == 0 {
        r is None
    } else {
        r == Option::Some(s.last())
    }
}

/// What is left of `s` after one element is taken from the back.
pub open spec fn rest_back_spec<A>(s: Seq<A>) -> Seq<A> {
    if s.len() == 0 {
        s
    } else {
        s.drop_last()
    }
}

/// The walk shared by the three iterators: yields the value of `opt` once.
#[derive(Debug)]
struct Item<A> {
    opt: Possible<A>,
}

impl<A> Item<A> {
    fn next(&mut self) -> (r: Option<A>)
        ensures
            next_spec(seq_of(old(self).opt), r),
            seq_of(final(self).opt) == rest_spec(seq_of(old(self).opt)),
    {
        let r = match self.opt.take() {
            Possible::Present(v) => Option::Some(v),
            Possible::Null | Possible::Void => Option::None,
        };
        proof {
            assert(seq_of(self.opt) =~= rest_spec(seq_of(old(self).opt)));
        }
        r
    }

    fn size_hint(&self) -> (r: (usize, Option<usize>))
        ensures
            r.0 == seq_of(self.opt).len(),
            r.1 == Option::Some(seq_of(self.opt).len() as usize),
    {
        match self.opt {
            Possible::Present(_) => (1, Option::Some(1)),
            Possible::Null | Possible::Void => (0, Option::Some(0)),
        }
    }

    fn len(&self) -> (r: usize)
        ensures
            r == seq_of(self.opt).len(),
    {
        match self.opt {
            Possible::Present(_) => 1,
            Possible::Null | Possible::Void => 0,
        }
    }

    fn next_back(&mut self) -> (r: Option<A>)
        ensures
            next_back_spec(seq_of(old(self).opt), r),
            seq_of(final(self).opt) == rest_back_spec(seq_of(old(self).opt)),
    {
        let r = match self.opt.take() {
            Possible::Present(v) => Option::Some(v),
            Possible::Null | Possible::Void => Option::None,
        };
        proof {
            assert(seq_of(self.opt) =~= rest_back_spec(seq_of(old(self).opt)));
        }
        r
    }
}

} // verus!
