//! Changing a `Possible` in place: taking the value out, putting one in.
//! Each operation replaces the whole state at once.
use vstd::prelude::*;

use crate::Possible;

verus! {

impl<T> Possible<T> {
    /// Takes the state out and leaves `Void` in its place, never `Null`:
    /// no null is made up that the caller did not ask for.
    pub fn take(&mut self) -> (r: Possible<T>)
        ensures
            r == *old(self),
            *final(self) is Void,
    {
        let mut out = Possible::Void;
        core::mem::swap(self, &mut out);
        out
    }

    /// Puts `value` in, dropping any previous value, and returns a
    /// reference to it.
    pub fn insert(&mut self, value: T) -> (r: &mut T)
        ensures
            *r == value,
            *final(self) == Possible::Present(*final(r)),
    {
        *self = Possible::Present(value);
        match self {
            Possible::Present(v) => v,
            Possible::Null | Possible::Void => vstd::pervasive::unreached(),
        }
    }

    /// Puts `value` in when `self` is `Null` or `Void`, and returns a
    /// reference to the value now present.
    pub fn get_or_insert(&mut self, value: T) -> (r: &mut T)
        ensures
            *r == (match *old(self) {
                Possible::Present(v) => v,
                Possible::Null | Possible::Void => value,
            }),
            *final(self) == Possible::Present(*final(r)),
    {
        if !self.is_some() {
            *self = Possible::Present(value);
        }
        match self {
            Possible::Present(v) => v,
            Possible::Null | Possible::Void => vstd::pervasive::unreached(),
        }
    }

    /// Puts `f()` in when `self` is `Null` or `Void`, and returns a
    /// reference to the value now present. `f` is called only then.
    pub fn get_or_insert_with<F: FnOnce() -> T>(&mut self, f: F) -> (r: &mut T)
        requires
            !(*old(self) is Present) ==> f.requires(()),
        ensures
            match *old(self) {
                Possible::Present(v) => *r == v,
                Possible::Null | Possible::Void => f.ensures((), *r),
            },
            *final(self) == Possible::Present(*final(r)),
    {
        if !self.is_some() {
            *self = Possible::Present(f());
        }
        match self {
            Possible::Present(v) => v,
            Possible::Null | Possible::Void => vstd::pervasive::unreached(),
        }
    }

    /// Puts `value` in and returns the previous state unchanged.
    pub fn replace(&mut self, value: T) -> (r: Possible<T>)
        ensures
            r == *old(self),
            *final(self) == Possible::Present(value),
    {
        let mut out = Possible::Present(value);
        core::mem::swap(self, &mut out);
        out
    }
}

impl<T: Default> Possible<T> {
    /// Puts `T`'s default in when `self` is `Null` or `Void`, and returns a
    /// reference to the value now present.
    pub fn get_or_insert_default(&mut self) -> (r: &mut T)
        ensures
            match *old(self) {
                Possible::Present(v) => *r == v,
                Possible::Null | Possible::Void => call_ensures(T::default, (), *r),
            },
            *final(self) == Possible::Present(*final(r)),
    {
        if !self.is_some() {
            *self = Possible::Present(T::default());
        }
        match self {
            Possible::Present(v) => v,
            Possible::Null | Possible::Void => vstd::pervasive::unreached(),
        }
    }
}

} // verus!
