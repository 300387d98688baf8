//! A three-state optional value: a value that is present, explicitly null,
//! or absent altogether.
//!
//! Ordinary optionals collapse "the field was null" and "the field was never
//! given" into one state. `Possible` keeps them apart, so that structured
//! data can be read and written again without inventing nulls or dropping
//! them.
use vstd::prelude::*;

pub mod boolean;
pub mod bridge;
pub mod copy;
pub mod deref;
pub mod filter;
pub mod from;
pub mod introspection;
pub mod iter;
pub mod laws;
pub mod map;
pub mod refs;
pub mod replace;
pub mod transpose;
pub mod unwrap;
pub mod zip;

pub use bridge::{Emission, FieldOutput, PossibleVisitor};
pub use iter::{IntoIter, Iter, IterMut};

verus! {

/// Three-state value that tells an explicit null apart from the absence of
/// a value.
#[derive(PartialEq, Eq, PartialOrd, Ord, Debug, Hash, Copy)]
pub enum Possible<T> {
    /// A concrete value is known.
    Present(T),
    /// The field exists and is explicitly empty.
    Null,
    /// The field was never provided.
    Void,
}

impl<T> Default for Possible<T> {
    /// The default is `Possible::Void`: a field that nobody touched.
    fn default() -> (r: Possible<T>)
        ensures
            r is Void,
    {
        Possible::Void
    }
}

} // verus!
