//! The bridge between the three states and the two-state (value or null)
//! vocabulary of structured data formats.
//!
//! Decoding: a format reader reports a value, a null, or a unit marker for
//! a field; `PossibleVisitor` turns each report into a state. A field the
//! reader never reports stays at the default, `Void`.
//!
//! Encoding: a present value is written as a value, `Null` as the format's
//! null, and `Void` is left out where the host structure skips fields that
//! satisfy `is_void`. Where it cannot skip, `Void` is written as `Null` is;
//! where the format has no null, `Null` is left out as `Void` is.
use vstd::prelude::*;

use crate::Possible;

verus! {

/// Stateless dispatcher that turns what a format reader reports for one
/// field into a `Possible`.
pub struct PossibleVisitor;

impl PossibleVisitor {
    /// The name of what the dispatcher accepts, for readers' messages.
    pub fn expecting(&self) -> (r: &'static str)
        ensures
            r@ == "possible"@,
    {
        "possible"
    }

    /// The reader reported a unit marker: the field is absent.
    pub fn visit_unit<T>(self) -> (r: Possible<T>)
        ensures
            r is Void,
    {
        Possible::Void
    }

    /// The reader reported an explicit null.
    pub fn visit_none<T>(self) -> (r: Possible<T>)
        ensures
            r is Null,
    {
        Possible::Null
    }

    /// The reader reported a value, and `decoded` is the outcome of decoding
    /// it. A decoding error is handed back as it is.
    pub fn visit_some<T, E>(self, decoded: Result<T, E>) -> (r: Result<Possible<T>, E>)
        ensures
            r == (match decoded {
                Ok(v) => Ok(Possible::Present(v)),
                Err(e) => Err::<Possible<T>, E>(e),
            }),
    {
        match decoded {
            Ok(v) => Ok(Possible::Present(v)),
            Err(e) => Err(e),
        }
    }
}

/// The call an encoder makes to write one `Possible`.
pub enum Emission<'a, T> {
    /// Write the value as a concrete value is written.
    Value(&'a T),
    /// Write the format's null.
    Null,
    /// Write a unit marker.
    Unit,
}

/// How one field of a structure comes out in a given format.
pub enum FieldOutput<'a, T> {
    /// The key with the value.
    Value(&'a T),
    /// The key with the format's null.
    Null,
    /// The key is left out.
    Omitted,
}

/// How a field holding `p` comes out in a format that has a null when
/// `has_null` holds, from a structure that skips fields satisfying
/// `is_void` when `skips_void` holds.
pub open spec fn field_output_spec<'a, T>(p: &'a Possible<T>, has_null: bool, skips_void: bool) -> FieldOutput<'a, T> {
    match *p {
        Possible::Present(v) => FieldOutput::Value(&v),
        Possible::Null => if has_null {
            FieldOutput::Null
        } else {
            FieldOutput::Omitted
        },
        Possible::Void => if skips_void || !has_null {
            FieldOutput::Omitted
        } else {
            FieldOutput::Null
        },
    }
}

impl<T> Possible<T> {
    /// The encoder call for `self`: its value, a null, or a unit marker
    /// for `Void`.
    pub fn emission(&self) -> (r: Emission<'_, T>)
        ensures
            match *self {
                Possible::Present(v) => r matches Emission::Value(w) && *w == v,
                Possible::Null => r is Null,
                Possible::Void => r is Unit,
            },
    {
        match self {
            Possible::Present(value) => Emission::Value(value),
            Possible::Null => Emission::Null,
            Possible::Void => Emission::Unit,
        }
    }

    /// How a field holding `self` comes out: see `field_output_spec`.
    pub fn field_output(&self, has_null: bool, skips_void: bool) -> (r: FieldOutput<'_, T>)
        ensures
            r == field_output_spec(self, has_null, skips_void),
    {
        match self {
            Possible::Present(value) => FieldOutput::Value(value),
            Possible::Null => {
                if has_null {
                    FieldOutput::Null
                } else {
                    FieldOutput::Omitted
                }
            },
            Possible::Void => {
                if skips_void || !has_null {
                    FieldOutput::Omitted
                } else {
                    FieldOutput::Null
                }
            },
        }
    }

    /// The state of a field after decoding: what the reader reported, or
    /// `Void` when it never reported the field.
    pub fn from_field(visited: Option<Possible<T>>) -> (r: Possible<T>)
        ensures
            r == (match visited {
                Option::Some(p) => p,
                Option::None => Possible::Void,
            }),
    {
        match visited {
            Option::Some(p) => p,
            Option::None => Possible::Void,
        }
    }
}

} // verus!
