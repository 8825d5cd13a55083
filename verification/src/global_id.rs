//! Typed identifier handles: a key together with the type that owns it.

use crate::codec::{
    decoded, encodable, from_global_id, global_id_text, to_global_id, DecodeError, SEPARATOR,
};
use std::cmp::Ordering;
use std::marker::PhantomData;
use std::str::FromStr;
use vstd::prelude::*;
use vstd::string::*;

verus! {

/// A type with a type tag: the name it goes by in identifiers. The tag is unique
/// among the registered types and holds no separator.
pub trait NamedNode {
    const TYPE_NAME: &'static str;
}

/// The type tag of a type declared as `declared`: the configured tag where one
/// is given, the declared name otherwise.
pub fn type_tag(declared: &str, configured: Option<String>) -> (tag: String)
    ensures
        tag@ == match configured {
            Some(chosen) => chosen@,
            None => declared@,
        },
{
    match configured {
        Some(chosen) => chosen,
        None => declared.to_owned(),
    }
}

/// The identity of a node of type `T`: its key, marked with `T` at compile time
/// only. Handles of one type are equal where their keys are.
#[derive(Debug)]
pub struct GlobalId<T> {
    key: u128,
    owner: PhantomData<T>,
}

impl<T> View for GlobalId<T> {
    type V = u128;

    closed spec fn view(&self) -> u128 {
        self.key
    }
}

impl<T> GlobalId<T> {
    /// The handle of `key`.
    pub closed spec fn of_key(key: u128) -> Self {
        GlobalId { key, owner: PhantomData }
    }

    /// The handle of a key has that key, and a handle is the handle of its key.
    pub broadcast proof fn lemma_of_key(key: u128)
        ensures
            (#[trigger] Self::of_key(key))@ == key,
    {
    }

    /// Two handles with the same key are the same handle.
    pub proof fn lemma_same_key(self, other: Self)
        requires
            self@ == other@,
        ensures
            self == other,
    {
    }

    /// What parsing the opaque identifier `id` gives: the handle of its key,
    /// whatever its type tag, or the decoding error.
    pub open spec fn parsed(id: Seq<char>) -> Result<Self, DecodeError> {
        match decoded(id) {
            Ok((_, key)) => Ok(Self::of_key(key)),
            Err(e) => Err(e),
        }
    }

    /// Parses an opaque identifier into a handle. The type tag in the identifier
    /// is not compared with `T`.
    pub fn parse_str(id: &str) -> (outcome: Result<Self, DecodeError>)
        ensures
            outcome == Self::parsed(id@),
    {
        match from_global_id(id) {
            Ok((_, key)) => Ok(GlobalId { key, owner: PhantomData }),
            Err(e) => Err(e),
        }
    }

    /// What parsing the scalar `value` gives.
    pub open spec fn parsed_scalar(value: ScalarValue) -> Result<Self, ScalarError> {
        match value {
            ScalarValue::Text(id) => match Self::parsed(id@) {
                Ok(handle) => Ok(handle),
                Err(e) => Err(ScalarError::Invalid(e)),
            },
            ScalarValue::Other => Err(ScalarError::ExpectedText),
        }
    }

    /// Parses an input scalar: a text that holds an opaque identifier.
    pub fn parse(value: ScalarValue) -> (outcome: Result<Self, ScalarError>)
        ensures
            outcome == Self::parsed_scalar(value),
    {
        match value {
            ScalarValue::Text(id) => match Self::parse_str(id.as_str()) {
                Ok(handle) => Ok(handle),
                Err(e) => Err(ScalarError::Invalid(e)),
            },
            ScalarValue::Other => Err(ScalarError::ExpectedText),
        }
    }
}

impl<T: NamedNode> GlobalId<T> {
    /// The opaque identifier of this handle, under the type tag of `T`.
    pub fn to_string(&self) -> (global_id: String)
        requires
            encodable(T::TYPE_NAME@),
        ensures
            global_id@ == global_id_text(T::TYPE_NAME@, self@),
            !T::TYPE_NAME@.contains(SEPARATOR) ==> Self::parsed(global_id@) == Ok::<
                Self,
                DecodeError,
            >(*self),
    {
        to_global_id(T::TYPE_NAME, self.key)
    }

    /// The output scalar of this handle: its opaque identifier as a text.
    pub fn to_value(&self) -> (value: ScalarValue)
        requires
            encodable(T::TYPE_NAME@),
        ensures
            value matches ScalarValue::Text(id) && id@ == global_id_text(T::TYPE_NAME@, self@),
    {
        ScalarValue::Text(self.to_string())
    }
}

/// A scalar value as the query layer hands it in: a text, or anything else.
#[derive(Clone, Debug, PartialEq, Eq)]
pub enum ScalarValue {
    Text(String),
    Other,
}

/// Why an input scalar is no identifier.
#[derive(Clone, Copy, Debug, PartialEq, Eq, Structural)]
pub enum ScalarError {
    /// The scalar is a text that does not decode.
    Invalid(DecodeError),
    /// The scalar is no text.
    ExpectedText,
}

impl<T> Clone for GlobalId<T> {
    fn clone(&self) -> (copy: Self)
        ensures
            copy == *self,
    {
        GlobalId { key: self.key, owner: PhantomData }
    }
}

impl<T> Copy for GlobalId<T> {

}

impl<T> PartialEq for GlobalId<T> {
    fn eq(&self, other: &Self) -> (r: bool) {
        self.key == other.key
    }
}

impl<T> Eq for GlobalId<T> {

}

impl<T> vstd::std_specs::cmp::PartialEqSpecImpl for GlobalId<T> {
    open spec fn obeys_eq_spec() -> bool {
        true
    }

    open spec fn eq_spec(&self, other: &Self) -> bool {
        self@ == other@
    }
}

impl<T> PartialOrd for GlobalId<T> {
    fn partial_cmp(&self, other: &Self) -> (r: Option<Ordering>) {
        if self.key < other.key {
            Some(Ordering::Less)
        } else if self.key == other.key {
            Some(Ordering::Equal)
        } else {
            Some(Ordering::Greater)
        }
    }
}

impl<T> vstd::std_specs::cmp::PartialOrdSpecImpl for GlobalId<T> {
    open spec fn obeys_partial_cmp_spec() -> bool {
        true
    }

    open spec fn partial_cmp_spec(&self, other: &Self) -> Option<Ordering> {
        if self@ < other@ {
            Some(Ordering::Less)
        } else if self@ == other@ {
            Some(Ordering::Equal)
        } else {
            Some(Ordering::Greater)
        }
    }
}

impl<T> From<u128> for GlobalId<T> {
    fn from(key: u128) -> (handle: Self) {
        GlobalId { key, owner: PhantomData }
    }
}

impl<T> vstd::std_specs::convert::FromSpecImpl<u128> for GlobalId<T> {
    open spec fn obeys_from_spec() -> bool {
        true
    }

    open spec fn from_spec(key: u128) -> Self {
        Self::of_key(key)
    }
}

impl<T> From<GlobalId<T>> for u128 {
    fn from(handle: GlobalId<T>) -> (key: u128) {
        handle.key
    }
}

impl<T> vstd::std_specs::convert::FromSpecImpl<GlobalId<T>> for u128 {
    open spec fn obeys_from_spec() -> bool {
        true
    }

    open spec fn from_spec(handle: GlobalId<T>) -> u128 {
        handle@
    }
}

impl<'a, T> From<&'a GlobalId<T>> for u128 {
    fn from(handle: &'a GlobalId<T>) -> (key: u128) {
        handle.key
    }
}

impl<'a, T> vstd::std_specs::convert::FromSpecImpl<&'a GlobalId<T>> for u128 {
    open spec fn obeys_from_spec() -> bool {
        true
    }

    open spec fn from_spec(handle: &'a GlobalId<T>) -> u128 {
        handle@
    }
}

impl<T> FromStr for GlobalId<T> {
    type Err = DecodeError;

    /// Parses an opaque identifier into a handle, as `parse_str` does.
    fn from_str(id: &str) -> (outcome: Result<Self, DecodeError>)
        ensures
            outcome == Self::parsed(id@),
    {
        Self::parse_str(id)
    }
}

} // verus!
