//! The declarative checks and how each kind of value meets them.

use vstd::prelude::*;
use crate::text::{is_infix, text_contains};

verus! {

/// serde_json's `Value`, carried opaque: the elements of a parsed array.
#[verifier::external_type_specification]
#[verifier::external_body]
pub struct ExJsonValue(serde_json::Value);

/// A declarative condition on the value held by one transcript fragment.
#[derive(Debug, Clone)]
pub enum Check {
    /// A JSON array with at least this many elements.
    LenGte(usize),
    /// An integer at least this large.
    Gte(i64),
    /// An integer at most this large.
    Lte(i64),
    /// An integer equal to this one.
    Eq(i64),
    /// A text holding this text.
    Contains(String),
    /// Decided by a custom handler; holds of any value when judged locally.
    Custom,
    /// Holds of any value.
    Any,
}

/// An integer value meets `check`.
pub open spec fn int_meets(value: i64, check: Check) -> bool {
    match check {
        Check::Gte(t) => value >= t,
        Check::Lte(t) => value <= t,
        Check::Eq(t) => value == t,
        Check::Any | Check::Custom => true,
        Check::LenGte(_) | Check::Contains(_) => false,
    }
}

/// A text value meets `check`.
pub open spec fn text_meets(value: Seq<char>, check: Check) -> bool {
    match check {
        Check::Contains(p) => is_infix(p@, value),
        Check::Any | Check::Custom => true,
        Check::LenGte(_) | Check::Gte(_) | Check::Lte(_) | Check::Eq(_) => false,
    }
}

/// A JSON array of `len` elements meets `check`.
pub open spec fn array_meets(len: nat, check: Check) -> bool {
    match check {
        Check::LenGte(n) => len >= n,
        Check::Any | Check::Custom => true,
        Check::Gte(_) | Check::Lte(_) | Check::Eq(_) | Check::Contains(_) => false,
    }
}

/// A value that a `Check` can be evaluated against.
pub trait CheckableValue {
    spec fn meets(&self, check: Check) -> bool;

    fn check_against(&self, check: &Check) -> (r: bool)
        ensures
            r == self.meets(*check),
    ;
}

impl CheckableValue for i64 {
    open spec fn meets(&self, check: Check) -> bool {
        int_meets(*self, check)
    }

    fn check_against(&self, check: &Check) -> (r: bool) {
        match check {
            Check::Gte(t) => *self >= *t,
            Check::Lte(t) => *self <= *t,
            Check::Eq(t) => *self == *t,
            Check::Any | Check::Custom => true,
            Check::LenGte(_) | Check::Contains(_) => false,
        }
    }
}

impl<'a> CheckableValue for &'a str {
    open spec fn meets(&self, check: Check) -> bool {
        text_meets(self@, check)
    }

    fn check_against(&self, check: &Check) -> (r: bool) {
        match check {
            Check::Contains(p) => text_contains(*self, p.as_str()),
            Check::Any | Check::Custom => true,
            Check::LenGte(_) | Check::Gte(_) | Check::Lte(_) | Check::Eq(_) => false,
        }
    }
}

impl<'a> CheckableValue for &'a Vec<serde_json::Value> {
    open spec fn meets(&self, check: Check) -> bool {
        array_meets(self@.len(), check)
    }

    fn check_against(&self, check: &Check) -> (r: bool) {
        match check {
            Check::LenGte(n) => self.len() >= *n,
            Check::Any | Check::Custom => true,
            Check::Gte(_) | Check::Lte(_) | Check::Eq(_) | Check::Contains(_) => false,
        }
    }
}

/// The number of elements of the JSON array that `text` holds, if it holds one.
pub uninterp spec fn json_array_len(text: Seq<char>) -> Option<nat>;

/// Relies on `serde_json::from_str::<Value>`: parses `text` as one JSON
/// document and hands out the elements when that document is an array.
#[verifier::external_body]
pub fn parse_json_array(text: &str) -> (r: Option<Vec<serde_json::Value>>)
    ensures
        match r {
            Some(items) => json_array_len(text@) == Some(items@.len()),
            None => json_array_len(text@) is None,
        },
{
    match serde_json::from_str::<serde_json::Value>(text) {
        Ok(serde_json::Value::Array(items)) => Some(items),
        _ => None,
    }
}

} // verus!
