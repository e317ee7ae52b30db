//! JSON values as the handlers read them: component outputs and event
//! payloads. Numbers are held as serde_json holds them (a non-negative
//! integer, a negative integer, or a float); a float's value is not kept,
//! since nothing here reads it as a float.

use vstd::prelude::*;
use vstd::string::*;

verus! {

/// A JSON number.
#[derive(Clone, Copy, Debug, PartialEq, Eq, Structural)]
pub enum JsonNumber {
    /// A non-negative integer.
    PosInt(u64),
    /// A negative integer.
    NegInt(i64),
    /// A number with a fraction or exponent.
    Float,
}

/// A JSON value.
#[derive(Debug)]
pub enum JsonValue {
    Null,
    Bool(bool),
    Number(JsonNumber),
    Str(String),
    Array(Vec<JsonValue>),
    Object(Vec<(String, JsonValue)>),
}

/// The value under `key` among the entries of an object, if any: the first
/// entry with that key.
pub open spec fn lookup(entries: Seq<(String, JsonValue)>, key: Seq<char>) -> Option<JsonValue>
    decreases entries.len(),
{
    if entries.len() == 0 {
        None
    } else if entries[0].0@ == key {
        Some(entries[0].1)
    } else {
        lookup(entries.drop_first(), key)
    }
}

impl JsonValue {
    /// The value under `key`, when this is an object that has one.
    pub open spec fn spec_get(self, key: Seq<char>) -> Option<JsonValue> {
        match self {
            JsonValue::Object(entries) => lookup(entries@, key),
            _ => None,
        }
    }

    /// The text, when this is a string.
    pub open spec fn spec_as_str(self) -> Option<Seq<char>> {
        match self {
            JsonValue::Str(s) => Some(s@),
            _ => None,
        }
    }

    /// The elements, when this is an array.
    pub open spec fn spec_as_array(self) -> Option<Seq<JsonValue>> {
        match self {
            JsonValue::Array(items) => Some(items@),
            _ => None,
        }
    }

    /// The number as an `i64`, when it is an integer in its range.
    pub open spec fn spec_as_i64(self) -> Option<i64> {
        match self {
            JsonValue::Number(JsonNumber::PosInt(n)) => if n <= i64::MAX { Some(n as i64) } else { None },
            JsonValue::Number(JsonNumber::NegInt(n)) => Some(n),
            _ => None,
        }
    }

    /// The number as a `u64`, when it is a non-negative integer.
    pub open spec fn spec_as_u64(self) -> Option<u64> {
        match self {
            JsonValue::Number(JsonNumber::PosInt(n)) => Some(n),
            _ => None,
        }
    }

    /// Whether this is an object without entries.
    pub open spec fn spec_is_empty_object(self) -> bool {
        match self {
            JsonValue::Object(entries) => entries@.len() == 0,
            _ => false,
        }
    }

    /// The value under `key`, when this is an object that has one.
    pub fn get(&self, key: &str) -> (r: Option<&JsonValue>)
        ensures
            match r {
                Some(v) => self.spec_get(key@) == Some(*v),
                None => self.spec_get(key@) is None,
            },
    {
        match self {
            JsonValue::Object(entries) => {
                let wanted = String::from_str(key);
                let mut i: usize = 0;
                proof {
                    assert(entries@.skip(0) =~= entries@);
                }
                while i < entries.len()
                    invariant
                        i <= entries.len(),
                        wanted@ == key@,
                        self.spec_get(key@) == lookup(entries@, key@),
                        lookup(entries@, key@) == lookup(entries@.skip(i as int), key@),
                    decreases entries.len() - i,
                {
                    proof {
                        assert(entries@.skip(i as int).drop_first() =~= entries@.skip(i as int + 1));
                        assert(entries@.skip(i as int)[0] == entries@[i as int]);
                    }
                    if entries[i].0 == wanted {
                        proof {
                            assert(entries@[i as int].0@ == key@);
                            assert(lookup(entries@.skip(i as int), key@) == Some(entries@[i as int].1));
                        }
                        return Some(&entries[i].1);
                    }
                    i = i + 1;
                }
                None
            },
            _ => None,
        }
    }

    /// The text, when this is a string.
    pub fn as_str(&self) -> (r: Option<&String>)
        ensures
            match r {
                Some(s) => self.spec_as_str() == Some(s@),
                None => self.spec_as_str() is None,
            },
    {
        match self {
            JsonValue::Str(s) => Some(s),
            _ => None,
        }
    }

    /// The elements, when this is an array.
    pub fn as_array(&self) -> (r: Option<&Vec<JsonValue>>)
        ensures
            match r {
                Some(items) => self.spec_as_array() == Some(items@),
                None => self.spec_as_array() is None,
            },
    {
        match self {
            JsonValue::Array(items) => Some(items),
            _ => None,
        }
    }

    /// The number as an `i64`, when it is an integer in its range.
    pub fn as_i64(&self) -> (r: Option<i64>)
        ensures
            r == self.spec_as_i64(),
    {
        match self {
            JsonValue::Number(JsonNumber::PosInt(n)) => if *n <= 9_223_372_036_854_775_807u64 {
                Some(*n as i64)
            } else {
                None
            },
            JsonValue::Number(JsonNumber::NegInt(n)) => Some(*n),
            _ => None,
        }
    }

    /// The number as a `u64`, when it is a non-negative integer.
    pub fn as_u64(&self) -> (r: Option<u64>)
        ensures
            r == self.spec_as_u64(),
    {
        match self {
            JsonValue::Number(JsonNumber::PosInt(n)) => Some(*n),
            _ => None,
        }
    }

    /// Whether this is `null`.
    pub fn is_null(&self) -> (r: bool)
        ensures
            r == (self is Null),
    {
        match self {
            JsonValue::Null => true,
            _ => false,
        }
    }

    /// Whether this is an object without entries.
    pub fn is_empty_object(&self) -> (r: bool)
        ensures
            r == self.spec_is_empty_object(),
    {
        match self {
            JsonValue::Object(entries) => entries.len() == 0,
            _ => false,
        }
    }
}

} // verus!
