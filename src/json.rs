//! The response as plain values: a JSON document, and reads on it with the
//! meaning of a dynamic JSON value's accessors (a missing key reads as
//! `null`, an accessor of the wrong kind yields nothing).

use vstd::prelude::*;
use crate::decimal::Decimal;

verus! {

/// A JSON number, kept as written: a non-negative integer, a negative
/// integer, or a number with a fraction or exponent.
#[derive(Clone, Copy, Debug, PartialEq, Eq, Structural)]
pub enum JsonNumber {
    PosInt(u64),
    NegInt(i64),
    Float(Decimal),
}

/// A JSON document. An object keeps its entries in order; keys are looked
/// up from the front.
#[derive(Debug)]
pub enum Json {
    Null,
    Bool(bool),
    Number(JsonNumber),
    Str(String),
    Array(Vec<Json>),
    Object(Vec<(String, Json)>),
}

/// The value of the first entry of `entries` under `key`.
pub open spec fn lookup(entries: Seq<(String, Json)>, key: Seq<char>) -> Option<Json>
    decreases entries.len(),
{
    if entries.len() == 0 {
        None
    } else if entries[0].0@ == key {
        Some(entries[0].1)
    } else {
        lookup(entries.drop_first(), key)
    }
}

/// `j[key]`: the value under `key` when `j` is an object that has it, else `null`.
pub open spec fn member(j: Json, key: Seq<char>) -> Json {
    match j {
        Json::Object(entries) => match lookup(entries@, key) {
            Some(v) => v,
            None => Json::Null,
        },
        _ => Json::Null,
    }
}

/// The entries of an object.
pub open spec fn as_object(j: Json) -> Option<Seq<(String, Json)>> {
    match j {
        Json::Object(entries) => Some(entries@),
        _ => None,
    }
}

/// The items of an array.
pub open spec fn as_array(j: Json) -> Option<Seq<Json>> {
    match j {
        Json::Array(items) => Some(items@),
        _ => None,
    }
}

/// The characters of a string.
pub open spec fn as_str(j: Json) -> Option<Seq<char>> {
    match j {
        Json::Str(s) => Some(s@),
        _ => None,
    }
}

/// A non-negative integer.
pub open spec fn as_u64(j: Json) -> Option<u64> {
    match j {
        Json::Number(JsonNumber::PosInt(n)) => Some(n),
        _ => None,
    }
}

/// An integer that fits in `i64`.
pub open spec fn as_i64(j: Json) -> Option<i64> {
    match j {
        Json::Number(JsonNumber::PosInt(n)) => if n <= i64::MAX { Some(n as i64) } else { None },
        Json::Number(JsonNumber::NegInt(n)) => Some(n),
        _ => None,
    }
}

/// Any number whose value a `Decimal` holds: every integer up to
/// `i64::MAX` and every number with a fraction or exponent.
pub open spec fn as_decimal(j: Json) -> Option<Decimal> {
    match j {
        Json::Number(JsonNumber::PosInt(n)) => if n <= i64::MAX {
            Some(Decimal { mantissa: n as i64, exponent: 0 })
        } else {
            None
        },
        Json::Number(JsonNumber::NegInt(n)) => Some(Decimal { mantissa: n, exponent: 0 }),
        Json::Number(JsonNumber::Float(d)) => Some(d),
        _ => None,
    }
}

/// The entry of `entries` under `key`, if any.
pub fn get<'a>(entries: &'a Vec<(String, Json)>, key: &String) -> (r: Option<&'a Json>)
    ensures
        match r {
            Some(v) => lookup(entries@, key@) == Some(*v),
            None => lookup(entries@, key@) is None,
        },
{
    let mut i: usize = 0;
    proof {
        assert(entries@.subrange(0, entries@.len() as int) =~= entries@);
    }
    while i < entries.len()
        invariant
            i <= entries@.len(),
            lookup(entries@, key@) == lookup(entries@.subrange(i as int, entries@.len() as int), key@),
        decreases entries@.len() - i,
    {
        let ghost rest = entries@.subrange(i as int, entries@.len() as int);
        if entries[i].0 == *key {
            return Some(&entries[i].1);
        }
        proof {
            assert(rest.drop_first() =~= entries@.subrange(i + 1, entries@.len() as int));
        }
        i = i + 1;
    }
    proof {
        assert(entries@.subrange(i as int, entries@.len() as int).len() == 0);
    }
    None
}

/// `j[key]`, `null` when absent.
pub fn member_of<'a>(j: &'a Json, key: &String) -> (r: Option<&'a Json>)
    ensures
        match r {
            Some(v) => member(*j, key@) == *v,
            None => member(*j, key@) == Json::Null,
        },
{
    match j {
        Json::Object(entries) => get(entries, key),
        _ => None,
    }
}

impl Json {
    pub fn as_u64(&self) -> (r: Option<u64>)
        ensures
            r == as_u64(*self),
    {
        match self {
            Json::Number(JsonNumber::PosInt(n)) => Some(*n),
            _ => None,
        }
    }

    pub fn as_i64(&self) -> (r: Option<i64>)
        ensures
            r == as_i64(*self),
    {
        match self {
            Json::Number(JsonNumber::PosInt(n)) => if *n <= 0x7fff_ffff_ffff_ffffu64 {
                Some(*n as i64)
            } else {
                None
            },
            Json::Number(JsonNumber::NegInt(n)) => Some(*n),
            _ => None,
        }
    }

    pub fn as_decimal(&self) -> (r: Option<Decimal>)
        ensures
            r == as_decimal(*self),
    {
        match self {
            Json::Number(JsonNumber::PosInt(n)) => if *n <= 0x7fff_ffff_ffff_ffffu64 {
                Some(Decimal { mantissa: *n as i64, exponent: 0 })
            } else {
                None
            },
            Json::Number(JsonNumber::NegInt(n)) => Some(Decimal { mantissa: *n, exponent: 0 }),
            Json::Number(JsonNumber::Float(d)) => Some(*d),
            _ => None,
        }
    }
}

} // verus!
