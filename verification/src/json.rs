//! The part of a JSON object that the analysis reads: its members, each with
//! a scalar value. Nested arrays and objects are only marked as such.

use vstd::prelude::*;
use crate::text::str_eq;

verus! {

/// A JSON member value as far as the analysis looks into it.
pub enum JsonScalar {
    Null,
    Bool(bool),
    Str(String),
    /// A non-negative integer.
    PosInt(u64),
    /// A negative integer.
    NegInt(i64),
    /// A number with a fractional part or exponent.
    Float,
    Array,
    Object,
}

/// A JSON object: its members in order, as `(key, value)` pairs.
pub struct JsonRecord {
    pub members: Vec<(String, JsonScalar)>,
}

/// The value of the first member of `members` named `key`.
pub open spec fn lookup(members: Seq<(String, JsonScalar)>, key: Seq<char>) -> Option<JsonScalar>
    decreases members.len(),
{
    if members.len() == 0 {
        None
    } else if members[0].0@ == key {
        Some(members[0].1)
    } else {
        lookup(members.drop_first(), key)
    }
}

/// The string a value holds, if it is a string.
pub open spec fn scalar_str(v: Option<JsonScalar>) -> Option<Seq<char>> {
    match v {
        Some(JsonScalar::Str(s)) => Some(s@),
        _ => None,
    }
}

/// The boolean a value holds, if it is a boolean.
pub open spec fn scalar_bool(v: Option<JsonScalar>) -> Option<bool> {
    match v {
        Some(JsonScalar::Bool(b)) => Some(b),
        _ => None,
    }
}

/// The value as an `i64`, if it is an integer that fits.
pub open spec fn scalar_i64(v: Option<JsonScalar>) -> Option<i64> {
    match v {
        Some(JsonScalar::PosInt(u)) => if u <= i64::MAX {
            Some(u as i64)
        } else {
            None
        },
        Some(JsonScalar::NegInt(i)) => Some(i),
        _ => None,
    }
}

/// The value as a `u64`, if it is a non-negative integer.
pub open spec fn scalar_u64(v: Option<JsonScalar>) -> Option<u64> {
    match v {
        Some(JsonScalar::PosInt(u)) => Some(u),
        _ => None,
    }
}

impl JsonRecord {
    /// The member named `key` in this record.
    pub open spec fn field(&self, key: Seq<char>) -> Option<JsonScalar> {
        lookup(self.members@, key)
    }

    fn find(&self, key: &str) -> (r: Option<usize>)
        ensures
            match r {
                Some(i) => i < self.members@.len() && self.field(key@) == Some(
                    self.members@[i as int].1,
                ),
                None => self.field(key@) is None,
            },
    {
        let n = self.members.len();
        let mut i: usize = 0;
        assert(self.members@.subrange(0, n as int) =~= self.members@);
        while i < n
            invariant
                n == self.members@.len(),
                i <= n,
                self.field(key@) == lookup(self.members@.subrange(i as int, n as int), key@),
            decreases n - i,
        {
            let ghost rest = self.members@.subrange(i as int, n as int);
            assert(rest.drop_first() =~= self.members@.subrange(i + 1, n as int));
            if str_eq(self.members[i].0.as_str(), key) {
                return Some(i);
            }
            i = i + 1;
        }
        None
    }

    /// The member named `key` (what `Value::get` gives on an object).
    pub fn get(&self, key: &str) -> (r: Option<&JsonScalar>)
        ensures
            match r {
                Some(v) => self.field(key@) == Some(*v),
                None => self.field(key@) is None,
            },
    {
        match self.find(key) {
            Some(i) => Some(&self.members[i].1),
            None => None,
        }
    }

    /// The string at `key`, if that member is a string
    /// (`v.get(key).and_then(|x| x.as_str())`).
    pub fn get_str(&self, key: &str) -> (r: Option<&str>)
        ensures
            match r {
                Some(s) => scalar_str(self.field(key@)) == Some(s@),
                None => scalar_str(self.field(key@)) is None,
            },
    {
        match self.get(key) {
            Some(JsonScalar::Str(s)) => Some(s.as_str()),
            _ => None,
        }
    }

    /// The boolean at `key`, if that member is a boolean.
    pub fn get_bool(&self, key: &str) -> (r: Option<bool>)
        ensures
            r == scalar_bool(self.field(key@)),
    {
        match self.get(key) {
            Some(JsonScalar::Bool(b)) => Some(*b),
            _ => None,
        }
    }

    /// The integer at `key` as an `i64`, if it is one that fits.
    pub fn get_i64(&self, key: &str) -> (r: Option<i64>)
        ensures
            r == scalar_i64(self.field(key@)),
    {
        match self.get(key) {
            Some(JsonScalar::PosInt(u)) => {
                if *u <= 9223372036854775807u64 {
                    Some(*u as i64)
                } else {
                    None
                }
            },
            Some(JsonScalar::NegInt(i)) => Some(*i),
            _ => None,
        }
    }

    /// The integer at `key` as a `u64`, if it is a non-negative one.
    pub fn get_u64(&self, key: &str) -> (r: Option<u64>)
        ensures
            r == scalar_u64(self.field(key@)),
    {
        match self.get(key) {
            Some(JsonScalar::PosInt(u)) => Some(*u),
            _ => None,
        }
    }
}

} // verus!
