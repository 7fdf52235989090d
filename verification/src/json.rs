//! A plain model of a decoded JSON document, rich enough for the webhook
//! schemas: objects, arrays, strings, booleans, unsigned integers, and a
//! marker for any other number. The event decoders work on this tree alone.

use vstd::prelude::*;

use crate::text::str_eq;

verus! {

/// One JSON value. A number that is a non-negative integer fitting `u64` is
/// kept exactly; any other number is collapsed to `OtherNum`, which no schema
/// accepts.
#[derive(Debug)]
pub enum Json {
    Null,
    Bool(bool),
    UInt(u64),
    OtherNum,
    Str(String),
    Arr(Vec<Json>),
    Obj(Vec<(String, Json)>),
}

/// The first binding of `key` among `fields`, if any.
pub open spec fn lookup_spec(fields: Seq<(String, Json)>, key: Seq<char>) -> Option<Json>
    decreases fields.len(),
{
    if fields.len() == 0 {
        None
    } else if fields[0].0@ == key {
        Some(fields[0].1)
    } else {
        lookup_spec(fields.drop_first(), key)
    }
}

/// The value of field `key` of an object, if `j` is an object that has it.
pub open spec fn get_spec(j: Json, key: Seq<char>) -> Option<Json> {
    match j {
        Json::Obj(fields) => lookup_spec(fields@, key),
        _ => None,
    }
}

/// The string content of field `key`, if present and a string.
pub open spec fn str_field(j: Json, key: Seq<char>) -> Option<String> {
    match get_spec(j, key) {
        Some(Json::Str(s)) => Some(s),
        _ => None,
    }
}

/// The view of the string content of field `key`; meaningful only when
/// `str_field` is `Some`.
pub open spec fn str_field_view(j: Json, key: Seq<char>) -> Seq<char> {
    str_field(j, key)->Some_0@
}

/// The integer content of field `key`, if present and an unsigned integer.
pub open spec fn uint_field(j: Json, key: Seq<char>) -> Option<u64> {
    match get_spec(j, key) {
        Some(Json::UInt(n)) => Some(n),
        _ => None,
    }
}

impl Json {
    /// Looks a field up in an object, matching `get_spec`. On anything that
    /// is not an object every lookup misses.
    pub fn get<'a>(&'a self, key: &str) -> (r: Option<&'a Json>)
        ensures
            match r {
                Some(v) => get_spec(*self, key@) == Some(*v),
                None => get_spec(*self, key@) is None,
            },
    {
        match self {
            Json::Obj(fields) => {
                let n = fields.len();
                let mut i: usize = 0;
                proof {
                    assert(fields@.skip(0) =~= fields@);
                }
                while i < n
                    invariant
                        i <= n,
                        n == fields@.len(),
                        get_spec(*self, key@) == lookup_spec(fields@.skip(i as int), key@),
                    decreases n - i,
                {
                    if str_eq(fields[i].0.as_str(), key) {
                        proof {
                            assert(fields@.skip(i as int)[0] == fields@[i as int]);
                        }
                        return Some(&fields[i].1);
                    }
                    proof {
                        assert(fields@.skip(i as int).drop_first() =~= fields@.skip(i + 1));
                    }
                    i += 1;
                }
                None
            },
            _ => None,
        }
    }

    /// The string content of this value, when it is a string.
    pub fn as_str<'a>(&'a self) -> (r: Option<&'a String>)
        ensures
            match r {
                Some(s) => *self matches Json::Str(t) && t == *s,
                None => !(*self is Str),
            },
    {
        match self {
            Json::Str(s) => Some(s),
            _ => None,
        }
    }
}

} // verus!
