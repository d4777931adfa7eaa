//! A plain model of the JSON documents the backends answer with.  The
//! transport layer turns each response body into this shape; every extraction
//! the adapters perform is a verified function over it.
//!
//! Numbers are modeled as unsigned integers, which is all the decoders read;
//! a number outside that range is modeled as `Null`.

use vstd::prelude::*;
use crate::text::str_eq;

verus! {

pub enum Json {
    Null,
    Bool(bool),
    UInt(u64),
    Str(String),
    Arr(Vec<Json>),
    Obj(Vec<(String, Json)>),
}

/// The value under the first field named `key`, if any.
pub open spec fn obj_lookup(fields: Seq<(String, Json)>, key: Seq<char>) -> Option<Json>
    decreases fields.len(),
{
    if fields.len() == 0 {
        None
    } else if fields[0].0@ == key {
        Some(fields[0].1)
    } else {
        obj_lookup(fields.drop_first(), key)
    }
}

proof fn lemma_obj_lookup_skip(fields: Seq<(String, Json)>, key: Seq<char>, i: int)
    requires
        0 <= i <= fields.len(),
        forall|j: int| 0 <= j < i ==> fields[j].0@ != key,
    ensures
        obj_lookup(fields, key) == obj_lookup(fields.skip(i), key),
    decreases i,
{
    if i > 0 {
        assert(fields.skip(1) =~= fields.drop_first());
        lemma_obj_lookup_skip(fields.drop_first(), key, i - 1);
        assert(fields.drop_first().skip(i - 1) =~= fields.skip(i));
    } else {
        assert(fields.skip(0) =~= fields);
    }
}

/// Field access on an object; `None` on any other shape.
pub open spec fn spec_get(j: Json, key: Seq<char>) -> Option<Json> {
    match j {
        Json::Obj(fields) => obj_lookup(fields@, key),
        _ => None,
    }
}

/// Element access on an array; `None` out of range or on any other shape.
pub open spec fn spec_at(j: Json, i: int) -> Option<Json> {
    match j {
        Json::Arr(elems) => if 0 <= i < elems@.len() {
            Some(elems@[i])
        } else {
            None
        },
        _ => None,
    }
}

/// The integer a number holds; `None` on any other shape.
pub open spec fn spec_as_u64(j: Json) -> Option<u64> {
    match j {
        Json::UInt(n) => Some(n),
        _ => None,
    }
}

/// The character sequence a string holds; `None` on any other shape.
pub open spec fn spec_as_text(j: Json) -> Option<Seq<char>> {
    match j {
        Json::Str(s) => Some(s@),
        _ => None,
    }
}

/// The element count of an array; `None` on any other shape.
pub open spec fn spec_arr_len(j: Json) -> Option<nat> {
    match j {
        Json::Arr(elems) => Some(elems@.len()),
        _ => None,
    }
}

impl Json {
    /// The value under the first field named `key` of an object.
    pub fn get<'a>(&'a self, key: &str) -> (r: Option<&'a Json>)
        ensures
            match r {
                Some(v) => spec_get(*self, key@) == Some(*v),
                None => spec_get(*self, key@) is None,
            },
    {
        match self {
            Json::Obj(fields) => {
                proof {
                    assert(spec_get(*self, key@) == obj_lookup(fields@, key@));
                }
                let n: usize = fields.len();
                let mut i: usize = 0;
                while i < n
                    invariant
                        n == fields@.len(),
                        i <= n,
                        spec_get(*self, key@) == obj_lookup(fields@, key@),
                        forall|j: int| 0 <= j < i ==> fields@[j].0@ != key@,
                    decreases n - i,
                {
                    if str_eq(fields[i].0.as_str(), key) {
                        proof {
                            lemma_obj_lookup_skip(fields@, key@, i as int);
                            assert(fields@.skip(i as int)[0] == fields@[i as int]);
                        }
                        return Some(&fields[i].1);
                    }
                    i = i + 1;
                }
                proof {
                    lemma_obj_lookup_skip(fields@, key@, n as int);
                }
                None
            },
            _ => None,
        }
    }

    /// The `i`th element of an array.
    pub fn at<'a>(&'a self, i: usize) -> (r: Option<&'a Json>)
        ensures
            match r {
                Some(v) => spec_at(*self, i as int) == Some(*v),
                None => spec_at(*self, i as int) is None,
            },
    {
        match self {
            Json::Arr(elems) => {
                if i < elems.len() {
                    Some(&elems[i])
                } else {
                    None
                }
            },
            _ => None,
        }
    }

    pub fn as_u64(&self) -> (r: Option<u64>)
        ensures
            r == spec_as_u64(*self),
    {
        match self {
            Json::UInt(n) => Some(*n),
            _ => None,
        }
    }

    pub fn as_text<'a>(&'a self) -> (r: Option<&'a str>)
        ensures
            match r {
                Some(s) => spec_as_text(*self) == Some(s@),
                None => spec_as_text(*self) is None,
            },
    {
        match self {
            Json::Str(s) => Some(s.as_str()),
            _ => None,
        }
    }

    /// The element count of an array response.
    pub fn arr_len(&self) -> (r: Option<usize>)
        ensures
            match r {
                Some(n) => spec_arr_len(*self) == Some(n as nat),
                None => spec_arr_len(*self) is None,
            },
    {
        match self {
            Json::Arr(elems) => Some(elems.len()),
            _ => None,
        }
    }
}

} // verus!
