//! A JSON tree as the extractor reads it, and the trusted parser behind it.
//!
//! The upstream payloads arrive as loosely-typed JSON. The tree below keeps of
//! each value exactly what the extraction logic inspects: objects as ordered
//! key/value lists, arrays, strings, booleans, and numbers reduced to the two
//! readings the pipeline needs (a double, held by its IEEE-754 bit pattern,
//! and an unsigned integer where the number is one).

use vstd::prelude::*;

verus! {

/// A JSON number, reduced to the two readings the extractor uses.
pub struct JNum {
    /// IEEE-754 bit pattern of the number read as a double. Every JSON number
    /// has such a reading (possibly rounded).
    pub fbits: u64,
    /// The number read as an unsigned integer, where it is a non-negative
    /// integer that fits; `None` otherwise.
    pub uval: Option<u64>,
}

/// A parsed JSON value.
pub enum JVal {
    Null,
    Bool(bool),
    Num(JNum),
    Str(String),
    Arr(Vec<JVal>),
    /// Key/value pairs in the order the parser hands them out; keys are
    /// pairwise distinct in anything the parser produces, and lookup takes
    /// the first match either way.
    Obj(Vec<(String, JVal)>),
}

/// First value bound to `key` in an entry list, if any.
pub open spec fn entries_lookup(es: Seq<(String, JVal)>, key: Seq<char>) -> Option<JVal>
    decreases es.len(),
{
    if es.len() == 0 {
        None
    } else if es[0].0@ == key {
        Some(es[0].1)
    } else {
        entries_lookup(es.drop_first(), key)
    }
}

/// Member of an object under `key`; `None` on anything but an object with
/// that key.
pub open spec fn jget(v: JVal, key: Seq<char>) -> Option<JVal> {
    match v {
        JVal::Obj(es) => entries_lookup(es@, key),
        _ => None,
    }
}

/// The value read as a double, by its bit pattern.
pub open spec fn jbits(v: JVal) -> Option<u64> {
    match v {
        JVal::Num(n) => Some(n.fbits),
        _ => None,
    }
}

/// The value read as an unsigned integer.
pub open spec fn ju64(v: JVal) -> Option<u64> {
    match v {
        JVal::Num(n) => n.uval,
        _ => None,
    }
}

/// The value read as a string.
pub open spec fn jstr(v: JVal) -> Option<Seq<char>> {
    match v {
        JVal::Str(s) => Some(s@),
        _ => None,
    }
}

/// The value read as an array.
pub open spec fn jarr(v: JVal) -> Option<Seq<JVal>> {
    match v {
        JVal::Arr(a) => Some(a@),
        _ => None,
    }
}

/// The value read as a boolean.
pub open spec fn jbool(v: JVal) -> Option<bool> {
    match v {
        JVal::Bool(b) => Some(b),
        _ => None,
    }
}

/// Member of a member: string under `key`.
pub open spec fn jget_str(v: JVal, key: Seq<char>) -> Option<Seq<char>> {
    match jget(v, key) {
        Some(w) => jstr(w),
        None => None,
    }
}

/// Member under `key`, read as an unsigned integer.
pub open spec fn jget_u64(v: JVal, key: Seq<char>) -> Option<u64> {
    match jget(v, key) {
        Some(w) => ju64(w),
        None => None,
    }
}

/// Member under `key`, read as a double's bit pattern.
pub open spec fn jget_bits(v: JVal, key: Seq<char>) -> Option<u64> {
    match jget(v, key) {
        Some(w) => jbits(w),
        None => None,
    }
}

/// Member under `key`, read as an array.
pub open spec fn jget_arr(v: JVal, key: Seq<char>) -> Option<Seq<JVal>> {
    match jget(v, key) {
        Some(w) => jarr(w),
        None => None,
    }
}

/// Member under `key`, read as a boolean.
pub open spec fn jget_bool(v: JVal, key: Seq<char>) -> Option<bool> {
    match jget(v, key) {
        Some(w) => jbool(w),
        None => None,
    }
}

impl JVal {
    /// Member of an object under `key`, as `jget` says.
    pub fn get<'a>(&'a self, key: &str) -> (r: Option<&'a JVal>)
        ensures
            jget(*self, key@) == (match r {
                Some(w) => Some(*w),
                None => None::<JVal>,
            }),
    {
        match self {
            JVal::Obj(es) => {
                let k = key.to_owned();
                let mut i: usize = 0;
                proof {
                    assert(es@.subrange(0, es@.len() as int) =~= es@);
                }
                while i < es.len()
                    invariant
                        i <= es@.len(),
                        k@ == key@,
                        jget(*self, key@) == entries_lookup(es@, key@),
                        entries_lookup(es@, key@) == entries_lookup(
                            es@.subrange(i as int, es@.len() as int),
                            key@,
                        ),
                    decreases es@.len() - i,
                {
                    proof {
                        assert(es@.subrange(i as int, es@.len() as int)[0] == es@[i as int]);
                    }
                    if es[i].0 == k {
                        proof {
                            let tail = es@.subrange(i as int, es@.len() as int);
                            assert(tail.len() > 0 && tail[0].0@ == key@);
                            assert(entries_lookup(es@, key@) == Some(es@[i as int].1));
                        }
                        return Some(&es[i].1);
                    }
                    proof {
                        assert(es@.subrange(i as int, es@.len() as int).drop_first() =~= es@
                            .subrange(i + 1, es@.len() as int));
                    }
                    i += 1;
                }
                proof {
                    assert(es@.subrange(i as int, es@.len() as int).len() == 0);
                }
                None
            },
            _ => None,
        }
    }

    /// The value as a double's bit pattern, as `jbits` says.
    pub fn num_bits(&self) -> (r: Option<u64>)
        ensures
            r == jbits(*self),
    {
        match self {
            JVal::Num(n) => Some(n.fbits),
            _ => None,
        }
    }

    /// The value as an unsigned integer, as `ju64` says.
    pub fn num_u64(&self) -> (r: Option<u64>)
        ensures
            r == ju64(*self),
    {
        match self {
            JVal::Num(n) => n.uval,
            _ => None,
        }
    }

    /// The value as a string slice, as `jstr` says.
    pub fn str_value<'a>(&'a self) -> (r: Option<&'a String>)
        ensures
            jstr(*self) == (match r {
                Some(s) => Some(s@),
                None => None::<Seq<char>>,
            }),
    {
        match self {
            JVal::Str(s) => Some(s),
            _ => None,
        }
    }

    /// The value as an array, as `jarr` says.
    pub fn arr_value<'a>(&'a self) -> (r: Option<&'a Vec<JVal>>)
        ensures
            jarr(*self) == (match r {
                Some(a) => Some(a@),
                None => None::<Seq<JVal>>,
            }),
    {
        match self {
            JVal::Arr(a) => Some(a),
            _ => None,
        }
    }

    /// The value as a boolean, as `jbool` says.
    pub fn bool_value(&self) -> (r: Option<bool>)
        ensures
            r == jbool(*self),
    {
        match self {
            JVal::Bool(b) => Some(*b),
            _ => None,
        }
    }
}

/// The tree that parsing a given text yields, if the text is JSON. Parsing is
/// a function of the text alone; nothing more is assumed of it here.
pub uninterp spec fn json_of(s: Seq<char>) -> Option<JVal>;

#[verifier::external_type_specification]
#[verifier::external_body]
pub struct ExValue(serde_json::Value);

/// Relies on `serde_json::Value`'s accessors: rebuilds the parsed tree with
/// each number reduced to its double bit pattern (`as_f64`, which yields a
/// value for every number the default parser admits) and its unsigned reading
/// (`as_u64`).
#[verifier::external_body]
fn tree_of_value(v: serde_json::Value) -> JVal {
    match v {
        serde_json::Value::Null => JVal::Null,
        serde_json::Value::Bool(b) => JVal::Bool(b),
        serde_json::Value::Number(n) => JVal::Num(JNum {
            fbits: n.as_f64().map(|x| x.to_bits()).unwrap_or(0),
            uval: n.as_u64(),
        }),
        serde_json::Value::String(s) => JVal::Str(s),
        serde_json::Value::Array(a) => JVal::Arr(a.into_iter().map(tree_of_value).collect()),
        serde_json::Value::Object(o) => JVal::Obj(
            o.into_iter().map(|(k, w)| (k, tree_of_value(w))).collect(),
        ),
    }
}

/// Relies on `serde_json::from_str::<Value>`: parses the whole text as one
/// JSON document, the same tree for the same text every time; `None` exactly
/// when the text is not JSON.
#[verifier::external_body]
pub fn parse_json(s: &str) -> (r: Option<JVal>)
    ensures
        r == json_of(s@),
{
    serde_json::from_str::<serde_json::Value>(s).ok().map(tree_of_value)
}

} // verus!
