//! The `jsonb` documents the rules read — a frozen policy matrix, a list of evidence kinds, an
//! outbox payload — held as plain values. Objects hold their members in key order, each key once,
//! as the default `serde_json::Map` does; an integer is its value, and any other number is the
//! text `serde_json` renders for it.

use crate::text::str_equal;
use vstd::prelude::*;

verus! {

broadcast use vstd::std_specs::vec::group_vec_axioms;

/// A JSON number: an integer, or the rendered text of a number with a fraction or exponent.
pub enum JsonNumber {
    Int(i128),
    Float(String),
}

/// A JSON document.
pub enum Json {
    Null,
    Bool(bool),
    Number(JsonNumber),
    Str(String),
    Array(Vec<Json>),
    Object(Vec<(String, Json)>),
}

/// Whether two numbers are the same JSON number.
pub open spec fn number_same(a: JsonNumber, b: JsonNumber) -> bool {
    match (a, b) {
        (JsonNumber::Int(x), JsonNumber::Int(y)) => x == y,
        (JsonNumber::Float(x), JsonNumber::Float(y)) => x@ == y@,
        _ => false,
    }
}

/// Whether two documents are the same JSON value: equal scalars, arrays of equal elements in the
/// same order, and objects with the same keys holding equal values.
pub open spec fn json_same(a: Json, b: Json) -> bool
    decreases a,
{
    match a {
        Json::Null => match b {
            Json::Null => true,
            _ => false,
        },
        Json::Bool(x) => match b {
            Json::Bool(y) => x == y,
            _ => false,
        },
        Json::Number(x) => match b {
            Json::Number(y) => number_same(x, y),
            _ => false,
        },
        Json::Str(x) => match b {
            Json::Str(y) => x@ == y@,
            _ => false,
        },
        Json::Array(xs) => match b {
            Json::Array(ys) => xs@.len() == ys@.len() && forall|i: int|
                0 <= i < xs@.len() ==> json_same(#[trigger] xs@[i], ys@[i]),
            _ => false,
        },
        Json::Object(xs) => match b {
            Json::Object(ys) => xs@.len() == ys@.len() && forall|i: int|
                0 <= i < xs@.len() ==> (#[trigger] xs@[i]).0@ == ys@[i].0@ && json_same(
                    xs@[i].1,
                    ys@[i].1,
                ),
            _ => false,
        },
    }
}

/// Whether two numbers are the same.
pub fn number_equal(a: &JsonNumber, b: &JsonNumber) -> (r: bool)
    ensures
        r == number_same(*a, *b),
{
    match (a, b) {
        (JsonNumber::Int(x), JsonNumber::Int(y)) => *x == *y,
        (JsonNumber::Float(x), JsonNumber::Float(y)) => str_equal(x.as_str(), y.as_str()),
        _ => false,
    }
}

/// Whether two documents are the same JSON value.
pub fn json_equal(a: &Json, b: &Json) -> (r: bool)
    ensures
        r == json_same(*a, *b),
    decreases a,
{
    match a {
        Json::Null => match b {
            Json::Null => true,
            _ => false,
        },
        Json::Bool(x) => match b {
            Json::Bool(y) => *x == *y,
            _ => false,
        },
        Json::Number(x) => match b {
            Json::Number(y) => number_equal(x, y),
            _ => false,
        },
        Json::Str(x) => match b {
            Json::Str(y) => str_equal(x.as_str(), y.as_str()),
            _ => false,
        },
        Json::Array(xs) => match b {
            Json::Array(ys) => {
                if xs.len() != ys.len() {
                    return false;
                }
                let mut i: usize = 0;
                while i < xs.len()
                    invariant
                        *a == Json::Array(*xs),
                        *b == Json::Array(*ys),
                        xs@.len() == ys@.len(),
                        i <= xs@.len(),
                        forall|k: int| 0 <= k < i ==> json_same(#[trigger] xs@[k], ys@[k]),
                    decreases xs@.len() - i,
                {
                    proof {
                        assert(*a == Json::Array(*xs));
                        assert(decreases_to!(*a => a->Array_0));
                        assert(decreases_to!(*xs => xs@));
                        assert(decreases_to!(xs@ => xs@[i as int]));
                    }
                    if !json_equal(&xs[i], &ys[i]) {
                        proof {
                            if json_same(*a, *b) {
                                assert(json_same(xs@[i as int], ys@[i as int]));
                            }
                        }
                        return false;
                    }
                    i = i + 1;
                }
                true
            },
            _ => false,
        },
        Json::Object(xs) => match b {
            Json::Object(ys) => {
                if xs.len() != ys.len() {
                    return false;
                }
                let mut i: usize = 0;
                while i < xs.len()
                    invariant
                        *a == Json::Object(*xs),
                        *b == Json::Object(*ys),
                        xs@.len() == ys@.len(),
                        i <= xs@.len(),
                        forall|k: int|
                            0 <= k < i ==> (#[trigger] xs@[k]).0@ == ys@[k].0@ && json_same(
                                xs@[k].1,
                                ys@[k].1,
                            ),
                    decreases xs@.len() - i,
                {
                    if !str_equal(xs[i].0.as_str(), ys[i].0.as_str()) {
                        proof {
                            if json_same(*a, *b) {
                                assert(xs@[i as int].0@ == ys@[i as int].0@);
                            }
                        }
                        return false;
                    }
                    proof {
                        assert(*a == Json::Object(*xs));
                        assert(decreases_to!(*a => a->Object_0));
                        assert(decreases_to!(*xs => xs@));
                        assert(decreases_to!(xs@ => xs@[i as int]));
                        assert(decreases_to!(xs@[i as int] => xs@[i as int].1));
                    }
                    if !json_equal(&xs[i].1, &ys[i].1) {
                        proof {
                            if json_same(*a, *b) {
                                assert(json_same(xs@[i as int].1, ys@[i as int].1));
                            }
                        }
                        return false;
                    }
                    i = i + 1;
                }
                true
            },
            _ => false,
        },
    }
}

/// The index of the first member of `members` named `key`, if any.
pub open spec fn member_index(members: Seq<(String, Json)>, key: Seq<char>) -> Option<int> {
    if exists|i: int| 0 <= i < members.len() && #[trigger] members[i].0@ == key {
        Some(
            choose|i: int|
                0 <= i < members.len() && #[trigger] members[i].0@ == key && forall|j: int|
                    0 <= j < i ==> #[trigger] members[j].0@ != key,
        )
    } else {
        None
    }
}

/// The value an object holds under `key` (`->` in SQL); nothing for a missing key or a
/// document that is not an object.
pub open spec fn json_get(value: Json, key: Seq<char>) -> Option<Json> {
    match value {
        Json::Object(members) => match member_index(members@, key) {
            Some(i) => Some(members@[i].1),
            None => None,
        },
        _ => None,
    }
}

proof fn lemma_first_member(members: Seq<(String, Json)>, key: Seq<char>, i: int)
    requires
        0 <= i < members.len(),
        members[i].0@ == key,
        forall|j: int| 0 <= j < i ==> #[trigger] members[j].0@ != key,
    ensures
        member_index(members, key) == Some(i),
{
    let k = choose|k: int|
        0 <= k < members.len() && #[trigger] members[k].0@ == key && forall|j: int|
            0 <= j < k ==> #[trigger] members[j].0@ != key;
    assert(0 <= k < members.len() && members[k].0@ == key && forall|j: int|
        0 <= j < k ==> #[trigger] members[j].0@ != key);
    if k < i {
        assert(members[k].0@ != key);
    }
    if i < k {
        assert(members[i].0@ != key);
    }
}

/// The value an object holds under `key`.
pub fn get<'a>(value: &'a Json, key: &str) -> (r: Option<&'a Json>)
    ensures
        match r {
            Some(found) => json_get(*value, key@) == Some(*found),
            None => json_get(*value, key@) is None,
        },
{
    match value {
        Json::Object(members) => {
            let mut i: usize = 0;
            while i < members.len()
                invariant
                    *value == Json::Object(*members),
                    i <= members@.len(),
                    forall|j: int| 0 <= j < i ==> #[trigger] members@[j].0@ != key@,
                decreases members@.len() - i,
            {
                if str_equal(members[i].0.as_str(), key) {
                    proof {
                        lemma_first_member(members@, key@, i as int);
                    }
                    let found = &members[i].1;
                    assert(*value == Json::Object(*members));
                    assert(json_get(*value, key@) == Some(members@[i as int].1));
                    return Some(found);
                }
                i = i + 1;
            }
            None
        },
        _ => None,
    }
}

/// The string elements of a list of documents, in order; every other element is skipped.
pub open spec fn strings_of(items: Seq<Json>) -> Seq<Seq<char>>
    decreases items.len(),
{
    if items.len() == 0 {
        Seq::empty()
    } else {
        let rest = strings_of(items.drop_last());
        match items.last() {
            Json::Str(text) => rest.push(text@),
            _ => rest,
        }
    }
}

/// A `jsonb` array of strings as the column holds it: the string elements of an array, and
/// nothing for any other document.
pub open spec fn json_strings(value: Json) -> Seq<Seq<char>> {
    match value {
        Json::Array(items) => strings_of(items@),
        _ => Seq::empty(),
    }
}

/// The views of a list of strings.
pub open spec fn string_views(values: Seq<String>) -> Seq<Seq<char>> {
    values.map_values(|value: String| value@)
}

/// Reads a `jsonb` array of strings.
pub fn string_list(value: &Json) -> (r: Vec<String>)
    ensures
        string_views(r@) == json_strings(*value),
{
    let mut out: Vec<String> = Vec::new();
    match value {
        Json::Array(items) => {
            let mut i: usize = 0;
            while i < items.len()
                invariant
                    i <= items@.len(),
                    string_views(out@) == strings_of(items@.take(i as int)),
                decreases items@.len() - i,
            {
                assert(items@.take(i as int + 1).drop_last() =~= items@.take(i as int));
                match &items[i] {
                    Json::Str(text) => {
                        out.push(text.clone());
                    },
                    _ => {},
                }
                assert(string_views(out@) =~= strings_of(items@.take(i as int + 1)));
                i = i + 1;
            }
            assert(items@.take(items@.len() as int) =~= items@);
            out
        },
        _ => {
            assert(string_views(out@) =~= Seq::<Seq<char>>::empty());
            out
        },
    }
}

/// The string a document holds, if it is a string.
pub open spec fn json_text(value: Json) -> Option<Seq<char>> {
    match value {
        Json::Str(text) => Some(text@),
        _ => None,
    }
}

/// The string a document holds, if it is a string.
pub fn as_str(value: &Json) -> (r: Option<&str>)
    ensures
        match r {
            Some(text) => json_text(*value) == Some(text@),
            None => json_text(*value) is None,
        },
{
    match value {
        Json::Str(text) => Some(text.as_str()),
        _ => None,
    }
}

} // verus!
