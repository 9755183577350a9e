//! A JSON document as plain values: what the tools read out of their call
//! arguments and out of the responses of the services they talk to.
use vstd::prelude::*;

verus! {

/// A JSON number, kept the way it was written: a non-negative integer, a
/// negative integer, or any other number by its text.
#[derive(Debug)]
pub enum JsonNumber {
    PosInt(u64),
    NegInt(i64),
    Float(String),
}

/// A JSON value. Object members keep their order; a key that occurs twice is
/// found at its first occurrence.
#[derive(Debug)]
pub enum JsonValue {
    Null,
    Bool(bool),
    Number(JsonNumber),
    Str(String),
    Array(Vec<JsonValue>),
    Object(Vec<(String, JsonValue)>),
}

/// The value stored under `key` among object members.
pub open spec fn member(entries: Seq<(String, JsonValue)>, key: Seq<char>) -> Option<JsonValue>
    decreases entries.len(),
{
    if entries.len() == 0 {
        None
    } else if entries[0].0@ == key {
        Some(entries[0].1)
    } else {
        member(entries.drop_first(), key)
    }
}

/// `v.get(key)`: the member `key` of an object, nothing for any other value.
pub open spec fn get(v: JsonValue, key: Seq<char>) -> Option<JsonValue> {
    match v {
        JsonValue::Object(entries) => member(entries@, key),
        _ => None,
    }
}

/// The value reached from `v` by following the keys of `path` in turn
/// (`v[path[0]][path[1]]...`), or nothing when a key is missing.
pub open spec fn lookup(v: JsonValue, path: Seq<&str>) -> Option<JsonValue>
    decreases path.len(),
{
    if path.len() == 0 {
        Some(v)
    } else {
        match get(v, path[0]@) {
            Some(c) => lookup(c, path.drop_first()),
            None => None,
        }
    }
}

/// The member `key` of an object is the first one with that key.
pub proof fn lemma_member_at(es: Seq<(String, JsonValue)>, k: int, key: Seq<char>)
    requires
        0 <= k < es.len(),
        es[k].0@ == key,
        forall|j: int| 0 <= j < k ==> (#[trigger] es[j]).0@ != key,
    ensures
        member(es, key) == Some(es[k].1),
    decreases k,
{
    if k > 0 {
        assert(es[0].0@ != key);
        lemma_member_at(es.drop_first(), k - 1, key);
        assert forall|j: int| 0 <= j < k - 1 implies (#[trigger] es.drop_first()[j]).0@ != key by {
            assert(es.drop_first()[j] == es[j + 1]);
        }
    }
}

/// The key `key` occurs nowhere among the members.
pub proof fn lemma_member_none(es: Seq<(String, JsonValue)>, key: Seq<char>)
    requires
        forall|j: int| 0 <= j < es.len() ==> (#[trigger] es[j]).0@ != key,
    ensures
        member(es, key) is None,
    decreases es.len(),
{
    if es.len() > 0 {
        assert forall|j: int| 0 <= j < es.len() - 1 implies (#[trigger] es.drop_first()[j]).0@ != key by {
            assert(es.drop_first()[j] == es[j + 1]);
        }
        lemma_member_none(es.drop_first(), key);
    }
}

/// The keys of an object, in order (none for any other value).
pub open spec fn keys_of(v: JsonValue) -> Seq<Seq<char>> {
    match v {
        JsonValue::Object(es) => es@.map_values(|e: (String, JsonValue)| e.0@),
        _ => Seq::empty(),
    }
}

impl JsonValue {
    /// Takes the member `key` out of an object (the first one with that key,
    /// which is the one `get` reads); nothing for any other value.
    pub fn take(self, key: &str) -> (r: Option<JsonValue>)
        ensures
            r == get(self, key@),
    {
        let ghost whole = self;
        match self {
            JsonValue::Object(es) => {
                let mut es = es;
                let mut k: usize = 0;
                while k < es.len()
                    invariant
                        k <= es@.len(),
                        forall|j: int| 0 <= j < k ==> (#[trigger] es@[j]).0@ != key@,
                    ensures
                        k <= es@.len(),
                        forall|j: int| 0 <= j < k ==> (#[trigger] es@[j]).0@ != key@,
                        k < es@.len() ==> es@[k as int].0@ == key@,
                    decreases es@.len() - k,
                {
                    if crate::text::str_eq(es[k].0.as_str(), key) {
                        break;
                    }
                    k = k + 1;
                }
                if k == es.len() {
                    proof {
                        lemma_member_none(es@, key@);
                    }
                    return None;
                }
                proof {
                    lemma_member_at(es@, k as int, key@);
                }
                let (_, v) = es.remove(k);
                Some(v)
            },
            _ => None,
        }
    }
}

/// A path of one key reads that member.
pub proof fn lemma_lookup1(v: JsonValue, k: &str)
    ensures
        lookup(v, seq![k]) == get(v, k@),
{
    assert(seq![k].drop_first() =~= Seq::<&str>::empty());
    match get(v, k@) {
        Some(c) => {
            assert(lookup(c, Seq::<&str>::empty()) == Some(c));
        },
        None => {},
    }
}

/// A path of two keys reads a member of a member.
pub proof fn lemma_lookup2(v: JsonValue, k1: &str, k2: &str)
    ensures
        lookup(v, seq![k1, k2]) == match get(v, k1@) {
            Some(c) => get(c, k2@),
            None => None,
        },
{
    assert(seq![k1, k2].drop_first() =~= seq![k2]);
    match get(v, k1@) {
        Some(c) => {
            lemma_lookup1(c, k2);
        },
        None => {},
    }
}

/// `as_str` of an optional value.
pub open spec fn as_text(o: Option<JsonValue>) -> Option<Seq<char>> {
    match o {
        Some(JsonValue::Str(s)) => Some(s@),
        _ => None,
    }
}

/// `as_u64` of an optional value.
pub open spec fn as_nat(o: Option<JsonValue>) -> Option<u64> {
    match o {
        Some(JsonValue::Number(JsonNumber::PosInt(u))) => Some(u),
        _ => None,
    }
}

/// `as_i64` of an optional value.
pub open spec fn as_int(o: Option<JsonValue>) -> Option<i64> {
    match o {
        Some(JsonValue::Number(JsonNumber::PosInt(u))) => if u <= i64::MAX {
            Some(u as i64)
        } else {
            None
        },
        Some(JsonValue::Number(JsonNumber::NegInt(i))) => Some(i),
        _ => None,
    }
}

/// `as_bool` of an optional value.
pub open spec fn as_flag(o: Option<JsonValue>) -> Option<bool> {
    match o {
        Some(JsonValue::Bool(b)) => Some(b),
        _ => None,
    }
}

/// `as_array` of an optional value.
pub open spec fn as_list(o: Option<JsonValue>) -> Option<Seq<JsonValue>> {
    match o {
        Some(JsonValue::Array(items)) => Some(items@),
        _ => None,
    }
}

/// The text at `path`, or `default` when there is none.
pub open spec fn text_or(v: JsonValue, path: Seq<&str>, default: Seq<char>) -> Seq<char> {
    match as_text(lookup(v, path)) {
        Some(s) => s,
        None => default,
    }
}

/// The text at `path` of `v`, if the value there is a string.
pub open spec fn text_at(v: JsonValue, path: Seq<&str>) -> Option<Seq<char>> {
    as_text(lookup(v, path))
}

impl JsonValue {
    /// The member `key`, when this is an object that has one.
    pub fn get(&self, key: &str) -> (r: Option<&JsonValue>)
        ensures
            match r {
                Some(x) => get(*self, key@) == Some(*x),
                None => get(*self, key@) is None,
            },
    {
        match self {
            JsonValue::Object(entries) => {
                let mut i: usize = 0;
                assert(entries@.subrange(0, entries@.len() as int) =~= entries@);
                while i < entries.len()
                    invariant
                        i <= entries@.len(),
                        get(*self, key@) == member(entries@, key@),
                        member(entries@, key@) == member(entries@.subrange(i as int, entries@.len() as int), key@),
                    decreases entries@.len() - i,
                {
                    let ghost rest = entries@.subrange(i as int, entries@.len() as int);
                    assert(rest.drop_first() =~= entries@.subrange(i + 1, entries@.len() as int));
                    assert(rest[0] == entries@[i as int]);
                    if crate::text::str_eq(entries[i].0.as_str(), key) {
                        return Some(&entries[i].1);
                    }
                    i = i + 1;
                }
                assert(entries@.subrange(i as int, entries@.len() as int).len() == 0);
                None
            },
            _ => None,
        }
    }

    /// The value at `path`.
    pub fn at(&self, path: &[&str]) -> (r: Option<&JsonValue>)
        ensures
            match r {
                Some(x) => lookup(*self, path@) == Some(*x),
                None => lookup(*self, path@) is None,
            },
    {
        let mut cur: &JsonValue = self;
        let mut i: usize = 0;
        assert(path@.subrange(0, path@.len() as int) =~= path@);
        while i < path.len()
            invariant
                i <= path@.len(),
                lookup(*self, path@) == lookup(*cur, path@.subrange(i as int, path@.len() as int)),
            decreases path@.len() - i,
        {
            let ghost rest = path@.subrange(i as int, path@.len() as int);
            assert(rest.drop_first() =~= path@.subrange(i + 1, path@.len() as int));
            match cur.get(path[i]) {
                Some(next) => {
                    cur = next;
                },
                None => {
                    return None;
                },
            }
            i = i + 1;
        }
        assert(path@.subrange(i as int, path@.len() as int).len() == 0);
        Some(cur)
    }

    /// `as_str`: the text of a string value.
    pub fn as_str(&self) -> (r: Option<&str>)
        ensures
            match r {
                Some(s) => as_text(Some(*self)) == Some(s@),
                None => as_text(Some(*self)) is None,
            },
    {
        match self {
            JsonValue::Str(s) => Some(s.as_str()),
            _ => None,
        }
    }

    /// `as_u64`: a non-negative integer.
    pub fn as_u64(&self) -> (r: Option<u64>)
        ensures
            r == as_nat(Some(*self)),
    {
        match self {
            JsonValue::Number(JsonNumber::PosInt(u)) => Some(*u),
            _ => None,
        }
    }

    /// `as_i64`: an integer that fits in an `i64`.
    pub fn as_i64(&self) -> (r: Option<i64>)
        ensures
            r == as_int(Some(*self)),
    {
        match self {
            JsonValue::Number(JsonNumber::PosInt(u)) => {
                if *u <= 9223372036854775807u64 {
                    Some(*u as i64)
                } else {
                    None
                }
            },
            JsonValue::Number(JsonNumber::NegInt(i)) => Some(*i),
            _ => None,
        }
    }

    /// `as_bool`: a boolean value.
    pub fn as_bool(&self) -> (r: Option<bool>)
        ensures
            r == as_flag(Some(*self)),
    {
        match self {
            JsonValue::Bool(b) => Some(*b),
            _ => None,
        }
    }

    /// `as_array`: the items of an array value.
    pub fn as_array(&self) -> (r: Option<&Vec<JsonValue>>)
        ensures
            match r {
                Some(items) => as_list(Some(*self)) == Some(items@),
                None => as_list(Some(*self)) is None,
            },
    {
        match self {
            JsonValue::Array(items) => Some(items),
            _ => None,
        }
    }

    /// The text at `path`, if any.
    pub fn text_at(&self, path: &[&str]) -> (r: Option<&str>)
        ensures
            match r {
                Some(s) => text_at(*self, path@) == Some(s@),
                None => text_at(*self, path@) is None,
            },
    {
        match self.at(path) {
            Some(v) => v.as_str(),
            None => None,
        }
    }

    /// The text at `path`, or `default` (`v[..].as_str().unwrap_or(default)`).
    pub fn text_or(&self, path: &[&str], default: &str) -> (r: String)
        ensures
            r@ == text_or(*self, path@, default@),
    {
        match self.text_at(path) {
            Some(s) => crate::text::copy_str(s),
            None => crate::text::copy_str(default),
        }
    }
}


impl JsonValue {
    /// `v[k1]`, when present.
    pub fn at1(&self, k1: &str) -> (r: Option<&JsonValue>)
        ensures
            match r {
                Some(x) => lookup(*self, seq![k1]) == Some(*x),
                None => lookup(*self, seq![k1]) is None,
            },
    {
        let p: [&str; 1] = [k1];
        assert(p@ =~= seq![k1]);
        self.at(p.as_slice())
    }

    /// `v[k1][k2]`, when present.
    pub fn at2(&self, k1: &str, k2: &str) -> (r: Option<&JsonValue>)
        ensures
            match r {
                Some(x) => lookup(*self, seq![k1, k2]) == Some(*x),
                None => lookup(*self, seq![k1, k2]) is None,
            },
    {
        let p: [&str; 2] = [k1, k2];
        assert(p@ =~= seq![k1, k2]);
        self.at(p.as_slice())
    }

    /// `v[k1][k2][k3]`, when present.
    pub fn at3(&self, k1: &str, k2: &str, k3: &str) -> (r: Option<&JsonValue>)
        ensures
            match r {
                Some(x) => lookup(*self, seq![k1, k2, k3]) == Some(*x),
                None => lookup(*self, seq![k1, k2, k3]) is None,
            },
    {
        let p: [&str; 3] = [k1, k2, k3];
        assert(p@ =~= seq![k1, k2, k3]);
        self.at(p.as_slice())
    }

    /// The text at `v[k1]`, if any.
    pub fn text1(&self, k1: &str) -> (r: Option<&str>)
        ensures
            match r {
                Some(s) => text_at(*self, seq![k1]) == Some(s@),
                None => text_at(*self, seq![k1]) is None,
            },
    {
        match self.at1(k1) {
            Some(v) => v.as_str(),
            None => None,
        }
    }

    /// The text at `v[k1][k2]`, if any.
    pub fn text2(&self, k1: &str, k2: &str) -> (r: Option<&str>)
        ensures
            match r {
                Some(s) => text_at(*self, seq![k1, k2]) == Some(s@),
                None => text_at(*self, seq![k1, k2]) is None,
            },
    {
        match self.at2(k1, k2) {
            Some(v) => v.as_str(),
            None => None,
        }
    }

    /// `v[k1].as_str().unwrap_or(default)`.
    pub fn text1_or(&self, k1: &str, default: &str) -> (r: String)
        ensures
            r@ == text_or(*self, seq![k1], default@),
    {
        match self.text1(k1) {
            Some(s) => crate::text::copy_str(s),
            None => crate::text::copy_str(default),
        }
    }

    /// `v[k1][k2].as_str().unwrap_or(default)`.
    pub fn text2_or(&self, k1: &str, k2: &str, default: &str) -> (r: String)
        ensures
            r@ == text_or(*self, seq![k1, k2], default@),
    {
        match self.text2(k1, k2) {
            Some(s) => crate::text::copy_str(s),
            None => crate::text::copy_str(default),
        }
    }

    /// `v[k1].as_u64()`.
    pub fn u64_1(&self, k1: &str) -> (r: Option<u64>)
        ensures
            r == as_nat(lookup(*self, seq![k1])),
    {
        match self.at1(k1) {
            Some(v) => v.as_u64(),
            None => None,
        }
    }

    /// `v[k1][k2].as_u64()`.
    pub fn u64_2(&self, k1: &str, k2: &str) -> (r: Option<u64>)
        ensures
            r == as_nat(lookup(*self, seq![k1, k2])),
    {
        match self.at2(k1, k2) {
            Some(v) => v.as_u64(),
            None => None,
        }
    }

    /// `v[k1][k2][k3].as_u64()`.
    pub fn u64_3(&self, k1: &str, k2: &str, k3: &str) -> (r: Option<u64>)
        ensures
            r == as_nat(lookup(*self, seq![k1, k2, k3])),
    {
        match self.at3(k1, k2, k3) {
            Some(v) => v.as_u64(),
            None => None,
        }
    }

    /// `v[k1].as_i64()`.
    pub fn i64_1(&self, k1: &str) -> (r: Option<i64>)
        ensures
            r == as_int(lookup(*self, seq![k1])),
    {
        match self.at1(k1) {
            Some(v) => v.as_i64(),
            None => None,
        }
    }

    /// `v[k1].as_bool()`.
    pub fn bool_1(&self, k1: &str) -> (r: Option<bool>)
        ensures
            r == as_flag(lookup(*self, seq![k1])),
    {
        match self.at1(k1) {
            Some(v) => v.as_bool(),
            None => None,
        }
    }

    /// `v[k1].as_array()`.
    pub fn array1(&self, k1: &str) -> (r: Option<&Vec<JsonValue>>)
        ensures
            match r {
                Some(items) => as_list(lookup(*self, seq![k1])) == Some(items@),
                None => as_list(lookup(*self, seq![k1])) is None,
            },
    {
        match self.at1(k1) {
            Some(v) => v.as_array(),
            None => None,
        }
    }

    /// `v[k1][k2].as_array()`.
    pub fn array2(&self, k1: &str, k2: &str) -> (r: Option<&Vec<JsonValue>>)
        ensures
            match r {
                Some(items) => as_list(lookup(*self, seq![k1, k2])) == Some(items@),
                None => as_list(lookup(*self, seq![k1, k2])) is None,
            },
    {
        match self.at2(k1, k2) {
            Some(v) => v.as_array(),
            None => None,
        }
    }
}

} // verus!
