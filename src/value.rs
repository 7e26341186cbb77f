use vstd::prelude::*;

verus! {

broadcast use vstd::std_specs::vec::axiom_vec_index_decreases;

/// A datum of the language: a scalar, a sequence or a mapping.
///
/// A mapping is a list of entries whose keys are pairwise distinct; the order
/// of its entries carries no meaning.
#[derive(Debug)]
pub enum Value {
    Null,
    Boolean(bool),
    Integer(i64),
    Bytes(String),
    Array(Vec<Value>),
    Object(Vec<(String, Value)>),
}

/// No two entries share a key.
pub open spec fn distinct_keys(xs: Seq<(String, Value)>) -> bool {
    forall|i: int, j: int|
        0 <= i < xs.len() && 0 <= j < xs.len() && i != j ==> xs[i].0@ != xs[j].0@
}

/// Some entry has this key.
pub open spec fn has_key(xs: Seq<(String, Value)>, k: Seq<char>) -> bool {
    exists|j: int| 0 <= j < xs.len() && #[trigger] xs[j].0@ == k
}

/// The index of an entry with this key.
pub open spec fn key_index(xs: Seq<(String, Value)>, k: Seq<char>) -> int {
    choose|j: int| 0 <= j < xs.len() && #[trigger] xs[j].0@ == k
}

/// Every mapping inside the value, at any depth, has distinct keys.
pub open spec fn well_formed(a: Value) -> bool
    decreases a,
{
    match a {
        Value::Array(xs) => forall|i: int| #![trigger xs[i]] 0 <= i < xs.len() ==> well_formed(xs[i]),
        Value::Object(xs) => distinct_keys(xs@) && forall|i: int|
            #![trigger xs[i]]
            0 <= i < xs.len() ==> well_formed(xs[i].1),
        _ => true,
    }
}

/// Deep equality: same shape and equal scalars; sequences equal element by
/// element, in order; mappings with distinct keys, the same key set, and
/// deeply equal values under each key.
pub open spec fn deep_equal(a: Value, b: Value) -> bool
    decreases a,
{
    match a {
        Value::Null => b is Null,
        Value::Boolean(x) => b is Boolean && b->Boolean_0 == x,
        Value::Integer(x) => b is Integer && b->Integer_0 == x,
        Value::Bytes(x) => b is Bytes && b->Bytes_0@ == x@,
        Value::Array(xs) => match b {
            Value::Array(ys) => xs.len() == ys.len() && forall|i: int|
                #![trigger xs[i]]
                0 <= i < xs.len() ==> deep_equal(xs[i], ys[i]),
            _ => false,
        },
        Value::Object(xs) => match b {
            Value::Object(ys) => {
                &&& distinct_keys(xs@)
                &&& distinct_keys(ys@)
                &&& forall|i: int|
                    #![trigger xs[i]]
                    0 <= i < xs.len() ==> has_key(ys@, xs[i].0@) && deep_equal(
                        xs[i].1,
                        ys[key_index(ys@, xs[i].0@)].1,
                    )
                &&& forall|j: int| #![trigger ys[j]] 0 <= j < ys.len() ==> has_key(xs@, ys[j].0@)
            },
            _ => false,
        },
    }
}

fn has_distinct_keys(xs: &Vec<(String, Value)>) -> (r: bool)
    ensures
        r == distinct_keys(xs@),
{
    let mut i: usize = 0;
    while i < xs.len()
        invariant
            i <= xs.len(),
            forall|p: int, q: int|
                0 <= p < i && 0 <= q < xs.len() && p != q ==> xs[p].0@ != xs[q].0@,
        decreases xs.len() - i,
    {
        let mut j: usize = 0;
        while j < xs.len()
            invariant
                i < xs.len(),
                j <= xs.len(),
                forall|p: int, q: int|
                    0 <= p < i && 0 <= q < xs.len() && p != q ==> xs[p].0@ != xs[q].0@,
                forall|q: int| 0 <= q < j && q != i ==> xs[i as int].0@ != #[trigger] xs[q].0@,
            decreases xs.len() - j,
        {
            if j != i && xs[i].0 == xs[j].0 {
                return false;
            }
            j = j + 1;
        }
        i = i + 1;
    }
    true
}

fn position_of(xs: &Vec<(String, Value)>, key: &String) -> (r: Option<usize>)
    ensures
        match r {
            Some(j) => j < xs.len() && xs[j as int].0@ == key@,
            None => forall|j: int| 0 <= j < xs.len() ==> #[trigger] xs[j].0@ != key@,
        },
{
    let mut j: usize = 0;
    while j < xs.len()
        invariant
            j <= xs.len(),
            forall|q: int| 0 <= q < j ==> #[trigger] xs[q].0@ != key@,
        decreases xs.len() - j,
    {
        if xs[j].0 == *key {
            return Some(j);
        }
        j = j + 1;
    }
    None
}

impl Value {
    /// Compares two values deeply.
    pub fn deep_eq(&self, other: &Value) -> (r: bool)
        ensures
            r == deep_equal(*self, *other),
        decreases self,
    {
        match self {
            Value::Null => match other {
                Value::Null => true,
                _ => false,
            },
            Value::Boolean(x) => match other {
                Value::Boolean(y) => *x == *y,
                _ => false,
            },
            Value::Integer(x) => match other {
                Value::Integer(y) => *x == *y,
                _ => false,
            },
            Value::Bytes(x) => match other {
                Value::Bytes(y) => *x == *y,
                _ => false,
            },
            Value::Array(xs) => match other {
                Value::Array(ys) => {
                    if xs.len() != ys.len() {
                        return false;
                    }
                    let mut i: usize = 0;
                    while i < xs.len()
                        invariant
                            i <= xs.len(),
                            xs.len() == ys.len(),
                            *self == Value::Array(*xs),
                            *other == Value::Array(*ys),
                            forall|k: int| #![trigger xs[k]] 0 <= k < i ==> deep_equal(xs[k], ys[k]),
                        decreases xs.len() - i,
                    {
                        proof {
                            assert(decreases_to!(*self => self->Array_0));
                            assert(decreases_to!(*xs => xs[i as int]));
                        }
                        if !xs[i].deep_eq(&ys[i]) {
                            assert(!deep_equal(xs[i as int], ys[i as int]));
                            return false;
                        }
                        i = i + 1;
                    }
                    true
                },
                _ => false,
            },
            Value::Object(xs) => match other {
                Value::Object(ys) => {
                    if !has_distinct_keys(xs) || !has_distinct_keys(ys) {
                        return false;
                    }
                    let mut i: usize = 0;
                    while i < xs.len()
                        invariant
                            i <= xs.len(),
                            *self == Value::Object(*xs),
                            *other == Value::Object(*ys),
                            distinct_keys(xs@),
                            distinct_keys(ys@),
                            forall|k: int|
                                #![trigger xs[k]]
                                0 <= k < i ==> has_key(ys@, xs[k].0@) && deep_equal(
                                    xs[k].1,
                                    ys[key_index(ys@, xs[k].0@)].1,
                                ),
                        decreases xs.len() - i,
                    {
                        match position_of(ys, &xs[i].0) {
                            None => {
                                assert(!has_key(ys@, xs[i as int].0@));
                                return false;
                            },
                            Some(j) => {
                                proof {
                                    assert(has_key(ys@, xs[i as int].0@));
                                    let c = key_index(ys@, xs[i as int].0@);
                                    assert(ys[c].0@ == xs[i as int].0@);
                                    assert(c == j);
                                    assert(decreases_to!(*self => self->Object_0));
                                    assert(decreases_to!(*xs => xs[i as int]));
                                    assert(decreases_to!(xs[i as int] => xs[i as int].1));
                                }
                                if !xs[i].1.deep_eq(&ys[j].1) {
                                    return false;
                                }
                            },
                        }
                        i = i + 1;
                    }
                    let mut j: usize = 0;
                    while j < ys.len()
                        invariant
                            j <= ys.len(),
                            *self == Value::Object(*xs),
                            *other == Value::Object(*ys),
                            distinct_keys(xs@),
                            distinct_keys(ys@),
                            forall|k: int|
                                #![trigger xs[k]]
                                0 <= k < xs.len() ==> has_key(ys@, xs[k].0@) && deep_equal(
                                    xs[k].1,
                                    ys[key_index(ys@, xs[k].0@)].1,
                                ),
                            forall|k: int| #![trigger ys[k]] 0 <= k < j ==> has_key(xs@, ys[k].0@),
                        decreases ys.len() - j,
                    {
                        match position_of(xs, &ys[j].0) {
                            None => {
                                assert(!has_key(xs@, ys[j as int].0@));
                                return false;
                            },
                            Some(i) => {
                                assert(xs@[i as int].0@ == ys[j as int].0@);
                            },
                        }
                        j = j + 1;
                    }
                    true
                },
                _ => false,
            },
        }
    }
}

/// Distinct keys pick out a single entry.
pub proof fn lemma_key_index(xs: Seq<(String, Value)>, j: int)
    requires
        distinct_keys(xs),
        0 <= j < xs.len(),
    ensures
        has_key(xs, xs[j].0@),
        key_index(xs, xs[j].0@) == j,
{
    assert(xs[j].0@ == xs[j].0@);
    let c = key_index(xs, xs[j].0@);
    assert(xs[c].0@ == xs[j].0@);
}

/// Every well-formed value is deeply equal to itself.
pub proof fn lemma_deep_equal_reflexive(a: Value)
    requires
        well_formed(a),
    ensures
        deep_equal(a, a),
    decreases a,
{
    match a {
        Value::Array(xs) => {
            assert forall|i: int| #![trigger xs[i]] 0 <= i < xs.len() implies deep_equal(xs[i], xs[i]) by {
                lemma_deep_equal_reflexive(xs[i]);
            }
        },
        Value::Object(xs) => {
            assert forall|i: int| #![trigger xs[i]] 0 <= i < xs.len() implies has_key(xs@, xs[i].0@)
                && deep_equal(xs[i].1, xs[key_index(xs@, xs[i].0@)].1) by {
                lemma_key_index(xs@, i);
                lemma_deep_equal_reflexive(xs[i].1);
            }
        },
        _ => {},
    }
}

/// Deep equality does not depend on the order of its arguments.
pub proof fn lemma_deep_equal_symmetric(a: Value, b: Value)
    requires
        deep_equal(a, b),
    ensures
        deep_equal(b, a),
    decreases a,
{
    match (a, b) {
        (Value::Array(xs), Value::Array(ys)) => {
            assert forall|i: int| #![trigger ys[i]] 0 <= i < ys.len() implies deep_equal(ys[i], xs[i]) by {
                assert(deep_equal(xs[i], ys[i]));
                lemma_deep_equal_symmetric(xs[i], ys[i]);
            }
        },
        (Value::Object(xs), Value::Object(ys)) => {
            assert forall|j: int| #![trigger ys[j]] 0 <= j < ys.len() implies has_key(xs@, ys[j].0@)
                && deep_equal(ys[j].1, xs[key_index(xs@, ys[j].0@)].1) by {
                assert(has_key(xs@, ys[j].0@));
                let i = key_index(xs@, ys[j].0@);
                assert(xs[i].0@ == ys[j].0@);
                lemma_key_index(ys@, j);
                assert(deep_equal(xs[i].1, ys[key_index(ys@, xs[i].0@)].1));
                lemma_deep_equal_symmetric(xs[i].1, ys[j].1);
            }
            assert forall|i: int| #![trigger xs[i]] 0 <= i < xs.len() implies has_key(ys@, xs[i].0@) by {
                assert(has_key(ys@, xs[i].0@));
            }
        },
        _ => {},
    }
}

/// Two values deeply equal to a third are deeply equal to each other.
pub proof fn lemma_deep_equal_transitive(a: Value, b: Value, c: Value)
    requires
        deep_equal(a, b),
        deep_equal(b, c),
    ensures
        deep_equal(a, c),
    decreases a,
{
    match (a, b, c) {
        (Value::Array(xs), Value::Array(ys), Value::Array(zs)) => {
            assert forall|i: int| #![trigger xs[i]] 0 <= i < xs.len() implies deep_equal(xs[i], zs[i]) by {
                assert(deep_equal(xs[i], ys[i]));
                assert(deep_equal(ys[i], zs[i]));
                lemma_deep_equal_transitive(xs[i], ys[i], zs[i]);
            }
        },
        (Value::Object(xs), Value::Object(ys), Value::Object(zs)) => {
            assert forall|i: int| #![trigger xs[i]] 0 <= i < xs.len() implies has_key(zs@, xs[i].0@)
                && deep_equal(xs[i].1, zs[key_index(zs@, xs[i].0@)].1) by {
                assert(has_key(ys@, xs[i].0@));
                let j = key_index(ys@, xs[i].0@);
                assert(ys[j].0@ == xs[i].0@);
                assert(deep_equal(xs[i].1, ys[j].1));
                assert(has_key(zs@, ys[j].0@));
                let k = key_index(zs@, ys[j].0@);
                assert(deep_equal(ys[j].1, zs[k].1));
                lemma_deep_equal_transitive(xs[i].1, ys[j].1, zs[k].1);
            }
            assert forall|k: int| #![trigger zs[k]] 0 <= k < zs.len() implies has_key(xs@, zs[k].0@) by {
                assert(has_key(ys@, zs[k].0@));
                let j = key_index(ys@, zs[k].0@);
                assert(ys[j].0@ == zs[k].0@);
                assert(has_key(xs@, ys[j].0@));
                let i = key_index(xs@, ys[j].0@);
                assert(xs[i].0@ == zs[k].0@);
            }
        },
        _ => {},
    }
}

} // verus!
