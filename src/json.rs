use vstd::prelude::*;

verus! {

/// A JSON document as a tree. Numbers keep their text; an object keeps its
/// members in order.
#[derive(Debug, PartialEq, Eq)]
pub enum Json {
    Null,
    Bool(bool),
    Number(String),
    Str(String),
    Array(Vec<Json>),
    Object(Vec<(String, Json)>),
}

/// Position `i` holds the first member named `key`.
pub open spec fn first_key_at(fields: Seq<(String, Json)>, key: Seq<char>, i: int) -> bool {
    &&& 0 <= i < fields.len()
    &&& fields[i].0@ == key
    &&& forall|j: int| 0 <= j < i ==> (#[trigger] fields[j]).0@ != key
}

/// The value of the first member named `key`, if any member has that name.
pub open spec fn lookup(fields: Seq<(String, Json)>, key: Seq<char>) -> Option<Json> {
    if exists|i: int| first_key_at(fields, key, i) {
        Some(fields[choose|i: int| first_key_at(fields, key, i)].1)
    } else {
        None
    }
}

/// A position that holds the first member named `key` is the only one.
pub proof fn lemma_first_key_unique(fields: Seq<(String, Json)>, key: Seq<char>, i: int, k: int)
    requires
        first_key_at(fields, key, i),
        first_key_at(fields, key, k),
    ensures
        i == k,
{
    if i < k {
        assert(fields[i].0@ != key);
    } else if k < i {
        assert(fields[k].0@ != key);
    }
}

/// The member at position `i` is the one that `lookup` finds.
pub proof fn lemma_lookup_at(fields: Seq<(String, Json)>, key: Seq<char>, i: int)
    requires
        first_key_at(fields, key, i),
    ensures
        lookup(fields, key) == Some(fields[i].1),
{
    let k = choose|k: int| first_key_at(fields, key, k);
    lemma_first_key_unique(fields, key, i, k);
}

/// Finds the value of the first member named `key` of an object.
pub fn lookup_member<'a>(fields: &'a Vec<(String, Json)>, key: &str) -> (r: Option<&'a Json>)
    ensures
        match r {
            Some(v) => lookup(fields@, key@) == Some(*v),
            None => lookup(fields@, key@) is None,
        },
{
    let k = key.to_owned();
    let mut i: usize = 0;
    while i < fields.len()
        invariant
            k@ == key@,
            i <= fields@.len(),
            forall|j: int| 0 <= j < i ==> (#[trigger] fields@[j]).0@ != key@,
        decreases fields@.len() - i,
    {
        if fields[i].0 == k {
            proof {
                lemma_lookup_at(fields@, key@, i as int);
            }
            return Some(&fields[i].1);
        }
        i = i + 1;
    }
    assert(!exists|j: int| first_key_at(fields@, key@, j));
    None
}

} // verus!
