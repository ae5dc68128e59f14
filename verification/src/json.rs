//! A library-owned model of JSON documents, rich enough for the package
//! manifest: objects keep their entries in insertion order, and numbers are
//! carried verbatim as their decimal text so that user-authored values pass
//! through untouched.

use vstd::prelude::*;
use vstd::string::*;

use crate::strutil::str_eq;

verus! {

broadcast use vstd::std_specs::vec::group_vec_axioms;

/// A JSON value. Object entries are ordered; a targeted merge never
/// discards or reorders entries it does not own.
#[derive(Debug, PartialEq, Eq)]
pub enum Json {
    Null,
    Bool(bool),
    /// A number, carried as its decimal literal text.
    Num(String),
    Str(String),
    Arr(Vec<Json>),
    Obj(Vec<(String, Json)>),
}

/// The mathematical shape of a JSON value: strings as character sequences,
/// arrays and objects as sequences.
#[verifier::ext_equal]
pub enum JsonV {
    Null,
    Bool(bool),
    Num(Seq<char>),
    Str(Seq<char>),
    Arr(Seq<JsonV>),
    Obj(Seq<(Seq<char>, JsonV)>),
}

/// The abstraction of a JSON value.
pub open spec fn jv(j: Json) -> JsonV
    decreases j,
{
    match j {
        Json::Null => JsonV::Null,
        Json::Bool(b) => JsonV::Bool(b),
        Json::Num(s) => JsonV::Num(s@),
        Json::Str(s) => JsonV::Str(s@),
        Json::Arr(items) => JsonV::Arr(jv_list(items@)),
        Json::Obj(entries) => JsonV::Obj(entries_vw(entries@)),
    }
}

/// The abstraction of an array's item list.
pub open spec fn jv_list(items: Seq<Json>) -> Seq<JsonV>
    decreases items,
{
    if items.len() == 0 {
        Seq::empty()
    } else {
        seq![jv(items.first())] + jv_list(items.drop_first())
    }
}

/// The abstraction of an object's entry list.
pub open spec fn entries_vw(entries: Seq<(String, Json)>) -> Seq<(Seq<char>, JsonV)>
    decreases entries,
{
    if entries.len() == 0 {
        Seq::empty()
    } else {
        seq![(entries.first().0@, jv(entries.first().1))] + entries_vw(entries.drop_first())
    }
}

/// The abstraction of an item list, pointwise.
pub proof fn lemma_jv_list(items: Seq<Json>)
    ensures
        jv_list(items).len() == items.len(),
        forall|i: int| 0 <= i < items.len() ==> #[trigger] jv_list(items)[i] == jv(items[i]),
    decreases items.len(),
{
    if items.len() > 0 {
        lemma_jv_list(items.drop_first());
    }
}

/// The abstraction of an entry list, pointwise.
pub proof fn lemma_entries_vw(entries: Seq<(String, Json)>)
    ensures
        entries_vw(entries).len() == entries.len(),
        forall|i: int|
            0 <= i < entries.len() ==> #[trigger] entries_vw(entries)[i] == (entries[i].0@, jv(
                entries[i].1,
            )),
    decreases entries.len(),
{
    if entries.len() > 0 {
        lemma_entries_vw(entries.drop_first());
    }
}

/// The value under a key in an ordered entry list: the first entry whose
/// key matches, if any.
pub open spec fn jv_obj_get(entries: Seq<(Seq<char>, JsonV)>, key: Seq<char>) -> Option<JsonV>
    decreases entries.len(),
{
    if entries.len() == 0 {
        None
    } else if entries[0].0 == key {
        Some(entries[0].1)
    } else {
        jv_obj_get(entries.skip(1), key)
    }
}

/// An entry list with the value under a key set: the first entry whose key
/// matches is replaced in place, keeping its position; a missing key is
/// appended at the end. Entries not owned by the key keep their order.
pub open spec fn jv_obj_set(
    entries: Seq<(Seq<char>, JsonV)>,
    key: Seq<char>,
    val: JsonV,
) -> Seq<(Seq<char>, JsonV)>
    decreases entries.len(),
{
    if entries.len() == 0 {
        seq![(key, val)]
    } else if entries[0].0 == key {
        seq![(key, val)] + entries.skip(1)
    } else {
        seq![entries[0]] + jv_obj_set(entries.skip(1), key, val)
    }
}

/// Setting a key whose first occurrence is at index i replaces exactly that
/// entry.
pub proof fn lemma_obj_set_at(
    entries: Seq<(Seq<char>, JsonV)>,
    key: Seq<char>,
    val: JsonV,
    i: int,
)
    requires
        0 <= i < entries.len(),
        entries[i].0 == key,
        forall|j: int| 0 <= j < i ==> (#[trigger] entries[j]).0 != key,
    ensures
        jv_obj_set(entries, key, val) == entries.update(i, (key, val)),
    decreases i,
{
    if i == 0 {
        assert(jv_obj_set(entries, key, val) =~= entries.update(0, (key, val)));
    } else {
        assert(entries.skip(1)[i - 1].0 == key);
        assert(forall|j: int| 0 <= j < i - 1 ==> (#[trigger] entries.skip(1)[j]).0 != key);
        lemma_obj_set_at(entries.skip(1), key, val, i - 1);
        assert(seq![entries[0]] + entries.skip(1).update(i - 1, (key, val)) =~= entries.update(
            i,
            (key, val),
        ));
    }
}

/// Setting a key that no entry holds appends one entry at the end.
pub proof fn lemma_obj_set_absent(entries: Seq<(Seq<char>, JsonV)>, key: Seq<char>, val: JsonV)
    requires
        forall|j: int| 0 <= j < entries.len() ==> (#[trigger] entries[j]).0 != key,
    ensures
        jv_obj_set(entries, key, val) == entries.push((key, val)),
    decreases entries.len(),
{
    if entries.len() == 0 {
        assert(jv_obj_set(entries, key, val) =~= entries.push((key, val)));
    } else {
        assert(forall|j: int|
            0 <= j < entries.skip(1).len() ==> (#[trigger] entries.skip(1)[j]).0 != key);
        lemma_obj_set_absent(entries.skip(1), key, val);
        assert(seq![entries[0]] + entries.skip(1).push((key, val)) =~= entries.push((key, val)));
    }
}

/// Reading the key whose first occurrence is at index i yields that entry's
/// value.
pub proof fn lemma_obj_get_at(entries: Seq<(Seq<char>, JsonV)>, key: Seq<char>, i: int)
    requires
        0 <= i < entries.len(),
        entries[i].0 == key,
        forall|j: int| 0 <= j < i ==> (#[trigger] entries[j]).0 != key,
    ensures
        jv_obj_get(entries, key) == Some(entries[i].1),
    decreases i,
{
    if i > 0 {
        assert(entries.skip(1)[i - 1].0 == key);
        assert(forall|j: int| 0 <= j < i - 1 ==> (#[trigger] entries.skip(1)[j]).0 != key);
        lemma_obj_get_at(entries.skip(1), key, i - 1);
    }
}

/// Reading a key that no entry holds yields nothing.
pub proof fn lemma_obj_get_absent(entries: Seq<(Seq<char>, JsonV)>, key: Seq<char>)
    requires
        forall|j: int| 0 <= j < entries.len() ==> (#[trigger] entries[j]).0 != key,
    ensures
        jv_obj_get(entries, key) is None,
    decreases entries.len(),
{
    if entries.len() > 0 {
        assert(forall|j: int|
            0 <= j < entries.skip(1).len() ==> (#[trigger] entries.skip(1)[j]).0 != key);
        lemma_obj_get_absent(entries.skip(1), key);
    }
}

/// Reading a key just set yields the new value.
pub proof fn lemma_get_set_same(entries: Seq<(Seq<char>, JsonV)>, key: Seq<char>, val: JsonV)
    ensures
        jv_obj_get(jv_obj_set(entries, key, val), key) == Some(val),
    decreases entries.len(),
{
    if entries.len() != 0 && entries[0].0 != key {
        lemma_get_set_same(entries.skip(1), key, val);
        assert((seq![entries[0]] + jv_obj_set(entries.skip(1), key, val)).skip(1) =~= jv_obj_set(
            entries.skip(1),
            key,
            val,
        ));
    }
}

/// Setting one key leaves every other key's value unchanged.
pub proof fn lemma_get_set_other(
    entries: Seq<(Seq<char>, JsonV)>,
    key1: Seq<char>,
    val: JsonV,
    key2: Seq<char>,
)
    requires
        key1 != key2,
    ensures
        jv_obj_get(jv_obj_set(entries, key1, val), key2) == jv_obj_get(entries, key2),
    decreases entries.len(),
{
    if entries.len() == 0 {
        assert(jv_obj_set(entries, key1, val) =~= seq![(key1, val)]);
        assert(seq![(key1, val)].skip(1) =~= Seq::<(Seq<char>, JsonV)>::empty());
        assert(jv_obj_get(Seq::<(Seq<char>, JsonV)>::empty(), key2) is None);
        assert(jv_obj_get(seq![(key1, val)], key2) is None);
    } else if entries[0].0 == key1 {
        assert((seq![(key1, val)] + entries.skip(1)).skip(1) =~= entries.skip(1));
    } else {
        lemma_get_set_other(entries.skip(1), key1, val, key2);
        assert((seq![entries[0]] + jv_obj_set(entries.skip(1), key1, val)).skip(1) =~= jv_obj_set(
            entries.skip(1),
            key1,
            val,
        ));
    }
}

/// Setting a key to the value it already holds changes nothing.
pub proof fn lemma_set_present_identity(
    entries: Seq<(Seq<char>, JsonV)>,
    key: Seq<char>,
    val: JsonV,
)
    requires
        jv_obj_get(entries, key) == Some(val),
    ensures
        jv_obj_set(entries, key, val) == entries,
    decreases entries.len(),
{
    if entries.len() != 0 {
        if entries[0].0 == key {
            assert(seq![(key, val)] + entries.skip(1) =~= entries);
        } else {
            lemma_set_present_identity(entries.skip(1), key, val);
            assert(seq![entries[0]] + entries.skip(1) =~= entries);
        }
    }
}

/// The first entry holding the key, if any.
pub fn entries_get<'a>(entries: &'a Vec<(String, Json)>, key: &str) -> (r: Option<&'a Json>)
    ensures
        match r {
            Some(j) => jv_obj_get(entries_vw(entries@), key@) == Some(jv(*j)),
            None => jv_obj_get(entries_vw(entries@), key@) is None,
        },
{
    let n = entries.len();
    let mut i: usize = 0;
    while i < n
        invariant
            n == entries@.len(),
            i <= n,
            forall|j: int| 0 <= j < i ==> (#[trigger] entries_vw(entries@)[j]).0 != key@,
        decreases n - i,
    {
        proof {
            lemma_entries_vw(entries@);
        }
        if str_eq(entries[i].0.as_str(), key) {
            proof {
                lemma_obj_get_at(entries_vw(entries@), key@, i as int);
            }
            return Some(&entries[i].1);
        }
        i = i + 1;
    }
    proof {
        lemma_entries_vw(entries@);
        lemma_obj_get_absent(entries_vw(entries@), key@);
    }
    None
}

/// Sets the value under a key: replaces the first entry holding it, in
/// place, or appends a new entry at the end.
pub fn entries_set(entries: &mut Vec<(String, Json)>, key: &str, val: Json)
    ensures
        entries_vw(final(entries)@) == jv_obj_set(entries_vw(old(entries)@), key@, jv(val)),
{
    let n = entries.len();
    let mut i: usize = 0;
    while i < n
        invariant
            n == entries@.len(),
            i <= n,
            entries@ == old(entries)@,
            forall|j: int| 0 <= j < i ==> (#[trigger] entries_vw(entries@)[j]).0 != key@,
        decreases n - i,
    {
        proof {
            lemma_entries_vw(entries@);
        }
        if str_eq(entries[i].0.as_str(), key) {
            proof {
                lemma_obj_set_at(entries_vw(entries@), key@, jv(val), i as int);
            }
            let k = entries[i].0.clone();
            entries.set(i, (k, val));
            proof {
                lemma_entries_vw(entries@);
                lemma_entries_vw(old(entries)@);
                assert(entries_vw(entries@) =~= entries_vw(old(entries)@).update(
                    i as int,
                    (key@, jv(val)),
                ));
            }
            return ;
        }
        i = i + 1;
    }
    proof {
        lemma_entries_vw(entries@);
        lemma_obj_set_absent(entries_vw(entries@), key@, jv(val));
    }
    entries.push((String::from_str(key), val));
    proof {
        lemma_entries_vw(entries@);
        lemma_entries_vw(old(entries)@);
        assert(entries_vw(entries@) =~= entries_vw(old(entries)@).push((key@, jv(val))));
    }
}

} // verus!
