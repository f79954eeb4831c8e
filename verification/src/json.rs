//! The structured wire document: a small JSON value tree.
//!
//! The agreed wire schema is a JSON object, so the library carries one
//! reply as a tree of plain values.  `JsonValue` is the executable tree;
//! `JsonV` is its mathematical shape, over which every contract of the
//! codec speaks.

use vstd::prelude::*;

verus! {

broadcast use vstd::std_specs::vec::group_vec_axioms, vstd::seq::group_seq_axioms;

/// One JSON value, held with plain contents.  Object members keep their
/// order; a duplicated key is resolved by first match.
#[derive(Debug, PartialEq)]
pub enum JsonValue {
    Null,
    Bool(bool),
    /// A number, in hundredths of its JSON reading: `85.5` is `8550`.
    Num(i64),
    Text(Vec<char>),
    Arr(Vec<JsonValue>),
    Obj(Vec<(Vec<char>, JsonValue)>),
}

/// The mathematical shape of a JSON value.
#[verifier::ext_equal]
pub ghost enum JsonV {
    Null,
    Bool(bool),
    Num(int),
    Text(Seq<char>),
    Arr(Seq<JsonV>),
    Obj(Seq<(Seq<char>, JsonV)>),
}

/// The shape of an executable JSON value.
pub open spec fn jv(j: JsonValue) -> JsonV
    decreases j,
{
    match j {
        JsonValue::Null => JsonV::Null,
        JsonValue::Bool(b) => JsonV::Bool(b),
        JsonValue::Num(n) => JsonV::Num(n as int),
        JsonValue::Text(t) => JsonV::Text(t@),
        JsonValue::Arr(v) => JsonV::Arr(jv_seq(v@)),
        JsonValue::Obj(v) => JsonV::Obj(entries_v(v@)),
    }
}

/// The shape of an element list.
pub open spec fn jv_seq(s: Seq<JsonValue>) -> Seq<JsonV>
    decreases s,
{
    if s.len() == 0 {
        Seq::empty()
    } else {
        seq![jv(s[0])] + jv_seq(s.subrange(1, s.len() as int))
    }
}

/// The shape of a member list.
pub open spec fn entries_v(v: Seq<(Vec<char>, JsonValue)>) -> Seq<(Seq<char>, JsonV)>
    decreases v,
{
    if v.len() == 0 {
        Seq::empty()
    } else {
        seq![(v[0].0@, jv(v[0].1))] + entries_v(v.subrange(1, v.len() as int))
    }
}

/// Element-wise reading of `jv_seq`.
pub proof fn lemma_jv_seq(s: Seq<JsonValue>)
    ensures
        jv_seq(s).len() == s.len(),
        forall|i: int| 0 <= i < s.len() ==> jv_seq(s)[i] == jv(s[i]),
    decreases s.len(),
{
    if s.len() > 0 {
        lemma_jv_seq(s.subrange(1, s.len() as int));
    }
}

/// Member-wise reading of `entries_v`.
pub proof fn lemma_entries_v(v: Seq<(Vec<char>, JsonValue)>)
    ensures
        entries_v(v).len() == v.len(),
        forall|i: int| 0 <= i < v.len() ==> entries_v(v)[i] == (v[i].0@, jv(v[i].1)),
    decreases v.len(),
{
    if v.len() > 0 {
        lemma_entries_v(v.subrange(1, v.len() as int));
    }
}

/// The first member of `entries` under `key`, if any.
pub open spec fn lookup(entries: Seq<(Seq<char>, JsonV)>, key: Seq<char>) -> Option<JsonV>
    decreases entries.len(),
{
    if entries.len() == 0 {
        Option::None
    } else if entries[0].0 == key {
        Option::Some(entries[0].1)
    } else {
        lookup(entries.subrange(1, entries.len() as int), key)
    }
}

/// First-match reading of `lookup`: when the members before `i` miss the
/// key and member `i` carries it, `lookup` returns that member's value.
pub proof fn lemma_lookup_first_match(entries: Seq<(Seq<char>, JsonV)>, key: Seq<char>, i: int)
    requires
        0 <= i < entries.len(),
        forall|j: int| 0 <= j < i ==> entries[j].0 != key,
        entries[i].0 == key,
    ensures
        lookup(entries, key) == Option::Some(entries[i].1),
    decreases i,
{
    if i > 0 {
        let tail = entries.subrange(1, entries.len() as int);
        lemma_lookup_first_match(tail, key, i - 1);
    }
}

/// When no member carries the key, `lookup` misses.
pub proof fn lemma_lookup_none(entries: Seq<(Seq<char>, JsonV)>, key: Seq<char>)
    requires
        forall|j: int| 0 <= j < entries.len() ==> entries[j].0 != key,
    ensures
        lookup(entries, key) is None,
    decreases entries.len(),
{
    if entries.len() > 0 {
        lemma_lookup_none(entries.subrange(1, entries.len() as int), key);
    }
}

/// Finds the first member of an object's member list under `key`.
pub fn get_member<'a>(o: &'a Vec<(Vec<char>, JsonValue)>, key: &str) -> (r: Option<
    &'a JsonValue,
>)
    ensures
        match r {
            Option::Some(v) => lookup(entries_v(o@), key@) == Option::Some(jv(*v)),
            Option::None => lookup(entries_v(o@), key@) is None,
        },
{
    let mut i: usize = 0;
    while i < o.len()
        invariant
            0 <= i <= o@.len(),
            forall|j: int| 0 <= j < i ==> entries_v(o@)[j].0 != key@,
        decreases o@.len() - i,
    {
        if crate::text::chars_eq_str(&o[i].0, key) {
            proof {
                lemma_entries_v(o@);
                lemma_lookup_first_match(entries_v(o@), key@, i as int);
            }
            return Option::Some(&o[i].1);
        }
        proof {
            lemma_entries_v(o@);
        }
        i = i + 1;
    }
    proof {
        lemma_entries_v(o@);
        lemma_lookup_none(entries_v(o@), key@);
    }
    Option::None
}

/// Copies a character vector.
pub fn clone_chars(v: &Vec<char>) -> (r: Vec<char>)
    ensures
        r@ == v@,
{
    let mut r: Vec<char> = Vec::new();
    let mut i: usize = 0;
    while i < v.len()
        invariant
            0 <= i <= v@.len(),
            r@ == v@.subrange(0, i as int),
        decreases v@.len() - i,
    {
        r.push(v[i]);
        proof {
            assert(r@ =~= v@.subrange(0, i + 1));
        }
        i = i + 1;
    }
    proof {
        assert(r@ =~= v@);
    }
    r
}

} // verus!
