//! A structural JSON model: the configuration integrity system reads,
//! merges and writes JSON through this type, so that the merge and
//! classification logic is plain verified code.
//!
//! Contracts speak of `jm(v)`, the mathematical shape of a document; the
//! functions that turn text into a `JsonValue` and back are the module's
//! only boundary to the outside JSON crate.

use vstd::prelude::*;

use crate::text::str_eq;

verus! {

/// A JSON document.
///
/// Numbers that fit a signed or unsigned 64-bit integer are carried as
/// such; any other numeric literal is kept as its text under `Num`.
/// An object is a list of key/value entries in document order.
#[derive(Debug, PartialEq)]
pub enum JsonValue {
    Null,
    Bool(bool),
    Int(i64),
    UInt(u64),
    Num(String),
    Str(String),
    Arr(Vec<JsonValue>),
    Obj(Vec<(String, JsonValue)>),
}

/// The mathematical shape of a JSON document, as the contracts speak of
/// it: all numbers one `int`, strings as character sequences, composites
/// as sequences.
pub enum JsonModel {
    Null,
    Bool(bool),
    Int(int),
    Num(Seq<char>),
    Str(Seq<char>),
    Arr(Seq<JsonModel>),
    Obj(Seq<(Seq<char>, JsonModel)>),
}

/// The model of a document.
pub open spec fn jm(v: JsonValue) -> JsonModel
    decreases v,
{
    match v {
        JsonValue::Null => JsonModel::Null,
        JsonValue::Bool(b) => JsonModel::Bool(b),
        JsonValue::Int(i) => JsonModel::Int(i as int),
        JsonValue::UInt(u) => JsonModel::Int(u as int),
        JsonValue::Num(s) => JsonModel::Num(s@),
        JsonValue::Str(s) => JsonModel::Str(s@),
        JsonValue::Arr(items) => JsonModel::Arr(jm_seq(items@)),
        JsonValue::Obj(entries) => JsonModel::Obj(jm_entries(entries@)),
    }
}

/// The models of a list of documents.
pub open spec fn jm_seq(items: Seq<JsonValue>) -> Seq<JsonModel>
    decreases items,
{
    if items.len() == 0 {
        Seq::empty()
    } else {
        jm_seq(items.drop_last()).push(jm(items.last()))
    }
}

/// The models of a list of object entries.
pub open spec fn jm_entries(entries: Seq<(String, JsonValue)>) -> Seq<(Seq<char>, JsonModel)>
    decreases entries,
{
    if entries.len() == 0 {
        Seq::empty()
    } else {
        jm_entries(entries.drop_last()).push((entries.last().0@, jm(entries.last().1)))
    }
}

pub proof fn lemma_jm_seq(items: Seq<JsonValue>)
    ensures
        jm_seq(items).len() == items.len(),
        forall|i: int| 0 <= i < items.len() ==> #[trigger] jm_seq(items)[i] == jm(items[i]),
    decreases items,
{
    if items.len() > 0 {
        lemma_jm_seq(items.drop_last());
    }
}

pub proof fn lemma_jm_entries(entries: Seq<(String, JsonValue)>)
    ensures
        jm_entries(entries).len() == entries.len(),
        forall|i: int|
            0 <= i < entries.len() ==> #[trigger] jm_entries(entries)[i] == (
            entries[i].0@,
            jm(entries[i].1),
            ),
    decreases entries,
{
    if entries.len() > 0 {
        lemma_jm_entries(entries.drop_last());
    }
}

/// The value under the first entry of `entries` whose key reads `k`.
pub open spec fn spec_lookup(entries: Seq<(Seq<char>, JsonModel)>, k: Seq<char>) -> Option<
    JsonModel,
>
    decreases entries.len(),
{
    if entries.len() == 0 {
        None
    } else if entries[0].0 == k {
        Some(entries[0].1)
    } else {
        spec_lookup(entries.drop_first(), k)
    }
}

/// `entries` with the value under `k` replaced by `v`: the first entry
/// whose key reads `k` takes `v`; where none exists, `(k, v)` is
/// appended.
pub open spec fn spec_set_key(
    entries: Seq<(Seq<char>, JsonModel)>,
    k: Seq<char>,
    v: JsonModel,
) -> Seq<(Seq<char>, JsonModel)>
    decreases entries.len(),
{
    if entries.len() == 0 {
        seq![(k, v)]
    } else if entries[0].0 == k {
        seq![(entries[0].0, v)].add(entries.drop_first())
    } else {
        seq![entries[0]].add(spec_set_key(entries.drop_first(), k, v))
    }
}

/// The deep structural merge of `b` into `a`: where both are objects the
/// keys of `b` are merged in one by one; everywhere else `b` replaces `a`
/// wholesale.
pub open spec fn spec_merge(a: JsonModel, b: JsonModel) -> JsonModel
    decreases b,
{
    match b {
        JsonModel::Obj(be) => match a {
            JsonModel::Obj(ae) => JsonModel::Obj(spec_merge_entries(ae, be)),
            _ => b,
        },
        _ => b,
    }
}

/// Merge the entries of `be` into `ae`, front to back: each key of `be`
/// is merged onto the value already under it (or onto `Null` where the
/// key is new).
pub open spec fn spec_merge_entries(
    ae: Seq<(Seq<char>, JsonModel)>,
    be: Seq<(Seq<char>, JsonModel)>,
) -> Seq<(Seq<char>, JsonModel)>
    decreases be,
{
    if be.len() == 0 {
        ae
    } else {
        let k = be[0].0;
        let v = be[0].1;
        let base = match spec_lookup(ae, k) {
            Some(o) => o,
            None => JsonModel::Null,
        };
        spec_merge_entries(spec_set_key(ae, k, spec_merge(base, v)), be.drop_first())
    }
}

/// A copy with the same model as `v`.
pub fn json_clone(v: &JsonValue) -> (r: JsonValue)
    ensures
        jm(r) == jm(*v),
    decreases *v,
{
    broadcast use vstd::std_specs::vec::group_vec_axioms;

    match v {
        JsonValue::Null => JsonValue::Null,
        JsonValue::Bool(b) => JsonValue::Bool(*b),
        JsonValue::Int(i) => JsonValue::Int(*i),
        JsonValue::UInt(u) => JsonValue::UInt(*u),
        JsonValue::Num(s) => JsonValue::Num(s.clone()),
        JsonValue::Str(s) => JsonValue::Str(s.clone()),
        JsonValue::Arr(items) => {
            let mut out: Vec<JsonValue> = Vec::new();
            let mut i: usize = 0;
            while i < items.len()
                invariant
                    i <= items@.len(),
                    out@.len() == i,
                    forall|j: int| 0 <= j < i ==> jm(#[trigger] out@[j]) == jm(items@[j]),
                    *v == JsonValue::Arr(*items),
                decreases items@.len() - i,
            {
                proof {
                    assert(decreases_to!(*v => v->Arr_0));
                    assert(decreases_to!(v->Arr_0 => items@));
                    assert(decreases_to!(items@ => items@[i as int]));
                }
                out.push(json_clone(&items[i]));
                i = i + 1;
            }
            proof {
                lemma_jm_seq(out@);
                lemma_jm_seq(items@);
                assert(jm_seq(out@) =~= jm_seq(items@));
            }
            JsonValue::Arr(out)
        },
        JsonValue::Obj(entries) => {
            proof {
                assert(decreases_to!(*v => v->Obj_0));
                assert(decreases_to!(v->Obj_0 => entries@));
            }
            JsonValue::Obj(json_clone_entries(entries))
        },
    }
}

fn json_clone_entries(entries: &Vec<(String, JsonValue)>) -> (r: Vec<(String, JsonValue)>)
    ensures
        jm_entries(r@) == jm_entries(entries@),
    decreases entries@,
{
    let mut out: Vec<(String, JsonValue)> = Vec::new();
    let mut i: usize = 0;
    while i < entries.len()
        invariant
            i <= entries@.len(),
            out@.len() == i,
            forall|j: int|
                0 <= j < i ==> (#[trigger] out@[j]).0@ == entries@[j].0@ && jm(out@[j].1) == jm(
                    entries@[j].1,
                ),
        decreases entries@.len() - i,
    {
        let e = &entries[i];
        proof {
            assert(decreases_to!(entries@ => entries@[i as int]));
            assert(decreases_to!(entries@[i as int] => entries@[i as int].1));
        }
        out.push((e.0.clone(), json_clone(&e.1)));
        i = i + 1;
    }
    proof {
        lemma_jm_entries(out@);
        lemma_jm_entries(entries@);
        assert(jm_entries(out@) =~= jm_entries(entries@));
    }
    out
}

/// A borrow of the value under the first entry of `entries` whose key
/// reads `k`.
pub fn lookup_key<'a>(entries: &'a Vec<(String, JsonValue)>, k: &str) -> (r: Option<
    &'a JsonValue,
>)
    ensures
        match r {
            Some(v) => spec_lookup(jm_entries(entries@), k@) == Some(jm(*v)),
            None => spec_lookup(jm_entries(entries@), k@) is None,
        },
{
    proof {
        lemma_jm_entries(entries@);
    }
    let ghost m = jm_entries(entries@);
    proof {
        assert(m.subrange(0, m.len() as int) =~= m);
    }
    let mut i: usize = 0;
    while i < entries.len()
        invariant
            i <= entries@.len(),
            m == jm_entries(entries@),
            m.len() == entries@.len(),
            forall|j: int|
                0 <= j < entries@.len() ==> #[trigger] m[j] == (entries@[j].0@, jm(entries@[j].1)),
            spec_lookup(m, k@) == spec_lookup(m.subrange(i as int, m.len() as int), k@),
        decreases entries@.len() - i,
    {
        let ghost rest = m.subrange(i as int, m.len() as int);
        if str_eq(entries[i].0.as_str(), k) {
            return Some(&entries[i].1);
        }
        i = i + 1;
        proof {
            assert(rest.drop_first() =~= m.subrange(i as int, m.len() as int));
        }
    }
    proof {
        assert(m.subrange(m.len() as int, m.len() as int) =~= Seq::<(
            Seq<char>,
            JsonModel,
        )>::empty());
    }
    None
}

/// Replace the value under `k` in `entries` (or append the pair where the
/// key is new).
fn set_key(entries: &mut Vec<(String, JsonValue)>, k: String, v: JsonValue)
    ensures
        jm_entries(final(entries)@) == spec_set_key(jm_entries(old(entries)@), k@, jm(v)),
{
    proof {
        lemma_jm_entries(entries@);
    }
    let mut i: usize = 0;
    let n = entries.len();
    while i < n
        invariant
            n == entries@.len(),
            i <= n,
            entries@ == old(entries)@,
            forall|j: int| 0 <= j < i ==> entries@[j].0@ != k@,
        decreases n - i,
    {
        if str_eq(entries[i].0.as_str(), k.as_str()) {
            let ghost before = entries@;
            entries[i].1 = v;
            proof {
                lemma_jm_entries(before);
                lemma_jm_entries(entries@);
                assert(entries@ =~= before.update(i as int, (before[i as int].0, v)));
                lemma_set_key_found(jm_entries(before), k@, jm(v), i as int);
                assert(jm_entries(entries@) =~= jm_entries(before).update(
                    i as int,
                    (before[i as int].0@, jm(v)),
                ));
            }
            return ;
        }
        i = i + 1;
    }
    let ghost before = entries@;
    entries.push((k, v));
    proof {
        lemma_jm_entries(before);
        lemma_jm_entries(entries@);
        lemma_set_key_missing(jm_entries(before), k@, jm(v));
        assert(entries@ =~= before.push((k, v)));
        assert(jm_entries(entries@) =~= jm_entries(before).push((k@, jm(v))));
    }
}

proof fn lemma_set_key_found(s: Seq<(Seq<char>, JsonModel)>, k: Seq<char>, v: JsonModel, idx: int)
    requires
        0 <= idx < s.len(),
        s[idx].0 == k,
        forall|j: int| 0 <= j < idx ==> s[j].0 != k,
    ensures
        spec_set_key(s, k, v) =~= s.update(idx, (s[idx].0, v)),
    decreases idx,
{
    if idx == 0 {
    } else {
        lemma_set_key_found(s.drop_first(), k, v, idx - 1);
        assert(s.update(idx, (s[idx].0, v)).drop_first() =~= s.drop_first().update(
            idx - 1,
            (s[idx].0, v),
        ));
    }
}

proof fn lemma_set_key_missing(s: Seq<(Seq<char>, JsonModel)>, k: Seq<char>, v: JsonModel)
    requires
        forall|j: int| 0 <= j < s.len() ==> s[j].0 != k,
    ensures
        spec_set_key(s, k, v) =~= s.push((k, v)),
    decreases s.len(),
{
    if s.len() > 0 {
        lemma_set_key_missing(s.drop_first(), k, v);
        assert(s.push((k, v)).drop_first() =~= s.drop_first().push((k, v)));
    }
}

/// The deep structural merge of `b` into `a`: where both are objects,
/// every key of `b` is merged into `a` (recursively for objects under a
/// shared key); everywhere else the result is a copy of `b`.
pub fn merge_json(a: &JsonValue, b: &JsonValue) -> (r: JsonValue)
    ensures
        jm(r) == spec_merge(jm(*a), jm(*b)),
    decreases *b,
{
    broadcast use vstd::std_specs::vec::group_vec_axioms;

    match b {
        JsonValue::Obj(be) => {
            match a {
                JsonValue::Obj(ae) => {
                    let ghost bm = jm_entries(be@);
                    proof {
                        lemma_jm_entries(be@);
                        assert(bm.subrange(0, bm.len() as int) =~= bm);
                    }
                    let mut out: Vec<(String, JsonValue)> = json_clone_entries(ae);
                    let mut i: usize = 0;
                    while i < be.len()
                        invariant
                            i <= be@.len(),
                            *b == JsonValue::Obj(*be),
                            bm == jm_entries(be@),
                            bm.len() == be@.len(),
                            forall|j: int|
                                0 <= j < be@.len() ==> #[trigger] bm[j] == (
                                be@[j].0@,
                                jm(be@[j].1),
                                ),
                            spec_merge_entries(jm_entries(ae@), bm) == spec_merge_entries(
                                jm_entries(out@),
                                bm.subrange(i as int, bm.len() as int),
                            ),
                        decreases be@.len() - i,
                    {
                        let ghost rest = bm.subrange(i as int, bm.len() as int);
                        let e = &be[i];
                        let null_v = JsonValue::Null;
                        let base: &JsonValue = match lookup_key(&out, e.0.as_str()) {
                            Some(r) => r,
                            None => &null_v,
                        };
                        proof {
                            assert(decreases_to!(*b => b->Obj_0));
                            assert(decreases_to!(b->Obj_0 => be@));
                            assert(decreases_to!(be@ => be@[i as int]));
                            assert(decreases_to!(be@[i as int] => be@[i as int].1));
                        }
                        let merged = merge_json(base, &e.1);
                        set_key(&mut out, e.0.clone(), merged);
                        i = i + 1;
                        proof {
                            assert(rest.drop_first() =~= bm.subrange(i as int, bm.len() as int));
                        }
                    }
                    proof {
                        assert(bm.subrange(bm.len() as int, bm.len() as int) =~= Seq::<(
                            Seq<char>,
                            JsonModel,
                        )>::empty());
                    }
                    JsonValue::Obj(out)
                },
                _ => json_clone(b),
            }
        },
        _ => json_clone(b),
    }
}

/// Where no entry carries the key, lookup finds nothing.
pub proof fn lemma_lookup_none(e: Seq<(Seq<char>, JsonModel)>, k: Seq<char>)
    requires
        forall|i: int| 0 <= i < e.len() ==> (#[trigger] e[i]).0 != k,
    ensures
        spec_lookup(e, k) is None,
    decreases e.len(),
{
    if e.len() > 0 {
        lemma_lookup_none(e.drop_first(), k);
    }
}

/// Lookup finds the first entry carrying the key.
pub proof fn lemma_lookup_at(e: Seq<(Seq<char>, JsonModel)>, k: Seq<char>, idx: int)
    requires
        0 <= idx < e.len(),
        e[idx].0 == k,
        forall|j: int| 0 <= j < idx ==> (#[trigger] e[j]).0 != k,
    ensures
        spec_lookup(e, k) == Some(e[idx].1),
    decreases idx,
{
    if idx > 0 {
        lemma_lookup_at(e.drop_first(), k, idx - 1);
    }
}

/// Lookup after a key replacement: the replaced key reads the new value,
/// every other key reads as before.
pub proof fn lemma_lookup_set_key(
    e: Seq<(Seq<char>, JsonModel)>,
    k: Seq<char>,
    v: JsonModel,
    k2: Seq<char>,
)
    ensures
        spec_lookup(spec_set_key(e, k, v), k2) == (if k2 == k {
            Some(v)
        } else {
            spec_lookup(e, k2)
        }),
    decreases e.len(),
{
    let out = spec_set_key(e, k, v);
    if e.len() == 0 {
        assert(out == seq![(k, v)]);
        assert(out.drop_first() =~= Seq::<(Seq<char>, JsonModel)>::empty());
    } else if e[0].0 == k {
        assert(out =~= seq![(e[0].0, v)].add(e.drop_first()));
        assert(out[0] == (e[0].0, v));
        assert(out.drop_first() =~= e.drop_first());
    } else {
        assert(out =~= seq![e[0]].add(spec_set_key(e.drop_first(), k, v)));
        assert(out[0] == e[0]);
        assert(out.drop_first() =~= spec_set_key(e.drop_first(), k, v));
        lemma_lookup_set_key(e.drop_first(), k, v, k2);
    }
}

/// Lookup after an entry merge, for a merge list without repeated keys:
/// a key of `be` reads its value merged onto what `ae` had under it, any
/// other key reads as in `ae`.
pub proof fn lemma_lookup_merge_entries(
    ae: Seq<(Seq<char>, JsonModel)>,
    be: Seq<(Seq<char>, JsonModel)>,
    k: Seq<char>,
)
    requires
        forall|i: int, j: int| 0 <= i < j < be.len() ==> be[i].0 != be[j].0,
    ensures
        spec_lookup(spec_merge_entries(ae, be), k) == (match spec_lookup(be, k) {
            Some(v) => Some(
                spec_merge(
                    match spec_lookup(ae, k) {
                        Some(o) => o,
                        None => JsonModel::Null,
                    },
                    v,
                ),
            ),
            None => spec_lookup(ae, k),
        }),
    decreases be.len(),
{
    if be.len() > 0 {
        let k0 = be[0].0;
        let v0 = be[0].1;
        let base0 = match spec_lookup(ae, k0) {
            Some(o) => o,
            None => JsonModel::Null,
        };
        let ae1 = spec_set_key(ae, k0, spec_merge(base0, v0));
        let be1 = be.drop_first();
        lemma_lookup_merge_entries(ae1, be1, k);
        lemma_lookup_set_key(ae, k0, spec_merge(base0, v0), k);
        if k == k0 {
            assert(forall|i: int| 0 <= i < be1.len() ==> (#[trigger] be1[i]).0 != k);
            lemma_lookup_none(be1, k);
        }
    }
}

#[verifier::external_type_specification]
#[verifier::external_body]
pub struct ExSerdeValue(serde_json::Value);

#[verifier::external_type_specification]
#[verifier::external_body]
pub struct ExSerdeNumber(serde_json::Number);

/// What the outside JSON parser yields on a given text: a function of the
/// text alone.
pub uninterp spec fn spec_json_parse(s: Seq<char>) -> Option<JsonValue>;

/// Relies on serde_json::from_str::<serde_json::Value>: it parses JSON
/// text into a document, deterministically in the text, and fails exactly
/// on text that is not one JSON document.
#[verifier::external_body]
pub fn parse_json(s: &str) -> (r: Option<JsonValue>)
    ensures
        r == spec_json_parse(s@),
{
    match serde_json::from_str::<serde_json::Value>(s) {
        Ok(v) => Some(from_outside_value(v)),
        Err(_) => None,
    }
}

/// Relies on serde_json::Value: each variant of the parsed document is
/// moved into the model type, field for field.
#[verifier::external_body]
fn from_outside_value(v: serde_json::Value) -> JsonValue {
    match v {
        serde_json::Value::Null => JsonValue::Null,
        serde_json::Value::Bool(b) => JsonValue::Bool(b),
        serde_json::Value::Number(n) => from_outside_number(n),
        serde_json::Value::String(s) => JsonValue::Str(s),
        serde_json::Value::Array(items) => JsonValue::Arr(items.into_iter().map(from_outside_value).collect()),
        serde_json::Value::Object(map) => JsonValue::Obj(map.into_iter().map(|(k, v)| (k, from_outside_value(v))).collect()),
    }
}

/// Relies on serde_json::Number: a number that fits a 64-bit integer is
/// moved into one; any other keeps its printed text.
#[verifier::external_body]
fn from_outside_number(n: serde_json::Number) -> JsonValue {
    match (n.as_i64(), n.as_u64()) {
        (Some(i), _) => JsonValue::Int(i),
        (None, Some(u)) => JsonValue::UInt(u),
        (None, None) => JsonValue::Num(n.to_string()),
    }
}

/// What the outside JSON printer writes for a given document: a function
/// of the document's model alone.
pub uninterp spec fn spec_json_text(m: JsonModel) -> Seq<char>;

/// Relies on serde_json::to_string_pretty and serde_json::Number: the
/// printed text depends only on the document's model, since equal-valued
/// signed and unsigned numbers print alike.
#[verifier::external_body]
pub fn json_to_string(v: &JsonValue) -> (r: String)
    ensures
        r@ == spec_json_text(jm(*v)),
{
    serde_json::to_string_pretty(&to_outside_value(v)).unwrap_or_default()
}

/// Relies on serde_json::Value: each variant of the model type is moved
/// back into the outside document type, field for field.
#[verifier::external_body]
fn to_outside_value(v: &JsonValue) -> serde_json::Value {
    match v {
        JsonValue::Null => serde_json::Value::Null,
        JsonValue::Bool(b) => serde_json::Value::Bool(*b),
        JsonValue::Int(i) => serde_json::Value::from(*i),
        JsonValue::UInt(u) => serde_json::Value::from(*u),
        JsonValue::Num(s) => to_outside_number(s),
        JsonValue::Str(s) => serde_json::Value::String(s.clone()),
        JsonValue::Arr(items) => serde_json::Value::Array(items.iter().map(to_outside_value).collect()),
        JsonValue::Obj(entries) => serde_json::Value::Object(entries.iter().map(|(k, v)| (k.clone(), to_outside_value(v))).collect()),
    }
}

/// Relies on serde_json::Number: a kept numeric literal is parsed back
/// into a number, or drops to null where its text no longer reads as one.
#[verifier::external_body]
fn to_outside_number(s: &String) -> serde_json::Value {
    match serde_json::from_str::<serde_json::Number>(s) {
        Ok(n) => serde_json::Value::Number(n),
        Err(_) => serde_json::Value::Null,
    }
}

} // verus!
