//! An ordered JSON document tree.
//!
//! Schema nodes and manifest documents are values of `Json`. Objects keep
//! their entries in insertion order, so a document determines its
//! serialized text completely.
use vstd::prelude::*;

verus! {

broadcast use
    vstd::seq::axiom_seq_index_decreases,
    vstd::std_specs::vec::axiom_vec_index_decreases,
    vstd::std_specs::vec::axiom_vec_decreases_to_view;

/// A JSON document: the output language of the schema synthesizer and of
/// the manifest assembler. Object keys keep declaration order.
#[derive(Debug, PartialEq)]
pub enum Json {
    Null,
    Bool(bool),
    Int(i64),
    Str(String),
    Arr(Vec<Json>),
    Obj(Vec<(String, Json)>),
}

/// The mathematical value of a `Json` document.
#[verifier::ext_equal]
pub ghost enum JsonV {
    Null,
    Bool(bool),
    Int(int),
    Str(Seq<char>),
    Arr(Seq<JsonV>),
    Obj(Seq<(Seq<char>, JsonV)>),
}

pub open spec fn jview(j: Json) -> JsonV
    decreases j,
{
    match j {
        Json::Null => JsonV::Null,
        Json::Bool(b) => JsonV::Bool(b),
        Json::Int(i) => JsonV::Int(i as int),
        Json::Str(s) => JsonV::Str(s@),
        Json::Arr(xs) => JsonV::Arr(jview_seq(xs@)),
        Json::Obj(ps) => JsonV::Obj(jview_pairs(ps@)),
    }
}

pub open spec fn jview_seq(s: Seq<Json>) -> Seq<JsonV>
    decreases s,
{
    if s.len() == 0 {
        Seq::empty()
    } else {
        jview_seq(s.drop_last()).push(jview(s.last()))
    }
}

pub open spec fn jview_pairs(s: Seq<(String, Json)>) -> Seq<(Seq<char>, JsonV)>
    decreases s,
{
    if s.len() == 0 {
        Seq::empty()
    } else {
        jview_pairs(s.drop_last()).push((s.last().0@, jview(s.last().1)))
    }
}

impl View for Json {
    type V = JsonV;

    open spec fn view(&self) -> JsonV {
        jview(*self)
    }
}

impl DeepView for Json {
    type V = JsonV;

    open spec fn deep_view(&self) -> JsonV {
        jview(*self)
    }
}

pub broadcast proof fn lemma_jview_seq(s: Seq<Json>)
    ensures
        (#[trigger] jview_seq(s)).len() == s.len(),
        forall|i: int| 0 <= i < s.len() ==> jview_seq(s)[i] == jview(s[i]),
    decreases s,
{
    if s.len() > 0 {
        lemma_jview_seq(s.drop_last());
    }
}

pub broadcast proof fn lemma_jview_pairs(s: Seq<(String, Json)>)
    ensures
        (#[trigger] jview_pairs(s)).len() == s.len(),
        forall|i: int|
            0 <= i < s.len() ==> jview_pairs(s)[i] == (s[i].0@, jview(s[i].1)),
    decreases s,
{
    if s.len() > 0 {
        lemma_jview_pairs(s.drop_last());
    }
}

/// The keys of an object's entry list, in order.
pub open spec fn keys_of(ps: Seq<(Seq<char>, JsonV)>) -> Seq<Seq<char>> {
    ps.map_values(|p: (Seq<char>, JsonV)| p.0)
}

/// No two entries share a key.
pub open spec fn distinct_keys(ks: Seq<Seq<char>>) -> bool {
    forall|i: int, j: int| 0 <= i < j < ks.len() ==> ks[i] != ks[j]
}

/// The value stored under `k`, if any.
pub open spec fn obj_get(ps: Seq<(Seq<char>, JsonV)>, k: Seq<char>) -> Option<JsonV>
    decreases ps,
{
    if ps.len() == 0 {
        None
    } else if ps[0].0 == k {
        Some(ps[0].1)
    } else {
        obj_get(ps.drop_first(), k)
    }
}

/// A well-formed document: every object level has pairwise distinct keys.
pub open spec fn wf_json(j: JsonV) -> bool
    decreases j,
{
    match j {
        JsonV::Arr(s) => wf_json_seq(s),
        JsonV::Obj(ps) => distinct_keys(keys_of(ps)) && wf_json_pairs(ps),
        _ => true,
    }
}

pub open spec fn wf_json_seq(s: Seq<JsonV>) -> bool
    decreases s,
{
    if s.len() == 0 {
        true
    } else {
        wf_json_seq(s.drop_last()) && wf_json(s.last())
    }
}

pub open spec fn wf_json_pairs(ps: Seq<(Seq<char>, JsonV)>) -> bool
    decreases ps,
{
    if ps.len() == 0 {
        true
    } else {
        wf_json_pairs(ps.drop_last()) && wf_json(ps.last().1)
    }
}

pub broadcast proof fn lemma_wf_json_seq(s: Seq<JsonV>)
    ensures
        #[trigger] wf_json_seq(s) <==> (forall|i: int| 0 <= i < s.len() ==> wf_json(s[i])),
    decreases s,
{
    if s.len() > 0 {
        lemma_wf_json_seq(s.drop_last());
        assert(forall|i: int| 0 <= i < s.len() - 1 ==> s.drop_last()[i] == s[i]);
    }
}

pub broadcast proof fn lemma_wf_json_pairs(ps: Seq<(Seq<char>, JsonV)>)
    ensures
        #[trigger] wf_json_pairs(ps) <==> (forall|i: int|
            0 <= i < ps.len() ==> wf_json(ps[i].1)),
    decreases ps,
{
    if ps.len() > 0 {
        lemma_wf_json_pairs(ps.drop_last());
        assert(forall|i: int| 0 <= i < ps.len() - 1 ==> ps.drop_last()[i] == ps[i]);
    }
}

} // verus!
