//! Rendering finished documents as text.
//!
//! A document is converted, node by node, into a `serde_json::Value` and
//! serialized by the serde_yaml and serde_json crates. Serialization is
//! treated as a black box: what it returns for a given document is named
//! by the uninterpreted functions [`yaml_text`] and [`json_pretty_text`],
//! so that byte-for-byte determinism of the rendered artifacts follows
//! from the determinism of the document.
use vstd::prelude::*;

use crate::errors::BuildError;
use crate::json::Json;
use crate::json::JsonV;
use crate::json::distinct_keys;
use crate::json::jview;
use crate::json::jview_pairs;
use crate::json::jview_seq;
use crate::json::keys_of;
use crate::json::lemma_wf_json_pairs;
use crate::json::lemma_wf_json_seq;
use crate::json::wf_json;
use crate::json::wf_json_pairs;
use crate::json::wf_json_seq;

verus! {

broadcast use
    vstd::seq::axiom_seq_index_decreases,
    vstd::std_specs::vec::axiom_vec_index_decreases,
    vstd::std_specs::vec::axiom_vec_decreases_to_view,
    crate::json::lemma_jview_pairs,
    crate::json::lemma_jview_seq,
    crate::json::lemma_wf_json_pairs,
    crate::json::lemma_wf_json_seq;

#[verifier::external_type_specification]
#[verifier::external_body]
pub struct ExValue(serde_json::Value);

#[verifier::external_type_specification]
#[verifier::external_body]
pub struct ExYamlError(serde_yaml::Error);

#[verifier::external_type_specification]
#[verifier::external_body]
pub struct ExJsonError(serde_json::Error);

/// The document held by a `serde_json::Value`, as this library's own
/// document type. With the crate's ordered map representation, a value
/// determines its document.
pub uninterp spec fn value_view(v: serde_json::Value) -> JsonV;

pub open spec fn values_view(s: Seq<serde_json::Value>) -> Seq<JsonV> {
    s.map_values(|v: serde_json::Value| value_view(v))
}

pub open spec fn pairs_view(s: Seq<(String, serde_json::Value)>) -> Seq<(Seq<char>, JsonV)> {
    s.map_values(|p: (String, serde_json::Value)| (p.0@, value_view(p.1)))
}

pub open spec fn pair_keys(s: Seq<(String, serde_json::Value)>) -> Seq<Seq<char>> {
    s.map_values(|p: (String, serde_json::Value)| p.0@)
}

/// Relies on `serde_json::Value::Null`: the null value.
#[verifier::external_body]
fn jv_null() -> (v: serde_json::Value)
    ensures
        value_view(v) == JsonV::Null,
{
    serde_json::Value::Null
}

/// Relies on `serde_json::Value::Bool`: the boolean value.
#[verifier::external_body]
fn jv_bool(b: bool) -> (v: serde_json::Value)
    ensures
        value_view(v) == JsonV::Bool(b),
{
    serde_json::Value::Bool(b)
}

/// Relies on `serde_json::Value::Number` and `From<i64> for Number`:
/// an integer is represented exactly.
#[verifier::external_body]
fn jv_int(i: i64) -> (v: serde_json::Value)
    ensures
        value_view(v) == JsonV::Int(i as int),
{
    serde_json::Value::Number(serde_json::Number::from(i))
}

/// Relies on `serde_json::Value::String`: the string value.
#[verifier::external_body]
fn jv_str(s: &String) -> (v: serde_json::Value)
    ensures
        value_view(v) == JsonV::Str(s@),
{
    serde_json::Value::String(s.clone())
}

/// Relies on `serde_json::Value::Array`: the array of the given values,
/// in order.
#[verifier::external_body]
fn jv_arr(items: Vec<serde_json::Value>) -> (v: serde_json::Value)
    ensures
        value_view(v) == JsonV::Arr(values_view(items@)),
{
    serde_json::Value::Array(items)
}

/// Relies on `serde_json::Value::Object` and on `serde_json::Map`'s
/// `FromIterator`: with distinct keys and the crate's order-preserving
/// map, the object holds exactly the given entries, in order.
#[verifier::external_body]
fn jv_obj(pairs: Vec<(String, serde_json::Value)>) -> (v: serde_json::Value)
    requires
        distinct_keys(pair_keys(pairs@)),
    ensures
        value_view(v) == JsonV::Obj(pairs_view(pairs@)),
{
    serde_json::Value::Object(pairs.into_iter().collect())
}

/// The YAML text that serde_yaml produces for a document. Serialization
/// reads nothing but the value, so the text is a function of the
/// document alone.
pub uninterp spec fn yaml_text(d: JsonV) -> Seq<char>;

/// Whether serde_yaml serializes a document at all. Success, like the
/// text itself, depends on the value alone, so it too is a function of
/// the document.
pub uninterp spec fn yaml_renders(d: JsonV) -> bool;

/// The pretty-printed JSON text that serde_json produces for a document.
pub uninterp spec fn json_pretty_text(d: JsonV) -> Seq<char>;

/// Whether serde_json serializes a document at all; a function of the
/// document, as the text is.
pub uninterp spec fn json_renders(d: JsonV) -> bool;

/// Relies on `serde_yaml::to_string`: the YAML rendering of the value.
/// Both the text and whether serialization succeeds depend on the value
/// alone.
#[verifier::external_body]
fn yaml_of_value(v: &serde_json::Value) -> (r: Result<String, serde_yaml::Error>)
    ensures
        r matches Ok(s) ==> s@ == yaml_text(value_view(*v)),
        r is Ok <==> yaml_renders(value_view(*v)),
{
    serde_yaml::to_string(v)
}

/// Relies on `serde_json::to_string_pretty`: the pretty-printed JSON
/// rendering of the value. Both the text and whether serialization
/// succeeds depend on the value alone.
#[verifier::external_body]
fn json_pretty_of_value(v: &serde_json::Value) -> (r: Result<String, serde_json::Error>)
    ensures
        r matches Ok(s) ==> s@ == json_pretty_text(value_view(*v)),
        r is Ok <==> json_renders(value_view(*v)),
{
    serde_json::to_string_pretty(v)
}

/// Relies on the `Display` rendering of serde_yaml's error type.
#[verifier::external_body]
fn yaml_error_message(e: &serde_yaml::Error) -> (r: String) {
    e.to_string()
}

/// Relies on the `Display` rendering of serde_json's error type.
#[verifier::external_body]
fn json_error_message(e: &serde_json::Error) -> (r: String) {
    e.to_string()
}

/// Converts a well-formed document into the equivalent serde_json value.
pub fn to_value(j: &Json) -> (v: serde_json::Value)
    requires
        wf_json(jview(*j)),
    ensures
        value_view(v) == jview(*j),
    decreases *j,
{
    match j {
        Json::Null => jv_null(),
        Json::Bool(b) => jv_bool(*b),
        Json::Int(i) => jv_int(*i),
        Json::Str(s) => jv_str(s),
        Json::Arr(xs) => {
            let mut items: Vec<serde_json::Value> = Vec::new();
            let mut k: usize = 0;
            while k < xs.len()
                invariant
                    0 <= k <= xs@.len(),
                    decreases_to!(*j => xs@),
                    wf_json_seq(jview_seq(xs@)),
                    items@.len() == k,
                    forall|t: int|
                        0 <= t < k ==> value_view(items@[t]) == jview(xs@[t]),
                decreases xs@.len() - k,
            {
                proof {
                    assert(wf_json(jview_seq(xs@)[k as int]));
                }
                items.push(to_value(&xs[k]));
                k = k + 1;
            }
            let v = jv_arr(items);
            proof {
                assert(values_view(items@) =~= jview_seq(xs@));
            }
            v
        },
        Json::Obj(ps) => {
            let mut pairs: Vec<(String, serde_json::Value)> = Vec::new();
            let mut k: usize = 0;
            while k < ps.len()
                invariant
                    0 <= k <= ps@.len(),
                    decreases_to!(*j => ps@),
                    wf_json_pairs(jview_pairs(ps@)),
                    pairs@.len() == k,
                    forall|t: int|
                        0 <= t < k ==> (pairs@[t].0@, value_view(pairs@[t].1))
                            == jview_pairs(ps@)[t],
                decreases ps@.len() - k,
            {
                proof {
                    assert(wf_json(jview_pairs(ps@)[k as int].1));
                    assert(decreases_to!(ps@ => ps@[k as int]));
                }
                let val = to_value(&ps[k].1);
                pairs.push((ps[k].0.clone(), val));
                k = k + 1;
            }
            proof {
                assert(pairs_view(pairs@) =~= jview_pairs(ps@));
                assert(pair_keys(pairs@) =~= keys_of(jview_pairs(ps@)));
            }
            jv_obj(pairs)
        },
    }
}

/// Renders a well-formed document as YAML. It succeeds exactly when the
/// serializer accepts the document; the text is then exactly the YAML
/// rendering of the document, and a serialization failure is reported as
/// an artifact-writing error.
pub fn render_yaml(doc: &Json) -> (r: Result<String, BuildError>)
    requires
        wf_json(doc@),
    ensures
        r is Ok <==> yaml_renders(doc@),
        r matches Ok(s) ==> s@ == yaml_text(doc@),
        r matches Err(e) ==> e@ is ArtifactWrite,
{
    let v = to_value(doc);
    match yaml_of_value(&v) {
        Ok(s) => Ok(s),
        Err(e) => Err(BuildError::ArtifactWrite { message: yaml_error_message(&e) }),
    }
}

/// Renders a well-formed document as pretty-printed JSON. It succeeds
/// exactly when the serializer accepts the document; the text is then
/// exactly the JSON rendering of the document, and a serialization
/// failure is reported as an artifact-writing error.
pub fn render_json_pretty(doc: &Json) -> (r: Result<String, BuildError>)
    requires
        wf_json(doc@),
    ensures
        r is Ok <==> json_renders(doc@),
        r matches Ok(s) ==> s@ == json_pretty_text(doc@),
        r matches Err(e) ==> e@ is ArtifactWrite,
{
    let v = to_value(doc);
    match json_pretty_of_value(&v) {
        Ok(s) => Ok(s),
        Err(e) => Err(BuildError::ArtifactWrite { message: json_error_message(&e) }),
    }
}

} // verus!
