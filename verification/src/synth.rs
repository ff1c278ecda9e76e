//! The schema synthesizer: lowering a type model to an OpenAPI-v3-style
//! validation schema.
//!
//! `synth` is the mathematical definition of the lowering; `synthesize`
//! is the executable synthesizer and returns exactly what `synth` says,
//! for every model. Synthesis fails only on a naming collision or on a
//! duplicated discriminator tag; the error names the offending
//! identifiers and, gaining one field name (or branch tag) per level on
//! its way out, the path to the definition at fault.
use vstd::prelude::*;
use vstd::string::StringExecFns;

use crate::errors::BuildError;
use crate::errors::ErrV;
use crate::errors::err_in_field;
use crate::errors::err_push_name;
use crate::json::Json;
use crate::json::JsonV;
use crate::json::jview;
use crate::json::jview_pairs;
use crate::json::jview_seq;
use crate::json::distinct_keys;
use crate::json::keys_of;
use crate::json::lemma_jview_pairs;
use crate::json::lemma_jview_seq;
use crate::json::lemma_wf_json_pairs;
use crate::json::lemma_wf_json_seq;
use crate::json::wf_json;
use crate::json::wf_json_pairs;
use crate::json::wf_json_seq;
use crate::model::FieldDef;
use crate::model::FieldV;
use crate::model::ModelV;
use crate::model::PrimitiveKind;
use crate::model::TypeModel;
use crate::model::UnionVariant;
use crate::model::UnionVariantV;
use crate::model::VariantV;
use crate::model::fview_seq;
use crate::model::lemma_fview_seq;
use crate::model::lemma_uview_seq;
use crate::model::mview;
use crate::model::text;
use crate::model::uview_seq;
use crate::model::vview;
use crate::naming::apply_conv;
use crate::naming::apply_convention;

verus! {

broadcast use
    vstd::string::group_string_axioms,
    vstd::seq::axiom_seq_index_decreases,
    vstd::std_specs::vec::axiom_vec_index_decreases,
    vstd::std_specs::vec::axiom_vec_decreases_to_view,
    crate::json::lemma_jview_pairs,
    crate::json::lemma_jview_seq,
    crate::model::lemma_fview_seq,
    crate::model::lemma_uview_seq,
    crate::json::lemma_wf_json_pairs,
    crate::json::lemma_wf_json_seq;

/// The view of a synthesis result.
pub open spec fn res_view(r: Result<Json, BuildError>) -> Result<JsonV, ErrV> {
    match r {
        Ok(j) => Ok(jview(j)),
        Err(e) => Err(e@),
    }
}

/// The serialized key of a field.
pub open spec fn field_key(f: FieldV) -> Seq<char> {
    apply_conv(f.convention, f.name)
}

/// The first position in `ks` holding `k`, if any.
pub open spec fn find_in(ks: Seq<Seq<char>>, k: Seq<char>) -> Option<int>
    decreases ks,
{
    if ks.len() == 0 {
        None
    } else if ks[0] == k {
        Some(0int)
    } else {
        match find_in(ks.drop_first(), k) {
            Some(i) => Some(i + 1),
            None => None,
        }
    }
}

pub proof fn lemma_find_in(ks: Seq<Seq<char>>, k: Seq<char>)
    ensures
        match find_in(ks, k) {
            Some(i) => 0 <= i < ks.len() && ks[i] == k && (forall|j: int|
                0 <= j < i ==> ks[j] != k),
            None => forall|j: int| 0 <= j < ks.len() ==> ks[j] != k,
        },
    decreases ks,
{
    if ks.len() > 0 && ks[0] != k {
        lemma_find_in(ks.drop_first(), k);
        assert(forall|j: int| 1 <= j < ks.len() ==> ks[j] == ks.drop_first()[j - 1]);
    }
}

/// The accumulated outcome of walking a struct's fields: the schema of
/// each property, the required keys, whether a pass-through marker was
/// seen, and (for collision reporting) the serialized keys and declared
/// identifiers seen so far.
pub ghost struct StructParts {
    pub props: Seq<(Seq<char>, JsonV)>,
    pub reqs: Seq<Seq<char>>,
    pub has_pass: bool,
    pub keys: Seq<Seq<char>>,
    pub names: Seq<Seq<char>>,
}

pub open spec fn empty_parts() -> StructParts {
    StructParts {
        props: Seq::empty(),
        reqs: Seq::empty(),
        has_pass: false,
        keys: Seq::empty(),
        names: Seq::empty(),
    }
}

/// The discriminator property of a tagged-union branch: a string
/// constrained to the branch's single tag value.
pub open spec fn disc_prop(disc: Seq<char>, tag: Seq<char>) -> (Seq<char>, JsonV) {
    (
        disc,
        JsonV::Obj(
            seq![
                ("type"@, JsonV::Str("string"@)),
                ("enum"@, JsonV::Arr(seq![JsonV::Str(tag)])),
            ],
        ),
    )
}

/// The starting point for a tagged-union branch: its discriminator
/// property already in place and its key reserved.
pub open spec fn seeded_parts(disc: Seq<char>, tag: Seq<char>) -> StructParts {
    StructParts {
        props: seq![disc_prop(disc, tag)],
        reqs: seq![disc],
        has_pass: false,
        keys: seq![disc],
        names: seq![disc],
    }
}

pub open spec fn passthrough_schema() -> JsonV {
    JsonV::Obj(seq![("x-kubernetes-preserve-unknown-fields"@, JsonV::Bool(true))])
}

pub open spec fn prim_schema(k: PrimitiveKind) -> JsonV {
    match k {
        PrimitiveKind::Text => JsonV::Obj(seq![("type"@, JsonV::Str("string"@))]),
        PrimitiveKind::Integer => JsonV::Obj(seq![("type"@, JsonV::Str("integer"@))]),
        PrimitiveKind::Boolean => JsonV::Obj(seq![("type"@, JsonV::Str("boolean"@))]),
        PrimitiveKind::FreeForm => JsonV::Obj(Seq::empty()),
    }
}

pub open spec fn str_arr(ks: Seq<Seq<char>>) -> Seq<JsonV> {
    ks.map_values(|k: Seq<char>| JsonV::Str(k))
}

/// The serialized values of an enum's variants, in declared order.
pub open spec fn enum_values(vs: Seq<VariantV>) -> Seq<JsonV> {
    vs.map_values(|v: VariantV| JsonV::Str(apply_conv(v.convention, v.name)))
}

pub open spec fn enum_schema(vs: Seq<VariantV>) -> JsonV {
    JsonV::Obj(
        seq![("type"@, JsonV::Str("string"@)), ("enum"@, JsonV::Arr(enum_values(vs)))],
    )
}

/// The schema of a plain struct. A struct holding only a pass-through
/// marker is entirely open: nothing but the vendor extension appears.
/// `required` is listed only when some field is required, and the
/// extension flag only when a pass-through marker was present.
pub open spec fn struct_schema(p: StructParts) -> JsonV {
    if p.props.len() == 0 && p.has_pass {
        passthrough_schema()
    } else {
        JsonV::Obj(
            seq![
                ("type"@, JsonV::Str("object"@)),
                ("properties"@, JsonV::Obj(p.props)),
            ] + (if p.reqs.len() > 0 {
                seq![("required"@, JsonV::Arr(str_arr(p.reqs)))]
            } else {
                Seq::empty()
            }) + (if p.has_pass {
                seq![("x-kubernetes-preserve-unknown-fields"@, JsonV::Bool(true))]
            } else {
                Seq::empty()
            }),
        )
    }
}

/// The schema of one tagged-union branch; its property list always
/// starts with the discriminator, so `required` is never empty.
pub open spec fn branch_schema(p: StructParts) -> JsonV {
    JsonV::Obj(
        seq![
            ("type"@, JsonV::Str("object"@)),
            ("properties"@, JsonV::Obj(p.props)),
            ("required"@, JsonV::Arr(str_arr(p.reqs))),
        ] + (if p.has_pass {
            seq![("x-kubernetes-preserve-unknown-fields"@, JsonV::Bool(true))]
        } else {
            Seq::empty()
        }),
    )
}

pub ghost struct UnionParts {
    pub branches: Seq<JsonV>,
    pub tags: Seq<Seq<char>>,
}

/// Walks a struct's fields in declared order. A pass-through marker
/// field contributes no property and opens the struct. For every other
/// field, a key colliding with an earlier one stops synthesis with the
/// two declared identifiers; otherwise the field's schema is synthesized
/// and recorded, and its key listed as required when the field is.
pub open spec fn struct_parts(init: StructParts, fs: Seq<FieldV>) -> Result<
    StructParts,
    ErrV,
>
    decreases fs,
{
    if fs.len() == 0 {
        Ok(init)
    } else {
        match struct_parts(init, fs.drop_last()) {
            Err(e) => Err(e),
            Ok(p) => {
                let f = fs.last();
                if f.ty is PassThrough {
                    Ok(
                        StructParts {
                            props: p.props,
                            reqs: p.reqs,
                            has_pass: true,
                            keys: p.keys,
                            names: p.names,
                        },
                    )
                } else {
                    let k = field_key(f);
                    match find_in(p.keys, k) {
                        Some(i) => Err(
                            ErrV::NamingCollision {
                                path: Seq::empty(),
                                first: p.names[i],
                                second: f.name,
                            },
                        ),
                        None => match synth(f.ty) {
                            Err(e) => Err(err_push_name(f.name, e)),
                            Ok(c) => Ok(
                                StructParts {
                                    props: p.props.push((k, c)),
                                    reqs: if f.required {
                                        p.reqs.push(k)
                                    } else {
                                        p.reqs
                                    },
                                    has_pass: p.has_pass,
                                    keys: p.keys.push(k),
                                    names: p.names.push(f.name),
                                },
                            ),
                        },
                    }
                }
            },
        }
    }
}

/// The schema of one tagged-union branch. A `Struct` payload stands for
/// the variant's own field set: its fields join the discriminator at the
/// same object level. Any other payload appears as the single property
/// named by the variant's payload field.
pub open spec fn synth_branch(disc: Seq<char>, v: UnionVariantV) -> Result<JsonV, ErrV>
    decreases v,
{
    match v.payload {
        ModelV::Struct { name, fields } => match struct_parts(
            seeded_parts(disc, v.tag),
            fields,
        ) {
            Err(e) => Err(e),
            Ok(p) => Ok(branch_schema(p)),
        },
        _ => {
            let k = apply_conv(v.payload_convention, v.payload_field);
            if k == disc {
                Err(
                    ErrV::NamingCollision {
                        path: Seq::empty(),
                        first: disc,
                        second: v.payload_field,
                    },
                )
            } else {
                match synth(v.payload) {
                    Err(e) => Err(e),
                    Ok(c) => Ok(
                        branch_schema(
                            StructParts {
                                props: seq![disc_prop(disc, v.tag)].push((k, c)),
                                reqs: seq![disc].push(k),
                                has_pass: false,
                                keys: seq![disc].push(k),
                                names: seq![disc].push(v.payload_field),
                            },
                        ),
                    ),
                }
            }
        },
    }
}

/// Walks a tagged union's variants in declared order, rejecting a
/// repeated tag and collecting one branch schema per variant.
pub open spec fn union_parts(disc: Seq<char>, vs: Seq<UnionVariantV>) -> Result<
    UnionParts,
    ErrV,
>
    decreases vs,
{
    if vs.len() == 0 {
        Ok(UnionParts { branches: Seq::empty(), tags: Seq::empty() })
    } else {
        match union_parts(disc, vs.drop_last()) {
            Err(e) => Err(e),
            Ok(p) => {
                let v = vs.last();
                if find_in(p.tags, v.tag) is Some {
                    Err(ErrV::DuplicateDiscriminatorTag { path: Seq::empty(), tag: v.tag })
                } else {
                    match synth_branch(disc, v) {
                        Err(e) => Err(err_push_name(v.tag, e)),
                        Ok(b) => Ok(
                            UnionParts {
                                branches: p.branches.push(b),
                                tags: p.tags.push(v.tag),
                            },
                        ),
                    }
                }
            },
        }
    }
}

/// What the synthesizer produces for model `m`: the lowering rules of
/// the schema language, applied recursively.
pub open spec fn synth(m: ModelV) -> Result<JsonV, ErrV>
    decreases m,
{
    match m {
        ModelV::Primitive(k) => Ok(prim_schema(k)),
        ModelV::Enum { name, variants } => Ok(enum_schema(variants)),
        ModelV::Struct { name, fields } => match struct_parts(empty_parts(), fields) {
            Err(e) => Err(e),
            Ok(p) => Ok(struct_schema(p)),
        },
        ModelV::List(es) => if es.len() == 1 {
            match synth(es[0]) {
                Err(e) => Err(e),
                Ok(c) => Ok(
                    JsonV::Obj(seq![("type"@, JsonV::Str("array"@)), ("items"@, c)]),
                ),
            }
        } else {
            Ok(JsonV::Null)
        },
        ModelV::Dict(es) => if es.len() == 1 {
            match synth(es[0]) {
                Err(e) => Err(e),
                Ok(c) => Ok(
                    JsonV::Obj(
                        seq![
                            ("type"@, JsonV::Str("object"@)),
                            ("additionalProperties"@, c),
                        ],
                    ),
                ),
            }
        } else {
            Ok(JsonV::Null)
        },
        ModelV::TaggedUnion { discriminator, variants } => match union_parts(
            discriminator,
            variants,
        ) {
            Err(e) => Err(e),
            Ok(p) => Ok(JsonV::Obj(seq![("oneOf"@, JsonV::Arr(p.branches))])),
        },
        ModelV::PassThrough => Ok(passthrough_schema()),
    }
}

/// A model node views to `PassThrough` or to `Struct` exactly when it is
/// that node.
pub proof fn lemma_mview_shape(t: TypeModel)
    ensures
        (mview(t) is PassThrough) <==> (t is PassThrough),
        (mview(t) is Struct) <==> (t is Struct),
{
    match t {
        TypeModel::Primitive(k) => {},
        TypeModel::Enum { name, variants } => {},
        TypeModel::Struct { name, fields } => {},
        TypeModel::List(b) => {},
        TypeModel::Dict(b) => {},
        TypeModel::TaggedUnion { discriminator, variants } => {},
        TypeModel::PassThrough => {},
    }
}

/// Once a prefix of the fields has failed, the whole walk fails the
/// same way.
pub proof fn lemma_struct_parts_prefix_err(init: StructParts, fs: Seq<FieldV>, i: int)
    requires
        0 <= i <= fs.len(),
        struct_parts(init, fs.take(i)) is Err,
    ensures
        struct_parts(init, fs) == struct_parts(init, fs.take(i)),
    decreases fs.len() - i,
{
    if i < fs.len() {
        assert(fs.take(i + 1).drop_last() =~= fs.take(i));
        assert(struct_parts(init, fs.take(i + 1)) == struct_parts(init, fs.take(i)));
        lemma_struct_parts_prefix_err(init, fs, i + 1);
    } else {
        assert(fs.take(i) =~= fs);
    }
}

/// Once a prefix of the variants has failed, the whole walk fails the
/// same way.
pub proof fn lemma_union_parts_prefix_err(disc: Seq<char>, vs: Seq<UnionVariantV>, i: int)
    requires
        0 <= i <= vs.len(),
        union_parts(disc, vs.take(i)) is Err,
    ensures
        union_parts(disc, vs) == union_parts(disc, vs.take(i)),
    decreases vs.len() - i,
{
    if i < vs.len() {
        assert(vs.take(i + 1).drop_last() =~= vs.take(i));
        assert(union_parts(disc, vs.take(i + 1)) == union_parts(disc, vs.take(i)));
        lemma_union_parts_prefix_err(disc, vs, i + 1);
    } else {
        assert(vs.take(i) =~= vs);
    }
}

fn find_in_exec(ks: &Vec<String>, k: &String) -> (r: Option<usize>)
    ensures
        match r {
            Some(i) => find_in(ks.deep_view(), k@) == Some(i as int),
            None => find_in(ks.deep_view(), k@) is None,
        },
{
    let mut i: usize = 0;
    while i < ks.len()
        invariant
            0 <= i <= ks@.len(),
            forall|j: int| 0 <= j < i ==> ks.deep_view()[j] != k@,
        decreases ks@.len() - i,
    {
        let cand = &ks[i];
        if cand.eq(k) {
            proof {
                lemma_find_in(ks.deep_view(), k@);
                let dv = ks.deep_view();
                assert(dv[i as int] == k@);
                match find_in(dv, k@) {
                    Some(ii) => {
                        if ii < i as int {
                            assert(dv[ii] != k@);
                        }
                        if ii > i as int {
                            assert(dv[i as int] != k@);
                        }
                    },
                    None => {
                        assert(dv[i as int] != k@);
                    },
                }
            }
            return Some(i);
        }
        i = i + 1;
    }
    proof {
        lemma_find_in(ks.deep_view(), k@);
    }
    None
}

pub(crate) fn jstr(x: &str) -> (r: Json)
    ensures
        r@ == JsonV::Str(x@),
{
    Json::Str(text(x))
}

pub(crate) fn obj1(k1: &str, v1: Json) -> (r: Json)
    ensures
        r@ == JsonV::Obj(seq![(k1@, v1@)]),
{
    let ghost g1 = jview(v1);
    let mut ps: Vec<(String, Json)> = Vec::new();
    ps.push((text(k1), v1));
    assert(jview_pairs(ps@) =~= seq![(k1@, g1)]);
    Json::Obj(ps)
}

pub(crate) fn obj2(k1: &str, v1: Json, k2: &str, v2: Json) -> (r: Json)
    ensures
        r@ == JsonV::Obj(seq![(k1@, v1@), (k2@, v2@)]),
{
    let ghost g1 = jview(v1);
    let ghost g2 = jview(v2);
    let mut ps: Vec<(String, Json)> = Vec::new();
    ps.push((text(k1), v1));
    ps.push((text(k2), v2));
    assert(jview_pairs(ps@) =~= seq![(k1@, g1), (k2@, g2)]);
    Json::Obj(ps)
}

fn passthrough_exec() -> (r: Json)
    ensures
        r@ == passthrough_schema(),
{
    obj1("x-kubernetes-preserve-unknown-fields", Json::Bool(true))
}

pub(crate) fn str_array(ks: &Vec<String>) -> (r: Json)
    ensures
        r@ == JsonV::Arr(str_arr(ks.deep_view())),
{
    let mut vals: Vec<Json> = Vec::new();
    let mut i: usize = 0;
    while i < ks.len()
        invariant
            0 <= i <= ks@.len(),
            vals@.len() == i,
            forall|j: int| 0 <= j < i ==> jview(vals@[j]) == JsonV::Str(ks.deep_view()[j]),
        decreases ks@.len() - i,
    {
        vals.push(Json::Str(ks[i].clone()));
        i = i + 1;
    }
    assert(jview_seq(vals@) =~= str_arr(ks.deep_view()));
    Json::Arr(vals)
}

/// The initial accumulator of a field walk: empty for a plain struct,
/// or holding the discriminator property for a tagged-union branch.
pub open spec fn init_of(seed: Option<(&String, &String)>) -> StructParts {
    match seed {
        Some((d, t)) => seeded_parts(d@, t@),
        None => empty_parts(),
    }
}

fn disc_prop_exec(disc: &String, tag: &String) -> (r: (String, Json))
    ensures
        (r.0@, r.1@) == disc_prop(disc@, tag@),
{
    let mut vals: Vec<Json> = Vec::new();
    vals.push(Json::Str(tag.clone()));
    assert(jview_seq(vals@) =~= seq![JsonV::Str(tag@)]);
    let schema = obj2("type", jstr("string"), "enum", Json::Arr(vals));
    (disc.clone(), schema)
}

fn build_struct_parts(fields: &Vec<FieldDef>, seed: Option<(&String, &String)>) -> (r:
    Result<(Vec<(String, Json)>, Vec<String>, bool), BuildError>)
    ensures
        match r {
            Ok(t) => struct_parts(init_of(seed), fview_seq(fields@)) matches Ok(p)
                && p.props == jview_pairs(t.0@) && p.reqs == t.1.deep_view()
                && p.has_pass == t.2,
            Err(e) => struct_parts(init_of(seed), fview_seq(fields@)) == Err::<
                StructParts,
                ErrV,
            >(e@),
        },
    decreases fields@,
{
    let ghost init = init_of(seed);
    let ghost fv = fview_seq(fields@);
    let mut props: Vec<(String, Json)> = Vec::new();
    let mut reqs: Vec<String> = Vec::new();
    let mut keys: Vec<String> = Vec::new();
    let mut names: Vec<String> = Vec::new();
    let mut has_pass: bool = false;
    match seed {
        Some((d, t)) => {
            let dp = disc_prop_exec(d, t);
            props.push(dp);
            reqs.push(d.clone());
            keys.push(d.clone());
            names.push(d.clone());
        },
        None => {},
    }
    assert(jview_pairs(props@) =~= init.props);
    assert(reqs.deep_view() =~= init.reqs);
    assert(keys.deep_view() =~= init.keys);
    assert(names.deep_view() =~= init.names);
    let mut i: usize = 0;
    while i < fields.len()
        invariant
            0 <= i <= fields@.len(),
            fv == fview_seq(fields@),
            fv.len() == fields@.len(),
            init == init_of(seed),
            names@.len() == keys@.len(),
            struct_parts(init, fv.take(i as int)) == Ok::<StructParts, ErrV>(
                StructParts {
                    props: jview_pairs(props@),
                    reqs: reqs.deep_view(),
                    has_pass: has_pass,
                    keys: keys.deep_view(),
                    names: names.deep_view(),
                },
            ),
        decreases fields@.len() - i,
    {
        let ghost prev = struct_parts(init, fv.take(i as int))->Ok_0;
        proof {
            assert(fv.take(i + 1).drop_last() =~= fv.take(i as int));
            assert(fv.take(i + 1).last() == fields@[i as int]@);
        }
        let f = &fields[i];
        proof {
            lemma_mview_shape(f.ty);
        }
        if matches!(&f.ty, TypeModel::PassThrough) {
            has_pass = true;
        } else {
            let key = apply_convention(&f.convention, f.name.as_str());
            match find_in_exec(&keys, &key) {
                Some(j) => {
                    proof {
                        lemma_find_in(keys.deep_view(), key@);
                        assert(key@ == field_key(fv[i as int]));
                    }
                    let empty_path: Vec<String> = Vec::new();
                    proof {
                        assert(empty_path.deep_view() =~= Seq::<Seq<char>>::empty());
                    }
                    let e = BuildError::NamingCollision {
                        path: empty_path,
                        first: names[j].clone(),
                        second: f.name.clone(),
                    };
                    proof {
                        assert(struct_parts(init, fv.take(i + 1)) == Err::<
                            StructParts,
                            ErrV,
                        >(e@));
                        lemma_struct_parts_prefix_err(init, fv, i + 1);
                    }
                    return Err(e);
                },
                None => {
                    proof {
                        assert(decreases_to!(fields@ => fields@[i as int]));
                    }
                    match synthesize(&f.ty) {
                        Err(e) => {
                            let e2 = err_in_field(f.name.as_str(), e);
                            proof {
                                assert(struct_parts(init, fv.take(i + 1)) == Err::<
                                    StructParts,
                                    ErrV,
                                >(e2@));
                                lemma_struct_parts_prefix_err(init, fv, i + 1);
                            }
                            return Err(e2);
                        },
                        Ok(c) => {
                            let ghost gc = jview(c);
                            props.push((key.clone(), c));
                            keys.push(key.clone());
                            names.push(f.name.clone());
                            if f.required {
                                reqs.push(key);
                            }
                            proof {
                                assert(jview_pairs(props@) =~= prev.props.push(
                                    (field_key(fv[i as int]), gc),
                                ));
                                assert(keys.deep_view() =~= prev.keys.push(
                                    field_key(fv[i as int]),
                                ));
                                assert(names.deep_view() =~= prev.names.push(
                                    fv[i as int].name,
                                ));
                                if fv[i as int].required {
                                    assert(reqs.deep_view() =~= prev.reqs.push(
                                        field_key(fv[i as int]),
                                    ));
                                } else {
                                    assert(reqs.deep_view() =~= prev.reqs);
                                }
                            }
                        },
                    }
                },
            }
        }
        i = i + 1;
        proof {
            assert(struct_parts(init, fv.take(i as int)) == Ok::<StructParts, ErrV>(
                StructParts {
                    props: jview_pairs(props@),
                    reqs: reqs.deep_view(),
                    has_pass: has_pass,
                    keys: keys.deep_view(),
                    names: names.deep_view(),
                },
            ));
        }
    }
    proof {
        assert(fv.take(fields@.len() as int) =~= fv);
    }
    Ok((props, reqs, has_pass))
}

fn finish_struct(props: Vec<(String, Json)>, reqs: Vec<String>, has_pass: bool) -> (r:
    Json)
    ensures
        r@ == struct_schema(
            StructParts {
                props: jview_pairs(props@),
                reqs: reqs.deep_view(),
                has_pass: has_pass,
                keys: Seq::empty(),
                names: Seq::empty(),
            },
        ),
{
    let ghost gprops = jview_pairs(props@);
    let ghost greqs = reqs.deep_view();
    if props.len() == 0 && has_pass {
        let r = passthrough_exec();
        return r;
    }
    let mut out: Vec<(String, Json)> = Vec::new();
    out.push((text("type"), jstr("object")));
    out.push((text("properties"), Json::Obj(props)));
    let has_reqs = reqs.len() > 0;
    if has_reqs {
        out.push((text("required"), str_array(&reqs)));
    }
    if has_pass {
        out.push((text("x-kubernetes-preserve-unknown-fields"), Json::Bool(true)));
    }
    let ghost target = struct_schema(
        StructParts {
            props: gprops,
            reqs: greqs,
            has_pass: has_pass,
            keys: Seq::empty(),
            names: Seq::empty(),
        },
    );
    proof {
        assert(target matches JsonV::Obj(ps) && jview_pairs(out@) =~= ps);
    }
    Json::Obj(out)
}

fn finish_branch(props: Vec<(String, Json)>, reqs: Vec<String>, has_pass: bool) -> (r:
    Json)
    ensures
        r@ == branch_schema(
            StructParts {
                props: jview_pairs(props@),
                reqs: reqs.deep_view(),
                has_pass: has_pass,
                keys: Seq::empty(),
                names: Seq::empty(),
            },
        ),
{
    let ghost gprops = jview_pairs(props@);
    let ghost greqs = reqs.deep_view();
    let mut out: Vec<(String, Json)> = Vec::new();
    out.push((text("type"), jstr("object")));
    out.push((text("properties"), Json::Obj(props)));
    out.push((text("required"), str_array(&reqs)));
    if has_pass {
        out.push((text("x-kubernetes-preserve-unknown-fields"), Json::Bool(true)));
    }
    let ghost target = branch_schema(
        StructParts {
            props: gprops,
            reqs: greqs,
            has_pass: has_pass,
            keys: Seq::empty(),
            names: Seq::empty(),
        },
    );
    proof {
        assert(target matches JsonV::Obj(ps) && jview_pairs(out@) =~= ps);
    }
    Json::Obj(out)
}

/// `branch_schema` and `struct_schema` read only the property, required
/// and pass-through components.
pub proof fn lemma_parts_schema_same(a: StructParts, b: StructParts)
    requires
        a.props == b.props,
        a.reqs == b.reqs,
        a.has_pass == b.has_pass,
    ensures
        struct_schema(a) == struct_schema(b),
        branch_schema(a) == branch_schema(b),
{
}

fn synth_branch_exec(disc: &String, v: &UnionVariant) -> (r: Result<Json, BuildError>)
    ensures
        res_view(r) == synth_branch(disc@, v@),
    decreases *v,
{
    proof {
        lemma_mview_shape(v.payload);
    }
    match &v.payload {
        TypeModel::Struct { name, fields } => {
            proof {
                assert(decreases_to!(*v => v.payload));
            }
            match build_struct_parts(fields, Some((disc, &v.tag))) {
                Err(e) => Err(e),
                Ok((props, reqs, has_pass)) => {
                    let ghost p = struct_parts(
                        seeded_parts(disc@, v.tag@),
                        fview_seq(fields@),
                    )->Ok_0;
                    let out = finish_branch(props, reqs, has_pass);
                    proof {
                        lemma_parts_schema_same(
                            p,
                            StructParts {
                                props: p.props,
                                reqs: p.reqs,
                                has_pass: p.has_pass,
                                keys: Seq::empty(),
                                names: Seq::empty(),
                            },
                        );
                    }
                    Ok(out)
                },
            }
        },
        _ => {
            let key = apply_convention(&v.payload_convention, v.payload_field.as_str());
            if key.eq(disc) {
                let empty_path: Vec<String> = Vec::new();
                proof {
                    assert(empty_path.deep_view() =~= Seq::<Seq<char>>::empty());
                }
                Err(
                    BuildError::NamingCollision {
                        path: empty_path,
                        first: disc.clone(),
                        second: v.payload_field.clone(),
                    },
                )
            } else {
                proof {
                    assert(decreases_to!(*v => v.payload));
                }
                match synthesize(&v.payload) {
                    Err(e) => Err(e),
                    Ok(c) => {
                        let ghost gc = jview(c);
                        let ghost gk = key@;
                        let mut props: Vec<(String, Json)> = Vec::new();
                        let dp = disc_prop_exec(disc, &v.tag);
                        props.push(dp);
                        props.push((key.clone(), c));
                        let mut reqs: Vec<String> = Vec::new();
                        reqs.push(disc.clone());
                        reqs.push(key);
                        proof {
                            assert(jview_pairs(props@) =~= seq![
                                disc_prop(disc@, v.tag@),
                            ].push((gk, gc)));
                            assert(reqs.deep_view() =~= seq![disc@].push(gk));
                        }
                        let out = finish_branch(props, reqs, false);
                        proof {
                            let target = StructParts {
                                props: seq![disc_prop(disc@, v.tag@)].push((gk, gc)),
                                reqs: seq![disc@].push(gk),
                                has_pass: false,
                                keys: seq![disc@].push(gk),
                                names: seq![disc@].push(v.payload_field@),
                            };
                            lemma_parts_schema_same(
                                target,
                                StructParts {
                                    props: target.props,
                                    reqs: target.reqs,
                                    has_pass: false,
                                    keys: Seq::empty(),
                                    names: Seq::empty(),
                                },
                            );
                        }
                        Ok(out)
                    },
                }
            }
        },
    }
}

/// Synthesizes the schema of `m`: returns exactly what [`synth`] states,
/// succeeding unless a naming collision or a duplicated discriminator
/// tag stops it.
pub fn synthesize(m: &TypeModel) -> (r: Result<Json, BuildError>)
    ensures
        res_view(r) == synth(m@),
    decreases *m,
{
    match m {
        TypeModel::Primitive(k) => {
            let j = match k {
                PrimitiveKind::Text => obj1("type", jstr("string")),
                PrimitiveKind::Integer => obj1("type", jstr("integer")),
                PrimitiveKind::Boolean => obj1("type", jstr("boolean")),
                PrimitiveKind::FreeForm => {
                    let ps: Vec<(String, Json)> = Vec::new();
                    Json::Obj(ps)
                },
            };
            Ok(j)
        },
        TypeModel::Enum { name, variants } => {
            let ghost gvs = variants@.map_values(|v: crate::model::VariantDef| vview(v));
            let mut vals: Vec<Json> = Vec::new();
            let mut i: usize = 0;
            while i < variants.len()
                invariant
                    0 <= i <= variants@.len(),
                    gvs == variants@.map_values(
                        |v: crate::model::VariantDef| vview(v),
                    ),
                    vals@.len() == i,
                    forall|j: int|
                        0 <= j < i ==> jview(vals@[j]) == enum_values(gvs)[j],
                decreases variants@.len() - i,
            {
                let v = &variants[i];
                vals.push(Json::Str(apply_convention(&v.convention, v.name.as_str())));
                i = i + 1;
            }
            assert(jview_seq(vals@) =~= enum_values(gvs));
            Ok(obj2("type", jstr("string"), "enum", Json::Arr(vals)))
        },
        TypeModel::Struct { name, fields } => {
            proof {
                assert(decreases_to!(*m => fields@));
            }
            match build_struct_parts(fields, None) {
                Err(e) => Err(e),
                Ok((props, reqs, has_pass)) => {
                    let ghost p = struct_parts(empty_parts(), fview_seq(fields@))->Ok_0;
                    let out = finish_struct(props, reqs, has_pass);
                    proof {
                        lemma_parts_schema_same(
                            p,
                            StructParts {
                                props: p.props,
                                reqs: p.reqs,
                                has_pass: p.has_pass,
                                keys: Seq::empty(),
                                names: Seq::empty(),
                            },
                        );
                    }
                    Ok(out)
                },
            }
        },
        TypeModel::List(b) => {
            proof {
                assert(decreases_to!(*m => *b));
            }
            match synthesize(&**b) {
                Err(e) => Err(e),
                Ok(c) => Ok(obj2("type", jstr("array"), "items", c)),
            }
        },
        TypeModel::Dict(b) => {
            proof {
                assert(decreases_to!(*m => *b));
            }
            match synthesize(&**b) {
                Err(e) => Err(e),
                Ok(c) => Ok(obj2("type", jstr("object"), "additionalProperties", c)),
            }
        },
        TypeModel::TaggedUnion { discriminator, variants } => {
            let ghost uv = uview_seq(variants@);
            let mut branches: Vec<Json> = Vec::new();
            let mut tags: Vec<String> = Vec::new();
            proof {
                assert(uv.take(0) =~= Seq::<UnionVariantV>::empty());
                assert(tags.deep_view() =~= Seq::<Seq<char>>::empty());
            }
            let mut i: usize = 0;
            while i < variants.len()
                invariant
                    0 <= i <= variants@.len(),
                    uv == uview_seq(variants@),
                    uv.len() == variants@.len(),
                    m@ == (ModelV::TaggedUnion {
                        discriminator: discriminator@,
                        variants: uv,
                    }),
                    decreases_to!(*m => variants@),
                    union_parts(discriminator@, uv.take(i as int)) == Ok::<
                        UnionParts,
                        ErrV,
                    >(
                        UnionParts {
                            branches: jview_seq(branches@),
                            tags: tags.deep_view(),
                        },
                    ),
                decreases variants@.len() - i,
            {
                let ghost prev = union_parts(discriminator@, uv.take(i as int))->Ok_0;
                proof {
                    assert(uv.take(i + 1).drop_last() =~= uv.take(i as int));
                    assert(uv.take(i + 1).last() == variants@[i as int]@);
                }
                let v = &variants[i];
                match find_in_exec(&tags, &v.tag) {
                    Some(_) => {
                        let empty_path: Vec<String> = Vec::new();
                        proof {
                            assert(empty_path.deep_view() =~= Seq::<Seq<char>>::empty());
                        }
                        let e = BuildError::DuplicateDiscriminatorTag {
                            path: empty_path,
                            tag: v.tag.clone(),
                        };
                        proof {
                            assert(union_parts(discriminator@, uv.take(i + 1)) == Err::<
                                UnionParts,
                                ErrV,
                            >(e@));
                            lemma_union_parts_prefix_err(discriminator@, uv, i + 1);
                        }
                        return Err(e);
                    },
                    None => {
                        proof {
                            assert(decreases_to!(variants@ => variants@[i as int]));
                        }
                        match synth_branch_exec(discriminator, v) {
                            Err(e) => {
                                let e2 = err_in_field(v.tag.as_str(), e);
                                proof {
                                    assert(union_parts(discriminator@, uv.take(i + 1))
                                        == Err::<UnionParts, ErrV>(e2@));
                                    lemma_union_parts_prefix_err(
                                        discriminator@,
                                        uv,
                                        i + 1,
                                    );
                                }
                                return Err(e2);
                            },
                            Ok(b) => {
                                let ghost gb = jview(b);
                                branches.push(b);
                                tags.push(v.tag.clone());
                                proof {
                                    assert(jview_seq(branches@) =~= prev.branches.push(
                                        gb,
                                    ));
                                    assert(tags.deep_view() =~= prev.tags.push(
                                        variants@[i as int].tag@,
                                    ));
                                }
                            },
                        }
                    },
                }
                i = i + 1;
            }
            proof {
                assert(uv.take(variants@.len() as int) =~= uv);
            }
            Ok(obj1("oneOf", Json::Arr(branches)))
        },
        TypeModel::PassThrough => Ok(passthrough_exec()),
    }
}

/// The key literals of the schema language are pairwise distinct.
pub proof fn lemma_key_literals_distinct()
    ensures
        "type"@ != "enum"@,
        "type"@ != "properties"@,
        "type"@ != "required"@,
        "type"@ != "x-kubernetes-preserve-unknown-fields"@,
        "properties"@ != "required"@,
        "properties"@ != "x-kubernetes-preserve-unknown-fields"@,
        "required"@ != "x-kubernetes-preserve-unknown-fields"@,
        "type"@ != "items"@,
        "type"@ != "additionalProperties"@,
        "properties"@ != "additionalProperties"@,
        "required"@ != "additionalProperties"@,
        "x-kubernetes-preserve-unknown-fields"@ != "additionalProperties"@,
        "enum"@ != "additionalProperties"@,
{
    reveal_strlit("type");
    reveal_strlit("enum");
    reveal_strlit("properties");
    reveal_strlit("required");
    reveal_strlit("x-kubernetes-preserve-unknown-fields");
    reveal_strlit("items");
    reveal_strlit("additionalProperties");
    assert("type"@.len() == 4);
    assert("enum"@.len() == 4);
    assert("properties"@.len() == 10);
    assert("required"@.len() == 8);
    assert("x-kubernetes-preserve-unknown-fields"@.len() == 36);
    assert("items"@.len() == 5);
    assert("additionalProperties"@.len() == 20);
    assert("type"@[0] == 't');
    assert("enum"@[0] == 'e');
}

/// An object whose keys are distinct and whose values are well formed
/// is well formed.
pub proof fn lemma_wf_flat_obj(ps: Seq<(Seq<char>, JsonV)>)
    requires
        distinct_keys(keys_of(ps)),
        wf_json_pairs(ps),
    ensures
        wf_json(JsonV::Obj(ps)),
{
}

/// Every element of a rendered string array is well formed.
pub proof fn lemma_wf_str_arr(ks: Seq<Seq<char>>)
    ensures
        wf_json_seq(str_arr(ks)),
        wf_json(JsonV::Arr(str_arr(ks))),
{
    assert forall|i: int| 0 <= i < str_arr(ks).len() implies wf_json(str_arr(ks)[i]) by {
        assert(str_arr(ks)[i] == JsonV::Str(ks[i]));
        assert(wf_json(JsonV::Str(ks[i])));
    }
    assert(wf_json_seq(str_arr(ks)));
}

/// The discriminator property's schema is well formed.
pub proof fn lemma_wf_disc_prop(disc: Seq<char>, tag: Seq<char>)
    ensures
        wf_json(disc_prop(disc, tag).1),
{
    lemma_key_literals_distinct();
    let ps = seq![
        ("type"@, JsonV::Str("string"@)),
        ("enum"@, JsonV::Arr(seq![JsonV::Str(tag)])),
    ];
    assert(keys_of(ps) =~= seq!["type"@, "enum"@]);
    assert(distinct_keys(keys_of(ps)));
    assert(wf_json(JsonV::Str("string"@)));
    assert(wf_json(JsonV::Str(tag)));
    assert(wf_json_seq(seq![JsonV::Str(tag)]));
    assert(wf_json(JsonV::Arr(seq![JsonV::Str(tag)])));
    assert(wf_json_pairs(ps));
    lemma_wf_flat_obj(ps);
}

/// The pass-through schema is well formed.
pub proof fn lemma_wf_passthrough()
    ensures
        wf_json(passthrough_schema()),
{
    let ps = seq![("x-kubernetes-preserve-unknown-fields"@, JsonV::Bool(true))];
    assert(keys_of(ps) =~= seq!["x-kubernetes-preserve-unknown-fields"@]);
    assert(distinct_keys(keys_of(ps)));
    assert(wf_json(JsonV::Bool(true)));
    assert(wf_json_pairs(ps));
    lemma_wf_flat_obj(ps);
}

/// A struct schema (or branch schema) built from well-formed parts with
/// distinct property keys is well formed.
pub proof fn lemma_wf_parts_schema(p: StructParts)
    requires
        distinct_keys(keys_of(p.props)),
        wf_json_pairs(p.props),
    ensures
        wf_json(struct_schema(p)),
        wf_json(branch_schema(p)),
{
    lemma_key_literals_distinct();
    lemma_wf_passthrough();
    lemma_wf_str_arr(p.reqs);
    lemma_wf_flat_obj(p.props);
    let base = seq![
        ("type"@, JsonV::Str("object"@)),
        ("properties"@, JsonV::Obj(p.props)),
    ];
    let reqpart: Seq<(Seq<char>, JsonV)> = if p.reqs.len() > 0 {
        seq![("required"@, JsonV::Arr(str_arr(p.reqs)))]
    } else {
        Seq::empty()
    };
    let passpart: Seq<(Seq<char>, JsonV)> = if p.has_pass {
        seq![("x-kubernetes-preserve-unknown-fields"@, JsonV::Bool(true))]
    } else {
        Seq::empty()
    };
    assert(wf_json(JsonV::Str("object"@)));
    assert(wf_json(JsonV::Bool(true)));
    let all = base + reqpart + passpart;
    assert forall|i: int, j: int| 0 <= i < j < keys_of(all).len() implies keys_of(all)[i]
        != keys_of(all)[j] by {
        assert(keys_of(all)[i] == all[i].0);
        assert(keys_of(all)[j] == all[j].0);
    }
    assert(distinct_keys(keys_of(all)));
    assert forall|i: int| 0 <= i < all.len() implies wf_json(all[i].1) by {}
    assert(wf_json_pairs(all));
    lemma_wf_flat_obj(all);
    let brall = seq![
        ("type"@, JsonV::Str("object"@)),
        ("properties"@, JsonV::Obj(p.props)),
        ("required"@, JsonV::Arr(str_arr(p.reqs))),
    ] + passpart;
    assert forall|i: int, j: int| 0 <= i < j < keys_of(brall).len() implies keys_of(
        brall,
    )[i] != keys_of(brall)[j] by {
        assert(keys_of(brall)[i] == brall[i].0);
        assert(keys_of(brall)[j] == brall[j].0);
    }
    assert(distinct_keys(keys_of(brall)));
    assert forall|i: int| 0 <= i < brall.len() implies wf_json(brall[i].1) by {}
    assert(wf_json_pairs(brall));
    lemma_wf_flat_obj(brall);
}

/// A successful field walk keeps its reserved keys aligned with its
/// properties, the keys distinct, and every property schema well formed.
pub proof fn lemma_struct_parts_wf(init: StructParts, fs: Seq<FieldV>)
    requires
        keys_of(init.props) == init.keys,
        distinct_keys(init.keys),
        wf_json_pairs(init.props),
    ensures
        struct_parts(init, fs) matches Ok(p) ==> keys_of(p.props) == p.keys
            && distinct_keys(p.keys) && wf_json_pairs(p.props),
    decreases fs,
{
    if fs.len() > 0 {
        lemma_struct_parts_wf(init, fs.drop_last());
        match struct_parts(init, fs.drop_last()) {
            Ok(p) => {
                let f = fs.last();
                if !(f.ty is PassThrough) {
                    let k = field_key(f);
                    match find_in(p.keys, k) {
                        Some(_) => {},
                        None => {
                            lemma_find_in(p.keys, k);
                            lemma_synth_wf(f.ty);
                            match synth(f.ty) {
                                Ok(c) => {
                                    assert(keys_of(p.props.push((k, c))) =~= p.keys.push(
                                        k,
                                    ));
                                    assert(distinct_keys(p.keys.push(k)));
                                    assert(wf_json_pairs(p.props.push((k, c))));
                                },
                                Err(_) => {},
                            }
                        },
                    }
                }
            },
            Err(_) => {},
        }
    }
}

/// A successful branch synthesis yields a well-formed branch schema.
pub proof fn lemma_synth_branch_wf(disc: Seq<char>, v: UnionVariantV)
    ensures
        synth_branch(disc, v) matches Ok(b) ==> wf_json(b),
    decreases v,
{
    lemma_wf_disc_prop(disc, v.tag);
    match v.payload {
        ModelV::Struct { name, fields } => {
            let init = seeded_parts(disc, v.tag);
            assert(keys_of(init.props) =~= init.keys);
            assert(distinct_keys(init.keys));
            assert(wf_json_pairs(init.props));
            lemma_struct_parts_wf(init, fields);
            match struct_parts(init, fields) {
                Ok(p) => {
                    lemma_wf_parts_schema(p);
                },
                Err(_) => {},
            }
        },
        _ => {
            let k = apply_conv(v.payload_convention, v.payload_field);
            if k != disc {
                lemma_synth_wf(v.payload);
                match synth(v.payload) {
                    Ok(c) => {
                        let p = StructParts {
                            props: seq![disc_prop(disc, v.tag)].push((k, c)),
                            reqs: seq![disc].push(k),
                            has_pass: false,
                            keys: seq![disc].push(k),
                            names: seq![disc].push(v.payload_field),
                        };
                        assert(keys_of(p.props) =~= seq![disc, k]);
                        assert(distinct_keys(keys_of(p.props)));
                        assert(wf_json_pairs(p.props));
                        lemma_wf_parts_schema(p);
                    },
                    Err(_) => {},
                }
            }
        },
    }
}

/// A successful union walk yields well-formed branch schemas.
pub proof fn lemma_union_parts_wf(disc: Seq<char>, vs: Seq<UnionVariantV>)
    ensures
        union_parts(disc, vs) matches Ok(p) ==> wf_json_seq(p.branches),
    decreases vs,
{
    if vs.len() > 0 {
        lemma_union_parts_wf(disc, vs.drop_last());
        match union_parts(disc, vs.drop_last()) {
            Ok(p) => {
                lemma_synth_branch_wf(disc, vs.last());
            },
            Err(_) => {},
        }
    }
}

/// Whatever model it is given, the synthesizer's schema is well formed:
/// every object level of it has pairwise distinct keys.
pub proof fn lemma_synth_wf(m: ModelV)
    ensures
        synth(m) matches Ok(j) ==> wf_json(j),
    decreases m,
{
    lemma_key_literals_distinct();
    match m {
        ModelV::Primitive(k) => {
            assert(wf_json(JsonV::Str("string"@)));
            assert(wf_json(JsonV::Str("integer"@)));
            assert(wf_json(JsonV::Str("boolean"@)));
            match k {
                PrimitiveKind::Text => {
                    let ps = seq![("type"@, JsonV::Str("string"@))];
                    assert(keys_of(ps) =~= seq!["type"@]);
                    assert(wf_json_pairs(ps));
                    lemma_wf_flat_obj(ps);
                },
                PrimitiveKind::Integer => {
                    let ps = seq![("type"@, JsonV::Str("integer"@))];
                    assert(keys_of(ps) =~= seq!["type"@]);
                    assert(wf_json_pairs(ps));
                    lemma_wf_flat_obj(ps);
                },
                PrimitiveKind::Boolean => {
                    let ps = seq![("type"@, JsonV::Str("boolean"@))];
                    assert(keys_of(ps) =~= seq!["type"@]);
                    assert(wf_json_pairs(ps));
                    lemma_wf_flat_obj(ps);
                },
                PrimitiveKind::FreeForm => {
                    let ps = Seq::<(Seq<char>, JsonV)>::empty();
                    assert(keys_of(ps) =~= Seq::<Seq<char>>::empty());
                    assert(wf_json_pairs(ps));
                    lemma_wf_flat_obj(ps);
                },
            }
        },
        ModelV::Enum { name, variants } => {
            assert forall|i: int| 0 <= i < enum_values(variants).len() implies wf_json(
                enum_values(variants)[i],
            ) by {
                assert(enum_values(variants)[i] == JsonV::Str(
                    apply_conv(variants[i].convention, variants[i].name),
                ));
                assert(wf_json(JsonV::Str(apply_conv(variants[i].convention, variants[i].name))));
            }
            assert(wf_json_seq(enum_values(variants)));
            assert(wf_json(JsonV::Arr(enum_values(variants))));
            assert(wf_json(JsonV::Str("string"@)));
            let ps = seq![
                ("type"@, JsonV::Str("string"@)),
                ("enum"@, JsonV::Arr(enum_values(variants))),
            ];
            assert(keys_of(ps) =~= seq!["type"@, "enum"@]);
            assert(distinct_keys(keys_of(ps)));
            assert(wf_json_pairs(ps));
            lemma_wf_flat_obj(ps);
        },
        ModelV::Struct { name, fields } => {
            let init = empty_parts();
            assert(keys_of(init.props) =~= init.keys);
            assert(distinct_keys(init.keys));
            assert(wf_json_pairs(init.props));
            lemma_struct_parts_wf(init, fields);
            match struct_parts(init, fields) {
                Ok(p) => {
                    lemma_wf_parts_schema(p);
                },
                Err(_) => {},
            }
        },
        ModelV::List(es) => {
            if es.len() == 1 {
                lemma_synth_wf(es[0]);
                match synth(es[0]) {
                    Ok(c) => {
                        let ps = seq![("type"@, JsonV::Str("array"@)), ("items"@, c)];
                        assert(keys_of(ps) =~= seq!["type"@, "items"@]);
                        assert(distinct_keys(keys_of(ps)));
                        assert(wf_json(JsonV::Str("array"@)));
                        assert(wf_json_pairs(ps));
                        lemma_wf_flat_obj(ps);
                    },
                    Err(_) => {},
                }
            } else {
                assert(wf_json(JsonV::Null));
            }
        },
        ModelV::Dict(es) => {
            if es.len() == 1 {
                lemma_synth_wf(es[0]);
                match synth(es[0]) {
                    Ok(c) => {
                        let ps = seq![
                            ("type"@, JsonV::Str("object"@)),
                            ("additionalProperties"@, c),
                        ];
                        assert(keys_of(ps) =~= seq!["type"@, "additionalProperties"@]);
                        assert(distinct_keys(keys_of(ps)));
                        assert(wf_json(JsonV::Str("object"@)));
                        assert(wf_json_pairs(ps));
                        lemma_wf_flat_obj(ps);
                    },
                    Err(_) => {},
                }
            } else {
                assert(wf_json(JsonV::Null));
            }
        },
        ModelV::TaggedUnion { discriminator, variants } => {
            lemma_union_parts_wf(discriminator, variants);
            match union_parts(discriminator, variants) {
                Ok(p) => {
                    let ps = seq![("oneOf"@, JsonV::Arr(p.branches))];
                    assert(keys_of(ps) =~= seq!["oneOf"@]);
                    assert(wf_json(JsonV::Arr(p.branches)));
                    assert(wf_json_pairs(ps));
                    lemma_wf_flat_obj(ps);
                },
                Err(_) => {},
            }
        },
        ModelV::PassThrough => {
            lemma_wf_passthrough();
        },
    }
}

} // verus!
