//! The stated properties of the synthesizer, proved for every model.
use vstd::prelude::*;

use crate::errors::ErrV;
use crate::json::JsonV;
use crate::json::distinct_keys;
use crate::json::keys_of;
use crate::json::obj_get;
use crate::json::wf_json_pairs;
use crate::model::FieldV;
use crate::model::ModelV;
use crate::model::UnionVariantV;
use crate::model::VariantV;
use crate::naming::apply_conv;
use crate::synth::StructParts;
use crate::synth::disc_prop;
use crate::synth::empty_parts;
use crate::synth::enum_values;
use crate::synth::field_key;
use crate::synth::find_in;
use crate::synth::lemma_find_in;
use crate::synth::lemma_key_literals_distinct;
use crate::synth::lemma_struct_parts_wf;
use crate::synth::seeded_parts;
use crate::synth::str_arr;
use crate::synth::struct_parts;
use crate::synth::struct_schema;
use crate::synth::synth;
use crate::synth::synth_branch;
use crate::synth::union_parts;

verus! {

broadcast use
    vstd::string::group_string_axioms,
    vstd::seq::axiom_seq_index_decreases;

/// Determinism: the synthesizer's outcome is a mathematical function of
/// the model alone, so synthesizing the same model twice yields the same
/// document — and, since the rendered text is a function of the
/// document, byte-identical output.
pub proof fn lemma_synthesis_deterministic(
    m: ModelV,
    r1: Result<JsonV, ErrV>,
    r2: Result<JsonV, ErrV>,
)
    requires
        r1 == synth(m),
        r2 == synth(m),
    ensures
        r1 == r2,
{
}

/// `obj_get` finds the first entry holding the key.
pub proof fn lemma_obj_get_at(ps: Seq<(Seq<char>, JsonV)>, k: Seq<char>, i: int)
    requires
        0 <= i < ps.len(),
        ps[i].0 == k,
        forall|j: int| 0 <= j < i ==> ps[j].0 != k,
    ensures
        obj_get(ps, k) == Some(ps[i].1),
    decreases i,
{
    if i > 0 {
        assert(forall|j: int| 0 <= j < ps.drop_first().len() ==> ps.drop_first()[j]
            == ps[j + 1]);
        lemma_obj_get_at(ps.drop_first(), k, i - 1);
    }
}

/// `obj_get` finds nothing when no entry holds the key.
pub proof fn lemma_obj_get_none(ps: Seq<(Seq<char>, JsonV)>, k: Seq<char>)
    requires
        forall|j: int| 0 <= j < ps.len() ==> ps[j].0 != k,
    ensures
        obj_get(ps, k) is None,
    decreases ps,
{
    if ps.len() > 0 {
        assert(forall|j: int| 0 <= j < ps.drop_first().len() ==> ps.drop_first()[j]
            == ps[j + 1]);
        lemma_obj_get_none(ps.drop_first(), k);
    }
}

/// The fields that become properties: everything but pass-through
/// markers.
pub open spec fn normal_fields(fs: Seq<FieldV>) -> Seq<FieldV> {
    fs.filter(|f: FieldV| !(f.ty is PassThrough))
}

/// The serialized keys of the property fields, in declaration order.
pub open spec fn normal_keys(fs: Seq<FieldV>) -> Seq<Seq<char>> {
    normal_fields(fs).map_values(|f: FieldV| field_key(f))
}

/// The serialized keys of the required property fields, in declaration
/// order.
pub open spec fn required_keys(fs: Seq<FieldV>) -> Seq<Seq<char>> {
    fs.filter(|f: FieldV| f.required && !(f.ty is PassThrough)).map_values(
        |f: FieldV| field_key(f),
    )
}

pub open spec fn has_passthrough(fs: Seq<FieldV>) -> bool {
    exists|i: int| 0 <= i < fs.len() && fs[i].ty is PassThrough
}

/// What a successful field walk accumulates: the keys and required keys
/// of the property fields in order, the pass-through flag, and the
/// initial properties untouched in front.
pub proof fn lemma_parts_accumulate(init: StructParts, fs: Seq<FieldV>)
    ensures
        struct_parts(init, fs) matches Ok(p) ==> {
            &&& p.keys == init.keys + normal_keys(fs)
            &&& p.reqs == init.reqs + required_keys(fs)
            &&& p.has_pass == (init.has_pass || has_passthrough(fs))
            &&& p.props.len() == init.props.len() + normal_keys(fs).len()
            &&& p.reqs.len() == init.reqs.len() + required_keys(fs).len()
            &&& forall|i: int| 0 <= i < init.props.len() ==> p.props[i] == init.props[i]
        },
    decreases fs,
{
    reveal(Seq::filter);
    if fs.len() == 0 {
        assert(normal_keys(fs) =~= Seq::<Seq<char>>::empty());
        assert(required_keys(fs) =~= Seq::<Seq<char>>::empty());
        assert(init.keys + normal_keys(fs) =~= init.keys);
        assert(init.reqs + required_keys(fs) =~= init.reqs);
        assert(!has_passthrough(fs));
    } else {
        lemma_parts_accumulate(init, fs.drop_last());
        let dl = fs.drop_last();
        let f = fs.last();
        assert(has_passthrough(fs) == (has_passthrough(dl) || f.ty is PassThrough)) by {
            if has_passthrough(dl) {
                let i = choose|i: int| 0 <= i < dl.len() && dl[i].ty is PassThrough;
                assert(fs[i] == dl[i]);
            }
            if f.ty is PassThrough {
                assert(fs[fs.len() - 1].ty is PassThrough);
            }
            if has_passthrough(fs) {
                let i = choose|i: int| 0 <= i < fs.len() && fs[i].ty is PassThrough;
                if i < fs.len() - 1 {
                    assert(dl[i] == fs[i]);
                }
            }
        }
        if f.ty is PassThrough {
            assert(normal_fields(fs) == normal_fields(dl));
            assert(fs.filter(|g: FieldV| g.required && !(g.ty is PassThrough))
                == dl.filter(|g: FieldV| g.required && !(g.ty is PassThrough)));
        } else {
            assert(normal_fields(fs) == normal_fields(dl).push(f));
            assert(normal_keys(fs) =~= normal_keys(dl).push(field_key(f)));
            assert(init.keys + normal_keys(fs) =~= (init.keys + normal_keys(dl)).push(
                field_key(f),
            ));
            if f.required {
                assert(fs.filter(|g: FieldV| g.required && !(g.ty is PassThrough))
                    == dl.filter(|g: FieldV| g.required && !(g.ty is PassThrough)).push(
                    f,
                ));
                assert(required_keys(fs) =~= required_keys(dl).push(field_key(f)));
                assert(init.reqs + required_keys(fs) =~= (init.reqs + required_keys(
                    dl,
                )).push(field_key(f)));
            } else {
                assert(fs.filter(|g: FieldV| g.required && !(g.ty is PassThrough))
                    == dl.filter(|g: FieldV| g.required && !(g.ty is PassThrough)));
            }
        }
    }
}

/// Required keys are never more numerous than property keys.
pub proof fn lemma_required_sub_normal(fs: Seq<FieldV>)
    ensures
        required_keys(fs).len() <= normal_keys(fs).len(),
    decreases fs,
{
    reveal(Seq::filter);
    if fs.len() > 0 {
        lemma_required_sub_normal(fs.drop_last());
    }
}

/// Required-set correctness: a successfully synthesized struct schema
/// lists as required exactly the serialized keys of its required
/// fields, in declaration order — and lists nothing when no field is
/// required.
pub proof fn lemma_required_set(name: Seq<char>, fs: Seq<FieldV>)
    ensures
        synth(ModelV::Struct { name, fields: fs }) matches Ok(j) ==> {
            let req = required_keys(fs);
            &&& (req.len() > 0 ==> (j matches JsonV::Obj(ps) && obj_get(ps, "required"@)
                == Some(JsonV::Arr(str_arr(req)))))
            &&& (req.len() == 0 && !(normal_keys(fs).len() == 0 && has_passthrough(fs))
                ==> (j matches JsonV::Obj(ps) && obj_get(ps, "required"@) is None))
        },
{
    lemma_key_literals_distinct();
    lemma_parts_accumulate(empty_parts(), fs);
    lemma_required_sub_normal(fs);
    match struct_parts(empty_parts(), fs) {
        Ok(p) => {
            assert(Seq::<Seq<char>>::empty() + required_keys(fs) =~= required_keys(fs));
            assert(Seq::<Seq<char>>::empty() + normal_keys(fs) =~= normal_keys(fs));
            let j = struct_schema(p);
            if p.props.len() == 0 && p.has_pass {
                assert(required_keys(fs).len() == 0);
                assert(normal_keys(fs).len() == 0 && has_passthrough(fs));
            } else {
                let base = seq![
                    ("type"@, JsonV::Str("object"@)),
                    ("properties"@, JsonV::Obj(p.props)),
                ];
                let reqpart: Seq<(Seq<char>, JsonV)> = if p.reqs.len() > 0 {
                    seq![("required"@, JsonV::Arr(str_arr(p.reqs)))]
                } else {
                    Seq::empty()
                };
                let passpart: Seq<(Seq<char>, JsonV)> = if p.has_pass {
                    seq![
                        ("x-kubernetes-preserve-unknown-fields"@, JsonV::Bool(true)),
                    ]
                } else {
                    Seq::empty()
                };
                let all = base + reqpart + passpart;
                if p.reqs.len() > 0 {
                    lemma_obj_get_at(all, "required"@, 2);
                } else {
                    lemma_obj_get_none(all, "required"@);
                }
            }
        },
        Err(_) => {},
    }
}

/// Enum closure: an enum model always synthesizes; its schema allows a
/// string exactly when it is the serialized name of one of the variants,
/// and lists the allowed values in declaration order.
pub proof fn lemma_enum_closure(name: Seq<char>, vs: Seq<VariantV>)
    ensures
        synth(ModelV::Enum { name, variants: vs }) matches Ok(j) && j matches JsonV::Obj(
            ps,
        ) && obj_get(ps, "enum"@) == Some(JsonV::Arr(enum_values(vs))) && obj_get(
            ps,
            "type"@,
        ) == Some(JsonV::Str("string"@)),
        enum_values(vs).len() == vs.len(),
        forall|i: int|
            0 <= i < vs.len() ==> enum_values(vs)[i] == JsonV::Str(
                apply_conv(vs[i].convention, vs[i].name),
            ),
        forall|x: JsonV|
            #[trigger] enum_values(vs).contains(x) <==> exists|i: int|
                0 <= i < vs.len() && x == JsonV::Str(
                    apply_conv(vs[i].convention, vs[i].name),
                ),
{
    lemma_key_literals_distinct();
    let ps = seq![
        ("type"@, JsonV::Str("string"@)),
        ("enum"@, JsonV::Arr(enum_values(vs))),
    ];
    lemma_obj_get_at(ps, "type"@, 0);
    lemma_obj_get_at(ps, "enum"@, 1);
    assert forall|x: JsonV| #[trigger] enum_values(vs).contains(x) implies exists|i: int|
        0 <= i < vs.len() && x == JsonV::Str(
            apply_conv(vs[i].convention, vs[i].name),
        ) by {
        let i = choose|i: int| 0 <= i < enum_values(vs).len() && enum_values(vs)[i] == x;
        assert(x == JsonV::Str(apply_conv(vs[i].convention, vs[i].name)));
    }
    assert forall|x: JsonV|
        (exists|i: int|
            0 <= i < vs.len() && x == JsonV::Str(
                apply_conv(vs[i].convention, vs[i].name),
            )) implies #[trigger] enum_values(vs).contains(x) by {
        let i = choose|i: int|
            0 <= i < vs.len() && x == JsonV::Str(apply_conv(vs[i].convention, vs[i].name));
        assert(enum_values(vs)[i] == x);
    }
}

/// Tagged-union exhaustiveness: a successful union walk yields exactly
/// one branch per variant; the branch tags follow the variants in order
/// and are pairwise distinct.
pub proof fn lemma_union_exhaustive(disc: Seq<char>, vs: Seq<UnionVariantV>)
    ensures
        union_parts(disc, vs) matches Ok(p) ==> {
            &&& p.branches.len() == vs.len()
            &&& p.tags.len() == vs.len()
            &&& (forall|i: int| 0 <= i < vs.len() ==> p.tags[i] == vs[i].tag)
            &&& distinct_keys(p.tags)
            &&& (forall|i: int|
                0 <= i < vs.len() ==> synth_branch(disc, vs[i]) == Ok::<JsonV, ErrV>(
                    p.branches[i],
                ))
        },
    decreases vs,
{
    if vs.len() > 0 {
        lemma_union_exhaustive(disc, vs.drop_last());
        match union_parts(disc, vs.drop_last()) {
            Ok(p) => {
                let v = vs.last();
                lemma_find_in(p.tags, v.tag);
                assert(forall|i: int| 0 <= i < vs.len() - 1 ==> vs.drop_last()[i]
                    == vs[i]);
            },
            Err(_) => {},
        }
    }
}

/// Every successful branch is an object whose properties begin with the
/// discriminator constrained to the branch's tag, and whose required
/// list begins with the discriminator. When the variant's payload is a
/// struct, the branch's property keys are exactly the discriminator
/// followed by the payload's serialized field keys, in declaration
/// order.
pub proof fn lemma_branch_shape(disc: Seq<char>, v: UnionVariantV)
    ensures
        synth_branch(disc, v) matches Ok(b) ==> (b matches JsonV::Obj(bs)
            && (obj_get(bs, "properties"@) matches Some(pp) && (pp matches JsonV::Obj(
            pps,
        ) && pps.len() > 0 && pps[0] == disc_prop(disc, v.tag))) && (obj_get(
            bs,
            "required"@,
        ) matches Some(rq) && (rq matches JsonV::Arr(rs) && rs.len() > 0 && rs[0]
            == JsonV::Str(disc)))),
        synth_branch(disc, v) matches Ok(b) ==> (v.payload matches ModelV::Struct {
            name: pname,
            fields,
        } ==> (b matches JsonV::Obj(bs) && (obj_get(bs, "properties"@) matches Some(pp)
            && (pp matches JsonV::Obj(pps) && keys_of(pps) == seq![disc] + normal_keys(
            fields,
        ))))),
{
    lemma_key_literals_distinct();
    match v.payload {
        ModelV::Struct { name, fields } => {
            lemma_parts_accumulate(seeded_parts(disc, v.tag), fields);
            assert(keys_of(seeded_parts(disc, v.tag).props) =~= seeded_parts(
                disc,
                v.tag,
            ).keys);
            assert(wf_json_pairs(seeded_parts(disc, v.tag).props)) by {
                crate::synth::lemma_wf_disc_prop(disc, v.tag);
                crate::json::lemma_wf_json_pairs(seeded_parts(disc, v.tag).props);
                assert(seeded_parts(disc, v.tag).props[0] == disc_prop(disc, v.tag));
            }
            lemma_struct_parts_wf(seeded_parts(disc, v.tag), fields);
            match struct_parts(seeded_parts(disc, v.tag), fields) {
                Ok(p) => {
                    assert(p.props[0] == disc_prop(disc, v.tag));
                    assert(p.reqs.len() >= 1);
                    assert(p.reqs == seq![disc] + required_keys(fields));
                    assert(p.reqs[0] == disc);
                    assert(str_arr(p.reqs)[0] == JsonV::Str(disc));
                    let passpart: Seq<(Seq<char>, JsonV)> = if p.has_pass {
                        seq![
                            ("x-kubernetes-preserve-unknown-fields"@, JsonV::Bool(true)),
                        ]
                    } else {
                        Seq::empty()
                    };
                    let bs = seq![
                        ("type"@, JsonV::Str("object"@)),
                        ("properties"@, JsonV::Obj(p.props)),
                        ("required"@, JsonV::Arr(str_arr(p.reqs))),
                    ] + passpart;
                    lemma_obj_get_at(bs, "properties"@, 1);
                    lemma_obj_get_at(bs, "required"@, 2);
                },
                Err(_) => {},
            }
        },
        _ => {
            let k = apply_conv(v.payload_convention, v.payload_field);
            if k != disc {
                match synth(v.payload) {
                    Ok(c) => {
                        let p = StructParts {
                            props: seq![disc_prop(disc, v.tag)].push((k, c)),
                            reqs: seq![disc].push(k),
                            has_pass: false,
                            keys: seq![disc].push(k),
                            names: seq![disc].push(v.payload_field),
                        };
                        let bs = seq![
                            ("type"@, JsonV::Str("object"@)),
                            ("properties"@, JsonV::Obj(p.props)),
                            ("required"@, JsonV::Arr(str_arr(p.reqs))),
                        ] + Seq::<(Seq<char>, JsonV)>::empty();
                        lemma_obj_get_at(bs, "properties"@, 1);
                        lemma_obj_get_at(bs, "required"@, 2);
                        assert(str_arr(p.reqs)[0] == JsonV::Str(disc));
                    },
                    Err(_) => {},
                }
            }
        },
    }
}

/// Pass-through propagation: when a struct holds a pass-through marker
/// and synthesizes, its schema carries the preserve-unknown-fields
/// extension set to true and constrains no additional properties.
pub proof fn lemma_passthrough_propagation(name: Seq<char>, fs: Seq<FieldV>)
    ensures
        synth(ModelV::Struct { name, fields: fs }) matches Ok(j) ==> has_passthrough(fs)
            ==> (j matches JsonV::Obj(ps) && obj_get(
            ps,
            "x-kubernetes-preserve-unknown-fields"@,
        ) == Some(JsonV::Bool(true)) && obj_get(ps, "additionalProperties"@) is None),
{
    lemma_key_literals_distinct();
    lemma_parts_accumulate(empty_parts(), fs);
    match struct_parts(empty_parts(), fs) {
        Ok(p) => {
            if has_passthrough(fs) {
                if p.props.len() == 0 && p.has_pass {
                    let ps = seq![
                        ("x-kubernetes-preserve-unknown-fields"@, JsonV::Bool(true)),
                    ];
                    lemma_obj_get_at(ps, "x-kubernetes-preserve-unknown-fields"@, 0);
                    lemma_obj_get_none(ps, "additionalProperties"@);
                } else {
                    let base = seq![
                        ("type"@, JsonV::Str("object"@)),
                        ("properties"@, JsonV::Obj(p.props)),
                    ];
                    let reqpart: Seq<(Seq<char>, JsonV)> = if p.reqs.len() > 0 {
                        seq![("required"@, JsonV::Arr(str_arr(p.reqs)))]
                    } else {
                        Seq::empty()
                    };
                    let flagpart = seq![
                        ("x-kubernetes-preserve-unknown-fields"@, JsonV::Bool(true)),
                    ];
                    let all = base + reqpart + flagpart;
                    lemma_obj_get_at(
                        all,
                        "x-kubernetes-preserve-unknown-fields"@,
                        all.len() - 1,
                    );
                    lemma_obj_get_none(all, "additionalProperties"@);
                }
            }
        },
        Err(_) => {},
    }
}

/// On a field walk whose fields all synthesize on their own, the only
/// possible failure is a naming collision.
pub proof fn lemma_err_is_collision(init: StructParts, fs: Seq<FieldV>)
    requires
        forall|i: int| 0 <= i < fs.len() ==> synth(#[trigger] fs[i].ty) is Ok,
    ensures
        struct_parts(init, fs) matches Err(e) ==> e is NamingCollision,
    decreases fs,
{
    if fs.len() > 0 {
        assert(forall|i: int| 0 <= i < fs.len() - 1 ==> fs.drop_last()[i] == fs[i]);
        lemma_err_is_collision(init, fs.drop_last());
        assert(fs[fs.len() - 1] == fs.last());
    }
}

/// Collision detection: when two property fields of one struct map to
/// the same serialized key, and every field's own schema synthesizes,
/// the struct's synthesis fails with a naming collision.
pub proof fn lemma_collision_detected(name: Seq<char>, fs: Seq<FieldV>)
    requires
        exists|i: int, j: int|
            0 <= i < j < normal_keys(fs).len() && normal_keys(fs)[i] == normal_keys(
                fs,
            )[j],
        forall|i: int| 0 <= i < fs.len() ==> synth(#[trigger] fs[i].ty) is Ok,
    ensures
        synth(ModelV::Struct { name, fields: fs }) matches Err(e) && e is NamingCollision,
{
    lemma_parts_accumulate(empty_parts(), fs);
    assert(crate::json::keys_of(empty_parts().props) =~= empty_parts().keys);
    assert(crate::json::wf_json_pairs(empty_parts().props));
    lemma_struct_parts_wf(empty_parts(), fs);
    match struct_parts(empty_parts(), fs) {
        Ok(p) => {
            assert(Seq::<Seq<char>>::empty() + normal_keys(fs) =~= normal_keys(fs));
            let (i, j) = choose|i: int, j: int|
                0 <= i < j < normal_keys(fs).len() && normal_keys(fs)[i] == normal_keys(
                    fs,
                )[j];
            assert(p.keys[i] == p.keys[j]);
            assert(false);
        },
        Err(_) => {
            lemma_err_is_collision(empty_parts(), fs);
        },
    }
}

} // verus!
