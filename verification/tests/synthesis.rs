use crdgen::errors::BuildError;
use crdgen::json::Json;
use crdgen::model::PrimitiveKind;
use crdgen::model::TypeModel;
use crdgen::model::UnionVariant;
use crdgen::model::enum_model;
use crdgen::model::fd_camel;
use crdgen::model::list_of;
use crdgen::model::dict_of;
use crdgen::model::struct_model;
use crdgen::model::text;
use crdgen::model::union_model;
use crdgen::model::uv_struct;
use crdgen::model::vd_lower;
use crdgen::model::vd_pascal;
use crdgen::model::vd_renamed;
use crdgen::model::vd_verbatim;
use crdgen::naming::NamingConvention;
use crdgen::naming::apply_convention;
use crdgen::synth::synthesize;

fn get<'a>(j: &'a Json, key: &str) -> &'a Json {
    match j {
        Json::Obj(ps) => {
            for (k, v) in ps {
                if k == key {
                    return v;
                }
            }
            panic!("key {} not found", key);
        }
        _ => panic!("not an object"),
    }
}

fn has_key(j: &Json, key: &str) -> bool {
    match j {
        Json::Obj(ps) => ps.iter().any(|(k, _)| k == key),
        _ => false,
    }
}

fn jstr(s: &str) -> Json {
    Json::Str(text(s))
}

fn text_model() -> TypeModel {
    TypeModel::Primitive(PrimitiveKind::Text)
}

#[test]
fn camel_case_convention() {
    assert_eq!(
        apply_convention(&NamingConvention::CamelCase, "alert_property"),
        "alertProperty"
    );
    assert_eq!(apply_convention(&NamingConvention::CamelCase, "foo_bar"), "fooBar");
    assert_eq!(apply_convention(&NamingConvention::CamelCase, "fooBar"), "fooBar");
    assert_eq!(apply_convention(&NamingConvention::CamelCase, "content"), "content");
}

#[test]
fn pascal_case_convention() {
    assert_eq!(apply_convention(&NamingConvention::PascalCase, "foo_bar"), "FooBar");
    assert_eq!(apply_convention(&NamingConvention::PascalCase, "High"), "High");
}

#[test]
fn lowercase_convention() {
    assert_eq!(apply_convention(&NamingConvention::Lowercase, "Shared"), "shared");
    assert_eq!(apply_convention(&NamingConvention::Lowercase, "MiXed_01"), "mixed_01");
}

#[test]
fn rename_convention_bypasses_identifier() {
    assert_eq!(
        apply_convention(&NamingConvention::Rename(text("buildrlabs.io/v1")), "BuildrLabs"),
        "buildrlabs.io/v1"
    );
}

#[test]
fn synthesis_is_deterministic() {
    let mk = || {
        let fields = vec![
            fd_camel("display_name", text_model(), true),
            fd_camel("enabled", TypeModel::Primitive(PrimitiveKind::Boolean), false),
            fd_camel("tags", list_of(text_model()), false),
        ];
        struct_model("Sample", fields)
    };
    let a = synthesize(&mk()).unwrap();
    let b = synthesize(&mk()).unwrap();
    assert_eq!(a, b);
}

#[test]
fn primitive_schemas() {
    let s = synthesize(&TypeModel::Primitive(PrimitiveKind::Text)).unwrap();
    assert_eq!(s, Json::Obj(vec![(text("type"), jstr("string"))]));
    let i = synthesize(&TypeModel::Primitive(PrimitiveKind::Integer)).unwrap();
    assert_eq!(i, Json::Obj(vec![(text("type"), jstr("integer"))]));
    let b = synthesize(&TypeModel::Primitive(PrimitiveKind::Boolean)).unwrap();
    assert_eq!(b, Json::Obj(vec![(text("type"), jstr("boolean"))]));
    let f = synthesize(&TypeModel::Primitive(PrimitiveKind::FreeForm)).unwrap();
    assert_eq!(f, Json::Obj(vec![]));
}

#[test]
fn required_set_exact() {
    let fields = vec![
        fd_camel("first_key", text_model(), true),
        fd_camel("second_key", text_model(), false),
    ];
    let s = synthesize(&struct_model("Pair", fields)).unwrap();
    let req = get(&s, "required");
    assert_eq!(req, &Json::Arr(vec![jstr("firstKey")]));
    let props = get(&s, "properties");
    assert!(has_key(props, "firstKey"));
    assert!(has_key(props, "secondKey"));
}

#[test]
fn required_absent_when_no_field_required() {
    let fields = vec![fd_camel("only_key", text_model(), false)];
    let s = synthesize(&struct_model("Single", fields)).unwrap();
    assert!(!has_key(&s, "required"));
}

#[test]
fn enum_closure_exact() {
    let variants = vec![vd_pascal("Alpha"), vd_pascal("Beta"), vd_pascal("Gamma")];
    let s = synthesize(&enum_model("Letters", variants)).unwrap();
    assert_eq!(
        s,
        Json::Obj(vec![
            (text("type"), jstr("string")),
            (text("enum"), Json::Arr(vec![jstr("Alpha"), jstr("Beta"), jstr("Gamma")])),
        ])
    );
}

#[test]
fn enum_variant_conventions() {
    let variants = vec![
        vd_lower("Shared"),
        vd_verbatim("AsIs"),
        vd_renamed("NoneIdentity", "None"),
    ];
    let s = synthesize(&enum_model("Mixed", variants)).unwrap();
    let vals = get(&s, "enum");
    assert_eq!(vals, &Json::Arr(vec![jstr("shared"), jstr("AsIs"), jstr("None")]));
}

#[test]
fn tagged_union_exhaustive() {
    let variants = vec![
        uv_struct(
            "First",
            struct_model("FirstVariant", vec![fd_camel("first_payload", text_model(), true)]),
        ),
        uv_struct(
            "Second",
            struct_model(
                "SecondVariant",
                vec![
                    fd_camel("second_payload", text_model(), true),
                    fd_camel("order", TypeModel::Primitive(PrimitiveKind::Integer), true),
                ],
            ),
        ),
    ];
    let s = synthesize(&union_model("kindOf", variants)).unwrap();
    let branches = match get(&s, "oneOf") {
        Json::Arr(bs) => bs,
        _ => panic!("oneOf is not an array"),
    };
    assert_eq!(branches.len(), 2);
    let mut tags = Vec::new();
    for b in branches {
        let props = get(b, "properties");
        let disc = get(props, "kindOf");
        match get(disc, "enum") {
            Json::Arr(vals) => {
                assert_eq!(vals.len(), 1);
                match &vals[0] {
                    Json::Str(t) => tags.push(t.clone()),
                    _ => panic!("tag is not a string"),
                }
            }
            _ => panic!("discriminator carries no enum"),
        }
    }
    assert_eq!(tags, vec![text("First"), text("Second")]);
    // the payload fields stand beside the discriminator
    let first_props = get(&branches[0], "properties");
    assert!(has_key(first_props, "firstPayload"));
    let second_props = get(&branches[1], "properties");
    assert!(has_key(second_props, "secondPayload"));
    assert!(has_key(second_props, "order"));
}

#[test]
fn duplicate_union_tag_rejected() {
    let variants = vec![
        uv_struct("Same", struct_model("A", vec![fd_camel("a", text_model(), true)])),
        uv_struct("Same", struct_model("B", vec![fd_camel("b", text_model(), true)])),
    ];
    let r = synthesize(&union_model("t", variants));
    assert_eq!(
        r,
        Err(BuildError::DuplicateDiscriminatorTag { path: vec![], tag: text("Same") })
    );
}

#[test]
fn passthrough_marker_opens_struct() {
    let fields = vec![
        fd_camel("known_field", text_model(), true),
        fd_camel("additional_fields", TypeModel::PassThrough, false),
    ];
    let s = synthesize(&struct_model("Open", fields)).unwrap();
    assert_eq!(
        get(&s, "x-kubernetes-preserve-unknown-fields"),
        &Json::Bool(true)
    );
    assert!(!has_key(&s, "additionalProperties"));
    assert!(has_key(get(&s, "properties"), "knownField"));
}

#[test]
fn passthrough_only_struct_is_fully_open() {
    let fields = vec![fd_camel("additional_fields", TypeModel::PassThrough, false)];
    let s = synthesize(&struct_model("AllOpen", fields)).unwrap();
    assert_eq!(
        s,
        Json::Obj(vec![(text("x-kubernetes-preserve-unknown-fields"), Json::Bool(true))])
    );
}

#[test]
fn naming_collision_detected() {
    let fields = vec![
        fd_camel("foo_bar", text_model(), true),
        fd_camel("fooBar", text_model(), false),
    ];
    let r = synthesize(&struct_model("Colliding", fields));
    assert_eq!(
        r,
        Err(BuildError::NamingCollision {
            path: vec![],
            first: text("foo_bar"),
            second: text("fooBar"),
        })
    );
}

#[test]
fn naming_collision_carries_field_path() {
    let inner = struct_model(
        "Inner",
        vec![
            fd_camel("foo_bar", text_model(), true),
            fd_camel("fooBar", text_model(), false),
        ],
    );
    let middle = struct_model("Middle", vec![fd_camel("grouping_configuration", inner, true)]);
    let outer = struct_model("Outer", vec![fd_camel("incident_configuration", middle, true)]);
    let r = synthesize(&outer);
    let e = r.unwrap_err();
    assert_eq!(
        e,
        BuildError::NamingCollision {
            path: vec![text("incident_configuration"), text("grouping_configuration")],
            first: text("foo_bar"),
            second: text("fooBar"),
        }
    );
    assert_eq!(
        e.describe(),
        "naming collision between `foo_bar` and `fooBar` at `incident_configuration.grouping_configuration`"
    );
}

#[test]
fn list_and_map_schemas() {
    let l = synthesize(&list_of(text_model())).unwrap();
    assert_eq!(
        l,
        Json::Obj(vec![
            (text("type"), jstr("array")),
            (text("items"), Json::Obj(vec![(text("type"), jstr("string"))])),
        ])
    );
    let m = synthesize(&dict_of(TypeModel::Primitive(PrimitiveKind::Integer))).unwrap();
    assert_eq!(
        m,
        Json::Obj(vec![
            (text("type"), jstr("object")),
            (text("additionalProperties"), Json::Obj(vec![(text("type"), jstr("integer"))])),
        ])
    );
}

#[test]
fn collision_against_union_discriminator() {
    let variants = vec![UnionVariant {
        tag: text("Only"),
        payload_field: text("kind_of"),
        payload_convention: NamingConvention::CamelCase,
        payload: TypeModel::Primitive(PrimitiveKind::Text),
    }];
    let r = synthesize(&union_model("kindOf", variants));
    assert_eq!(
        r,
        Err(BuildError::NamingCollision {
            path: vec![text("Only")],
            first: text("kindOf"),
            second: text("kind_of"),
        })
    );
}

#[test]
fn error_reports_are_exact() {
    let dup = BuildError::DuplicateDiscriminatorTag { path: vec![text("actions")], tag: text("Same") };
    assert_eq!(dup.describe(), "duplicate discriminator tag `Same` at `actions`");
    let short = BuildError::DuplicateShortName { name: text("msm") };
    assert_eq!(short.describe(), "duplicate short name `msm`");
    let invalid = BuildError::InvalidShortName { name: text("Xyz") };
    assert_eq!(
        invalid.describe(),
        "short name must be lowercase and non-empty, got `Xyz`"
    );
    let write = BuildError::ArtifactWrite { message: text("sink closed") };
    assert_eq!(write.describe(), "artifact could not be written: sink closed");
}
