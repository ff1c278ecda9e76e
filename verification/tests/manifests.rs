use crdgen::crd::CrdDescriptor;
use crdgen::crd::PrinterColumn;
use crdgen::crd::assemble;
use crdgen::emit::render_json_pretty;
use crdgen::emit::render_yaml;
use crdgen::errors::BuildError;
use crdgen::example_crd_template;
use crdgen::json::Json;
use crdgen::microsoft_sentinel_analytic_rule;
use crdgen::microsoft_sentinel_automation_rule;
use crdgen::microsoft_sentinel_macro;
use crdgen::microsoft_sentinel_workbook;
use crdgen::model::PrimitiveKind;
use crdgen::model::TypeModel;
use crdgen::model::fd_camel;
use crdgen::model::struct_model;
use crdgen::model::text;
use crdgen::pipeline::crd_yaml_artifact;
use crdgen::synth::synthesize;

fn example_descriptor() -> CrdDescriptor {
    CrdDescriptor {
        group: text("example.io"),
        version: text("v1"),
        kind: text("Example"),
        plural: text("examples"),
        singular: text("example"),
        namespaced: true,
        short_names: vec![text("x")],
        printer_columns: vec![],
        status_subresource: false,
    }
}

fn example_spec_model() -> TypeModel {
    struct_model(
        "ExampleSpec",
        vec![fd_camel("content", TypeModel::Primitive(PrimitiveKind::Text), true)],
    )
}

#[test]
fn end_to_end_manifest() {
    let d = example_descriptor();
    let m = example_spec_model();
    let art = crd_yaml_artifact("Example", &d, &m, None).unwrap();
    assert_eq!(art.group, text("crds"));
    assert_eq!(art.name, text("Example"));
    let doc: serde_yaml::Value = serde_yaml::from_str(&art.contents).unwrap();
    assert_eq!(doc["apiVersion"], serde_yaml::Value::String("apiextensions.k8s.io/v1".into()));
    assert_eq!(doc["kind"], serde_yaml::Value::String("CustomResourceDefinition".into()));
    assert_eq!(doc["metadata"]["name"], serde_yaml::Value::String("examples.example.io".into()));
    assert_eq!(doc["spec"]["group"], serde_yaml::Value::String("example.io".into()));
    assert_eq!(doc["spec"]["names"]["kind"], serde_yaml::Value::String("Example".into()));
    let sn = &doc["spec"]["names"]["shortNames"];
    assert_eq!(
        sn,
        &serde_yaml::Value::Sequence(vec![serde_yaml::Value::String("x".into())])
    );
    let version = &doc["spec"]["versions"][0];
    assert_eq!(version["name"], serde_yaml::Value::String("v1".into()));
    assert_eq!(version["served"], serde_yaml::Value::Bool(true));
    assert_eq!(version["storage"], serde_yaml::Value::Bool(true));
    let root = &version["schema"]["openAPIV3Schema"];
    assert_eq!(root["required"][0], serde_yaml::Value::String("spec".into()));
    let content = &root["properties"]["spec"]["properties"]["content"];
    assert_eq!(content["type"], serde_yaml::Value::String("string".into()));
    assert_eq!(
        root["properties"]["spec"]["required"][0],
        serde_yaml::Value::String("content".into())
    );
}

#[test]
fn duplicate_short_name_rejected() {
    let mut d = example_descriptor();
    d.short_names = vec![text("x"), text("x")];
    let r = assemble(&d, Json::Obj(vec![]), None);
    assert_eq!(r, Err(BuildError::DuplicateShortName { name: text("x") }));
}

#[test]
fn invalid_short_name_rejected() {
    let mut d = example_descriptor();
    d.short_names = vec![text("Xyz")];
    let r = assemble(&d, Json::Obj(vec![]), None);
    assert_eq!(r, Err(BuildError::InvalidShortName { name: text("Xyz") }));
    d.short_names = vec![text("")];
    let r2 = assemble(&d, Json::Obj(vec![]), None);
    assert_eq!(r2, Err(BuildError::InvalidShortName { name: text("") }));
}

#[test]
fn yaml_rendering_exact() {
    let doc = Json::Obj(vec![
        (text("alpha"), Json::Bool(true)),
        (text("beta"), Json::Str(text("two"))),
        (text("gamma"), Json::Int(7)),
    ]);
    let s = render_yaml(&doc).unwrap();
    assert_eq!(s, "alpha: true\nbeta: two\ngamma: 7\n");
}

#[test]
fn json_rendering_exact() {
    let doc = Json::Obj(vec![
        (text("alpha"), Json::Bool(true)),
        (text("items"), Json::Arr(vec![Json::Int(1), Json::Int(2)])),
    ]);
    let s = render_json_pretty(&doc).unwrap();
    assert_eq!(s, "{\n  \"alpha\": true,\n  \"items\": [\n    1,\n    2\n  ]\n}");
}

#[test]
fn rendering_keeps_declaration_order() {
    let doc = Json::Obj(vec![
        (text("zeta"), Json::Bool(false)),
        (text("alpha"), Json::Bool(true)),
    ]);
    let s = render_yaml(&doc).unwrap();
    assert_eq!(s, "zeta: false\nalpha: true\n");
}

#[test]
fn scheduled_default_kind() {
    assert_eq!(microsoft_sentinel_analytic_rule::scheduled(), "Scheduled");
}

#[test]
fn analytic_rule_artifacts_produced() {
    let arts = microsoft_sentinel_analytic_rule::artifacts().unwrap();
    assert_eq!(arts.len(), 2);
    assert_eq!(arts[0].group, text("crds"));
    assert_eq!(arts[0].name, text("MicrosoftSentinelAnalyticRule"));
    assert!(arts[0].contents.contains("kind: CustomResourceDefinition"));
    assert!(arts[0].contents.contains("name: microsoftsentinelanalyticrules.buildrlabs.io"));
    assert!(arts[0].contents.contains("msanalyticrule"));
    assert!(arts[0].contents.contains("triggerThreshold"));
    assert!(arts[0].contents.contains("rule_type"));
    assert_eq!(arts[1].group, text("jsonschema"));
    assert_eq!(arts[1].name, text("MicrosoftSentinelAnalyticRuleCRD"));
    assert!(arts[1].contents.contains("\"apiVersion\""));
    assert!(arts[1].contents.contains("buildrlabs.io/v1"));
}

#[test]
fn automation_rule_artifacts_produced() {
    let arts = microsoft_sentinel_automation_rule::artifacts().unwrap();
    assert_eq!(arts.len(), 3);
    // the manifest publishes a pass-through spec
    assert!(arts[0].contents.contains("x-kubernetes-preserve-unknown-fields: true"));
    assert!(arts[0].contents.contains("subresources"));
    // the standalone spec schema lists the tagged union's branches
    assert_eq!(arts[1].name, text("MicrosoftSentinelAutomationRule"));
    assert!(arts[1].contents.contains("\"oneOf\""));
    assert!(arts[1].contents.contains("\"conditionType\""));
    assert!(arts[1].contents.contains("\"actionType\""));
    assert!(arts[1].contents.contains("\"RunPlaybook\""));
    assert_eq!(arts[2].name, text("MicrosoftSentinelAutomationRuleCRD"));
}

#[test]
fn nested_conditions_are_described_one_level_down() {
    let s = synthesize(&microsoft_sentinel_automation_rule::condition_model()).unwrap();
    // the first branch is the boolean condition; its inner conditions are
    // themselves a fully described union, not free-form values
    let yaml = render_yaml(&s).unwrap();
    let doc: serde_yaml::Value = serde_yaml::from_str(&yaml).unwrap();
    let boolean_branch = &doc["oneOf"][0];
    let inner = &boolean_branch["properties"]["conditionProperties"]["properties"]["innerConditions"];
    assert_eq!(inner["type"], serde_yaml::Value::String("array".into()));
    assert!(inner["items"]["oneOf"].is_sequence());
    assert_eq!(inner["items"]["oneOf"].as_sequence().unwrap().len(), 5);
}

#[test]
fn workbook_artifacts_produced() {
    let arts = microsoft_sentinel_workbook::artifacts().unwrap();
    assert_eq!(arts.len(), 3);
    assert_eq!(arts[0].name, text("MicrosoftSentinelWorkbook"));
    assert!(arts[0].contents.contains("msw"));
    // the explicit spec schema keeps verbatim keys and renamed variants
    assert!(arts[1].contents.contains("\"serialized_data\"") == false);
    assert!(arts[1].contents.contains("serializedData"));
    assert!(arts[1].contents.contains("SystemAssigned,UserAssigned"));
    assert!(arts[1].contents.contains("\"None\""));
    assert!(arts[1].contents.contains("\"shared\""));
}

#[test]
fn macro_artifacts_produced() {
    let arts = microsoft_sentinel_macro::artifacts().unwrap();
    assert_eq!(arts.len(), 2);
    assert!(arts[0].contents.contains("name: microsoftsentinelmacros.buildrlabs.io"));
    assert!(arts[0].contents.contains("msm"));
    assert!(!arts[0].contents.contains("subresources"));
    assert!(arts[1].contents.contains("\"content\""));
}

#[test]
fn example_template_artifacts_produced() {
    let arts = example_crd_template::artifacts().unwrap();
    assert_eq!(arts.len(), 1);
    assert!(arts[0].contents.contains("kind: ExampleCrd"));
    assert!(arts[0].contents.contains("msmacro"));
}

#[test]
fn generation_is_isolated_per_resource() {
    // resource A: an invalid definition fails on its own
    let bad = struct_model(
        "Broken",
        vec![
            fd_camel("foo_bar", TypeModel::Primitive(PrimitiveKind::Text), true),
            fd_camel("fooBar", TypeModel::Primitive(PrimitiveKind::Text), true),
        ],
    );
    let d = example_descriptor();
    let a = crd_yaml_artifact("Broken", &d, &bad, None);
    assert!(a.is_err());
    // resource B: an unrelated valid definition is still produced
    let b = microsoft_sentinel_macro::artifacts().unwrap();
    assert_eq!(b.len(), 2);
}

#[test]
fn artifacts_are_byte_identical_across_runs() {
    let a = microsoft_sentinel_workbook::artifacts().unwrap();
    let b = microsoft_sentinel_workbook::artifacts().unwrap();
    assert_eq!(a, b);
}

#[test]
fn printer_columns_in_declared_order() {
    let d = CrdDescriptor {
        group: text("example.io"),
        version: text("v1"),
        kind: text("Example"),
        plural: text("examples"),
        singular: text("example"),
        namespaced: true,
        short_names: vec![],
        printer_columns: vec![
            PrinterColumn {
                name: text("Second"),
                col_type: text("string"),
                description: text("later column"),
                json_path: text(".status.b"),
            },
            PrinterColumn {
                name: text("First"),
                col_type: text("string"),
                description: text("earlier column"),
                json_path: text(".status.a"),
            },
        ],
        status_subresource: false,
    };
    let m = example_spec_model();
    let spec_schema = synthesize(&m).unwrap();
    let man = assemble(&d, spec_schema, None).unwrap();
    let yaml = render_yaml(&man).unwrap();
    let doc: serde_yaml::Value = serde_yaml::from_str(&yaml).unwrap();
    let cols = &doc["spec"]["versions"][0]["additionalPrinterColumns"];
    assert_eq!(cols[0]["name"], serde_yaml::Value::String("Second".into()));
    assert_eq!(cols[1]["name"], serde_yaml::Value::String("First".into()));
    assert_eq!(cols[1]["jsonPath"], serde_yaml::Value::String(".status.a".into()));
}
