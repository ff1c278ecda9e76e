//! A template resource: the smallest complete definition, kept as a
//! worked example of the model, descriptor and artifact conventions.
use vstd::prelude::*;

use crate::crd::CrdDescriptor;
use crate::crd::DescV;
use crate::crd::PrinterColumn;
use crate::crd::PrinterColumnV;
use crate::errors::BuildError;
use crate::errors::ErrV;
use crate::json::JsonV;
use crate::model::FieldDef;
use crate::model::FieldV;
use crate::model::ModelV;
use crate::model::PrimitiveKind;
use crate::model::TypeModel;
use crate::model::VariantDef;
use crate::model::VariantV;
use crate::model::enum_model;
use crate::model::fd_camel;
use crate::model::fd_verbatim;
use crate::model::fview_seq;
use crate::model::struct_model;
use crate::model::text;
use crate::model::vd_pascal;
use crate::model::vview;
use crate::naming::ConvV;
use crate::pipeline::Artifact;
use crate::pipeline::ArtifactV;
use crate::pipeline::crd_doc;
use crate::pipeline::crd_yaml_artifact;
use crate::emit::yaml_renders;
use crate::emit::yaml_text;

verus! {

broadcast use
    vstd::seq::axiom_seq_index_decreases,
    vstd::std_specs::vec::axiom_vec_index_decreases,
    vstd::std_specs::vec::axiom_vec_decreases_to_view,
    crate::model::lemma_fview_seq,
    crate::model::lemma_uview_seq;

/// An example of a closed string set; serialized names use PascalCase.
#[derive(Debug, Clone, Copy, PartialEq, Eq)]
pub enum ExampleEnum {
    Sample,
}

pub open spec fn example_enum_model_v() -> ModelV {
    ModelV::Enum {
        name: "ExampleEnum"@,
        variants: seq![VariantV { name: "Sample"@, convention: ConvV::Pascal }],
    }
}


pub fn example_enum_model() -> (r: TypeModel)
    ensures
        r@ == example_enum_model_v(),
{
    let mut vs: Vec<VariantDef> = Vec::new();
    vs.push(vd_pascal("Sample"));
    let ghost gv = vs@;
    let r = enum_model("ExampleEnum", vs);
    proof {
        assert(gv.map_values(|v: VariantDef| vview(v)) =~= seq![
            VariantV { name: "Sample"@, convention: ConvV::Pascal },
        ]);
        assert(r@ == example_enum_model_v());
    }
    r
}

pub open spec fn example_crd_spec_model_v() -> ModelV {
    ModelV::Struct {
        name: "ExampleCrdSpec"@,
        fields: seq![
            FieldV { name: "content"@, convention: ConvV::Camel, ty: ModelV::Primitive(PrimitiveKind::Text), required: true },
        ],
    }
}


pub fn example_crd_spec_model() -> (r: TypeModel)
    ensures
        r@ == example_crd_spec_model_v(),
{
    let mut fs: Vec<FieldDef> = Vec::new();
    fs.push(fd_camel("content", TypeModel::Primitive(PrimitiveKind::Text), true));
    let ghost gf = fs@;
    let r = struct_model("ExampleCrdSpec", fs);
    proof {
        assert(fview_seq(gf) =~= seq![
            FieldV { name: "content"@, convention: ConvV::Camel, ty: ModelV::Primitive(PrimitiveKind::Text), required: true },
        ]);
        assert(r@ == example_crd_spec_model_v());
    }
    r
}

pub open spec fn example_crd_status_model_v() -> ModelV {
    ModelV::Struct {
        name: "ExampleCrdStatus"@,
        fields: seq![
            FieldV { name: "message"@, convention: ConvV::Rename("message"@), ty: ModelV::Primitive(PrimitiveKind::Text), required: true },
        ],
    }
}


pub fn example_crd_status_model() -> (r: TypeModel)
    ensures
        r@ == example_crd_status_model_v(),
{
    let mut fs: Vec<FieldDef> = Vec::new();
    fs.push(fd_verbatim("message", TypeModel::Primitive(PrimitiveKind::Text), true));
    let ghost gf = fs@;
    let r = struct_model("ExampleCrdStatus", fs);
    proof {
        assert(fview_seq(gf) =~= seq![
            FieldV { name: "message"@, convention: ConvV::Rename("message"@), ty: ModelV::Primitive(PrimitiveKind::Text), required: true },
        ]);
        assert(r@ == example_crd_status_model_v());
    }
    r
}

pub open spec fn example_crd_descriptor_v() -> DescV {
    DescV {
        group: "buildrlabs.io"@,
        version: "v1"@,
        kind: "ExampleCrd"@,
        plural: "examplecrds"@,
        singular: "examplecrd"@,
        namespaced: true,
        short_names: seq!["msmacro"@, "msmacros"@],
        printer_columns: seq![
            PrinterColumnV { name: "Message"@, col_type: "string"@, description: "Additional information about the deployment status"@, json_path: ".status.create_analytic_rule.message"@ },
        ],
        status_subresource: true,
    }
}

pub fn example_crd_descriptor() -> (r: CrdDescriptor)
    ensures
        r@ == example_crd_descriptor_v(),
{
    let mut sn: Vec<String> = Vec::new();
    sn.push(text("msmacro"));
    sn.push(text("msmacros"));
    let mut pc: Vec<PrinterColumn> = Vec::new();
    pc.push(PrinterColumn {
        name: text("Message"),
        col_type: text("string"),
        description: text("Additional information about the deployment status"),
        json_path: text(".status.create_analytic_rule.message"),
    });
    let ghost gs = sn@;
    let ghost gp = pc@;
    let r = CrdDescriptor {
        group: text("buildrlabs.io"),
        version: text("v1"),
        kind: text("ExampleCrd"),
        plural: text("examplecrds"),
        singular: text("examplecrd"),
        namespaced: true,
        short_names: sn,
        printer_columns: pc,
        status_subresource: true,
    };
    proof {
        assert(r@.short_names =~= example_crd_descriptor_v().short_names);
        assert(r@.printer_columns =~= example_crd_descriptor_v().printer_columns);
        assert(r@ == example_crd_descriptor_v());
    }
    r
}

/// This resource's finished artifacts, in a fixed order. Each artifact
/// is produced independently; the first failure is reported.
pub fn artifacts() -> (r: Result<Vec<Artifact>, BuildError>)
    ensures
        r matches Ok(arts) ==> {
            &&& arts@.len() == 1
            &&& (crd_doc(example_crd_descriptor_v(), example_crd_spec_model_v(), Some(example_crd_status_model_v())) matches Ok(man)
                && arts@[0]@ == (ArtifactV {
                group: "crds"@,
                name: "ExampleCrd"@,
                contents: yaml_text(man),
            }))
        },
        ({
            let doc = crd_doc(example_crd_descriptor_v(), example_crd_spec_model_v(), Some(example_crd_status_model_v()));
            &&& (({
                &&& doc matches Ok(man)
                &&& yaml_renders(man)
                
            }) ==> r is Ok)
            &&& (r matches Err(e) ==> {
                ||| doc == Err::<JsonV, ErrV>(e@)
                ||| (doc matches Ok(man) && !yaml_renders(man) && e@ is ArtifactWrite)
                
            })
        }),
{
    let d0 = example_crd_descriptor();
    let sm0 = example_crd_spec_model();
    let st0 = example_crd_status_model();
    let a0 = match crd_yaml_artifact("ExampleCrd", &d0, &sm0, Some(&st0)) {
        Ok(a) => a,
        Err(e) => {
            return Err(e);
        },
    };
    let mut out: Vec<Artifact> = Vec::new();
    out.push(a0);
    Ok(out)
}

} // verus!
