//! The Microsoft Sentinel macro resource: a single free-text content
//! field, published as a CRD manifest and a standalone JSON Schema.
use vstd::prelude::*;

use crate::crd::CrdDescriptor;
use crate::crd::DescV;
use crate::crd::PrinterColumn;
use crate::errors::BuildError;
use crate::errors::ErrV;
use crate::json::JsonV;
use crate::model::FieldDef;
use crate::model::FieldV;
use crate::model::ModelV;
use crate::model::PrimitiveKind;
use crate::model::TypeModel;
use crate::model::VariantDef;
use crate::model::VariantV;
use crate::model::enum_model;
use crate::model::fd_camel;
use crate::model::fview_seq;
use crate::model::struct_model;
use crate::model::text;
use crate::model::vd_renamed;
use crate::model::vd_verbatim;
use crate::model::vview;
use crate::naming::ConvV;
use crate::pipeline::Artifact;
use crate::pipeline::ArtifactV;
use crate::pipeline::crd_doc;
use crate::pipeline::crd_yaml_artifact;
use crate::pipeline::schema_json_artifact;
use crate::synth::synth;
use crate::emit::json_pretty_text;
use crate::emit::json_renders;
use crate::emit::yaml_renders;
use crate::emit::yaml_text;

verus! {

broadcast use
    vstd::seq::axiom_seq_index_decreases,
    vstd::std_specs::vec::axiom_vec_index_decreases,
    vstd::std_specs::vec::axiom_vec_decreases_to_view,
    crate::model::lemma_fview_seq,
    crate::model::lemma_uview_seq;

pub open spec fn macro_spec_model_v() -> ModelV {
    ModelV::Struct {
        name: "MicrosoftSentinelMacroSpec"@,
        fields: seq![
            FieldV { name: "content"@, convention: ConvV::Camel, ty: ModelV::Primitive(PrimitiveKind::Text), required: true },
        ],
    }
}


pub fn macro_spec_model() -> (r: TypeModel)
    ensures
        r@ == macro_spec_model_v(),
{
    let mut fs: Vec<FieldDef> = Vec::new();
    fs.push(fd_camel("content", TypeModel::Primitive(PrimitiveKind::Text), true));
    let ghost gf = fs@;
    let r = struct_model("MicrosoftSentinelMacroSpec", fs);
    proof {
        assert(fview_seq(gf) =~= seq![
            FieldV { name: "content"@, convention: ConvV::Camel, ty: ModelV::Primitive(PrimitiveKind::Text), required: true },
        ]);
        assert(r@ == macro_spec_model_v());
    }
    r
}

pub open spec fn macro_crd_name_model_v() -> ModelV {
    ModelV::Enum {
        name: "CRDName"@,
        variants: seq![
            VariantV { name: "MicrosoftSentinelMacro"@, convention: ConvV::Rename("MicrosoftSentinelMacro"@) },
        ],
    }
}


pub fn macro_crd_name_model() -> (r: TypeModel)
    ensures
        r@ == macro_crd_name_model_v(),
{
    let mut vs: Vec<VariantDef> = Vec::new();
    vs.push(vd_verbatim("MicrosoftSentinelMacro"));
    let ghost gv = vs@;
    let r = enum_model("CRDName", vs);
    proof {
        assert(gv.map_values(|v: VariantDef| vview(v)) =~= seq![
            VariantV { name: "MicrosoftSentinelMacro"@, convention: ConvV::Rename("MicrosoftSentinelMacro"@) },
        ]);
        assert(r@ == macro_crd_name_model_v());
    }
    r
}

pub open spec fn macro_api_version_model_v() -> ModelV {
    ModelV::Enum {
        name: "APIVersion"@,
        variants: seq![
            VariantV { name: "BuildrLabs"@, convention: ConvV::Rename("buildrlabs.io/v1"@) },
        ],
    }
}


pub fn macro_api_version_model() -> (r: TypeModel)
    ensures
        r@ == macro_api_version_model_v(),
{
    let mut vs: Vec<VariantDef> = Vec::new();
    vs.push(vd_renamed("BuildrLabs", "buildrlabs.io/v1"));
    let ghost gv = vs@;
    let r = enum_model("APIVersion", vs);
    proof {
        assert(gv.map_values(|v: VariantDef| vview(v)) =~= seq![
            VariantV { name: "BuildrLabs"@, convention: ConvV::Rename("buildrlabs.io/v1"@) },
        ]);
        assert(r@ == macro_api_version_model_v());
    }
    r
}

pub open spec fn macro_metadata_model_v() -> ModelV {
    ModelV::Struct {
        name: "Metadata"@,
        fields: seq![
            FieldV { name: "name"@, convention: ConvV::Camel, ty: ModelV::Primitive(PrimitiveKind::Text), required: true },
            FieldV { name: "namespace"@, convention: ConvV::Camel, ty: ModelV::Primitive(PrimitiveKind::Text), required: false },
            FieldV { name: "additional_properties"@, convention: ConvV::Camel, ty: ModelV::PassThrough, required: false },
        ],
    }
}


pub fn macro_metadata_model() -> (r: TypeModel)
    ensures
        r@ == macro_metadata_model_v(),
{
    let mut fs: Vec<FieldDef> = Vec::new();
    fs.push(fd_camel("name", TypeModel::Primitive(PrimitiveKind::Text), true));
    fs.push(fd_camel("namespace", TypeModel::Primitive(PrimitiveKind::Text), false));
    fs.push(fd_camel("additional_properties", TypeModel::PassThrough, false));
    let ghost gf = fs@;
    let r = struct_model("Metadata", fs);
    proof {
        assert(fview_seq(gf) =~= seq![
            FieldV { name: "name"@, convention: ConvV::Camel, ty: ModelV::Primitive(PrimitiveKind::Text), required: true },
            FieldV { name: "namespace"@, convention: ConvV::Camel, ty: ModelV::Primitive(PrimitiveKind::Text), required: false },
            FieldV { name: "additional_properties"@, convention: ConvV::Camel, ty: ModelV::PassThrough, required: false },
        ]);
        assert(r@ == macro_metadata_model_v());
    }
    r
}

pub open spec fn macro_crd_model_v() -> ModelV {
    ModelV::Struct {
        name: "MicrosoftSentinelMacroCRD"@,
        fields: seq![
            FieldV { name: "kind"@, convention: ConvV::Camel, ty: macro_crd_name_model_v(), required: true },
            FieldV { name: "spec"@, convention: ConvV::Camel, ty: macro_spec_model_v(), required: true },
            FieldV { name: "api_version"@, convention: ConvV::Camel, ty: macro_api_version_model_v(), required: true },
            FieldV { name: "metadata"@, convention: ConvV::Camel, ty: macro_metadata_model_v(), required: true },
        ],
    }
}


pub fn macro_crd_model() -> (r: TypeModel)
    ensures
        r@ == macro_crd_model_v(),
{
    let mut fs: Vec<FieldDef> = Vec::new();
    fs.push(fd_camel("kind", macro_crd_name_model(), true));
    fs.push(fd_camel("spec", macro_spec_model(), true));
    fs.push(fd_camel("api_version", macro_api_version_model(), true));
    fs.push(fd_camel("metadata", macro_metadata_model(), true));
    let ghost gf = fs@;
    let r = struct_model("MicrosoftSentinelMacroCRD", fs);
    proof {
        assert(fview_seq(gf) =~= seq![
            FieldV { name: "kind"@, convention: ConvV::Camel, ty: macro_crd_name_model_v(), required: true },
            FieldV { name: "spec"@, convention: ConvV::Camel, ty: macro_spec_model_v(), required: true },
            FieldV { name: "api_version"@, convention: ConvV::Camel, ty: macro_api_version_model_v(), required: true },
            FieldV { name: "metadata"@, convention: ConvV::Camel, ty: macro_metadata_model_v(), required: true },
        ]);
        assert(r@ == macro_crd_model_v());
    }
    r
}

pub open spec fn macro_descriptor_v() -> DescV {
    DescV {
        group: "buildrlabs.io"@,
        version: "v1"@,
        kind: "MicrosoftSentinelMacro"@,
        plural: "microsoftsentinelmacros"@,
        singular: "microsoftsentinelmacro"@,
        namespaced: true,
        short_names: seq!["msm"@, "msms"@],
        printer_columns: Seq::empty(),
        status_subresource: false,
    }
}

pub fn macro_descriptor() -> (r: CrdDescriptor)
    ensures
        r@ == macro_descriptor_v(),
{
    let mut sn: Vec<String> = Vec::new();
    sn.push(text("msm"));
    sn.push(text("msms"));
    let mut pc: Vec<PrinterColumn> = Vec::new();
    let ghost gs = sn@;
    let ghost gp = pc@;
    let r = CrdDescriptor {
        group: text("buildrlabs.io"),
        version: text("v1"),
        kind: text("MicrosoftSentinelMacro"),
        plural: text("microsoftsentinelmacros"),
        singular: text("microsoftsentinelmacro"),
        namespaced: true,
        short_names: sn,
        printer_columns: pc,
        status_subresource: false,
    };
    proof {
        assert(r@.short_names =~= macro_descriptor_v().short_names);
        assert(r@.printer_columns =~= macro_descriptor_v().printer_columns);
        assert(r@ == macro_descriptor_v());
    }
    r
}

/// This resource's finished artifacts, in a fixed order. Each artifact
/// is produced independently; the first failure is reported.
pub fn artifacts() -> (r: Result<Vec<Artifact>, BuildError>)
    ensures
        r matches Ok(arts) ==> {
            &&& arts@.len() == 2
            &&& (crd_doc(macro_descriptor_v(), macro_spec_model_v(), None) matches Ok(man)
                && arts@[0]@ == (ArtifactV {
                group: "crds"@,
                name: "MicrosoftSentinelMacro"@,
                contents: yaml_text(man),
            }))
            &&& (synth(macro_crd_model_v()) matches Ok(w) && arts@[1]@
                == (ArtifactV {
                group: "jsonschema"@,
                name: "MicrosoftSentinelMacroCRD"@,
                contents: json_pretty_text(w),
            }))
        },
        ({
            let doc = crd_doc(macro_descriptor_v(), macro_spec_model_v(), None);
            &&& (({
                &&& doc matches Ok(man)
                &&& yaml_renders(man)
                &&& (synth(macro_crd_model_v()) matches Ok(w0) && json_renders(w0))
            }) ==> r is Ok)
            &&& (r matches Err(e) ==> {
                ||| doc == Err::<JsonV, ErrV>(e@)
                ||| (doc matches Ok(man) && !yaml_renders(man) && e@ is ArtifactWrite)
                ||| synth(macro_crd_model_v()) == Err::<JsonV, ErrV>(e@)
                ||| (synth(macro_crd_model_v()) matches Ok(w0) && !json_renders(w0) && e@ is ArtifactWrite)
            })
        }),
{
    let d0 = macro_descriptor();
    let sm0 = macro_spec_model();
    let a0 = match crd_yaml_artifact("MicrosoftSentinelMacro", &d0, &sm0, None) {
        Ok(a) => a,
        Err(e) => {
            return Err(e);
        },
    };
    let m1 = macro_crd_model();
    let a1 = match schema_json_artifact("MicrosoftSentinelMacroCRD", &m1) {
        Ok(a) => a,
        Err(e) => {
            return Err(e);
        },
    };
    let mut out: Vec<Artifact> = Vec::new();
    out.push(a0);
    out.push(a1);
    Ok(out)
}

} // verus!
