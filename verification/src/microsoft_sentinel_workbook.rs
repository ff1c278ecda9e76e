//! The Microsoft Sentinel workbook resource: an Azure workbook shape
//! with identities and properties, published as a pass-through CRD and
//! as standalone JSON Schemas.
use vstd::prelude::*;

use crate::crd::CrdDescriptor;
use crate::crd::DescV;
use crate::crd::PrinterColumn;
use crate::crd::PrinterColumnV;
use crate::errors::BuildError;
use crate::errors::ErrV;
use crate::json::JsonV;
use crate::model::FieldDef;
use crate::model::FieldV;
use crate::model::ModelV;
use crate::model::PrimitiveKind;
use crate::model::TypeModel;
use crate::model::VariantDef;
use crate::model::VariantV;
use crate::model::dict_of;
use crate::model::enum_model;
use crate::model::fd_camel;
use crate::model::fd_verbatim;
use crate::model::fview_seq;
use crate::model::list_of;
use crate::model::struct_model;
use crate::model::text;
use crate::model::vd_lower;
use crate::model::vd_renamed;
use crate::model::vd_verbatim;
use crate::model::vview;
use crate::naming::ConvV;
use crate::pipeline::Artifact;
use crate::pipeline::ArtifactV;
use crate::pipeline::crd_doc;
use crate::pipeline::crd_yaml_artifact;
use crate::pipeline::schema_json_artifact;
use crate::synth::synth;
use crate::emit::json_pretty_text;
use crate::emit::json_renders;
use crate::emit::yaml_renders;
use crate::emit::yaml_text;

verus! {

broadcast use
    vstd::seq::axiom_seq_index_decreases,
    vstd::std_specs::vec::axiom_vec_index_decreases,
    vstd::std_specs::vec::axiom_vec_decreases_to_view,
    crate::model::lemma_fview_seq,
    crate::model::lemma_uview_seq;

/// How a workbook is shared; serialized names are lowercase.
#[derive(Debug, Clone, Copy, PartialEq, Eq)]
pub enum Kind {
    Shared,
    User,
}

/// One user-assigned identity.
#[derive(Debug, PartialEq)]
pub struct UserAssignedIdentity {
    pub client_id: String,
    pub principal_id: String,
}

/// The managed-service identity kind; two names serialize as literals
/// of their own.
#[derive(Debug, Clone, Copy, PartialEq, Eq)]
pub enum ManagedServiceIdentityType {
    SystemAssigned,
    SystemAssignedUserAssigned,
    UserAssigned,
    NoneIdentity,
}

pub open spec fn kind_model_v() -> ModelV {
    ModelV::Enum {
        name: "Kind"@,
        variants: seq![
            VariantV { name: "Shared"@, convention: ConvV::Lower },
            VariantV { name: "User"@, convention: ConvV::Lower },
        ],
    }
}


pub fn kind_model() -> (r: TypeModel)
    ensures
        r@ == kind_model_v(),
{
    let mut vs: Vec<VariantDef> = Vec::new();
    vs.push(vd_lower("Shared"));
    vs.push(vd_lower("User"));
    let ghost gv = vs@;
    let r = enum_model("Kind", vs);
    proof {
        assert(gv.map_values(|v: VariantDef| vview(v)) =~= seq![
            VariantV { name: "Shared"@, convention: ConvV::Lower },
            VariantV { name: "User"@, convention: ConvV::Lower },
        ]);
        assert(r@ == kind_model_v());
    }
    r
}

pub open spec fn user_assigned_identity_model_v() -> ModelV {
    ModelV::Struct {
        name: "UserAssignedIdentity"@,
        fields: seq![
            FieldV { name: "client_id"@, convention: ConvV::Camel, ty: ModelV::Primitive(PrimitiveKind::Text), required: true },
            FieldV { name: "principal_id"@, convention: ConvV::Camel, ty: ModelV::Primitive(PrimitiveKind::Text), required: true },
        ],
    }
}


pub fn user_assigned_identity_model() -> (r: TypeModel)
    ensures
        r@ == user_assigned_identity_model_v(),
{
    let mut fs: Vec<FieldDef> = Vec::new();
    fs.push(fd_camel("client_id", TypeModel::Primitive(PrimitiveKind::Text), true));
    fs.push(fd_camel("principal_id", TypeModel::Primitive(PrimitiveKind::Text), true));
    let ghost gf = fs@;
    let r = struct_model("UserAssignedIdentity", fs);
    proof {
        assert(fview_seq(gf) =~= seq![
            FieldV { name: "client_id"@, convention: ConvV::Camel, ty: ModelV::Primitive(PrimitiveKind::Text), required: true },
            FieldV { name: "principal_id"@, convention: ConvV::Camel, ty: ModelV::Primitive(PrimitiveKind::Text), required: true },
        ]);
        assert(r@ == user_assigned_identity_model_v());
    }
    r
}

pub open spec fn managed_service_identity_type_model_v() -> ModelV {
    ModelV::Enum {
        name: "ManagedServiceIdentityType"@,
        variants: seq![
            VariantV { name: "SystemAssigned"@, convention: ConvV::Rename("SystemAssigned"@) },
            VariantV { name: "SystemAssignedUserAssigned"@, convention: ConvV::Rename("SystemAssigned,UserAssigned"@) },
            VariantV { name: "UserAssigned"@, convention: ConvV::Rename("UserAssigned"@) },
            VariantV { name: "NoneIdentity"@, convention: ConvV::Rename("None"@) },
        ],
    }
}


pub fn managed_service_identity_type_model() -> (r: TypeModel)
    ensures
        r@ == managed_service_identity_type_model_v(),
{
    let mut vs: Vec<VariantDef> = Vec::new();
    vs.push(vd_verbatim("SystemAssigned"));
    vs.push(vd_renamed("SystemAssignedUserAssigned", "SystemAssigned,UserAssigned"));
    vs.push(vd_verbatim("UserAssigned"));
    vs.push(vd_renamed("NoneIdentity", "None"));
    let ghost gv = vs@;
    let r = enum_model("ManagedServiceIdentityType", vs);
    proof {
        assert(gv.map_values(|v: VariantDef| vview(v)) =~= seq![
            VariantV { name: "SystemAssigned"@, convention: ConvV::Rename("SystemAssigned"@) },
            VariantV { name: "SystemAssignedUserAssigned"@, convention: ConvV::Rename("SystemAssigned,UserAssigned"@) },
            VariantV { name: "UserAssigned"@, convention: ConvV::Rename("UserAssigned"@) },
            VariantV { name: "NoneIdentity"@, convention: ConvV::Rename("None"@) },
        ]);
        assert(r@ == managed_service_identity_type_model_v());
    }
    r
}

pub open spec fn identity_model_v() -> ModelV {
    ModelV::Struct {
        name: "Identity"@,
        fields: seq![
            FieldV { name: "principal_id"@, convention: ConvV::Camel, ty: ModelV::Primitive(PrimitiveKind::Text), required: true },
            FieldV { name: "tenant_id"@, convention: ConvV::Camel, ty: ModelV::Primitive(PrimitiveKind::Text), required: true },
            FieldV { name: "type"@, convention: ConvV::Camel, ty: managed_service_identity_type_model_v(), required: true },
            FieldV { name: "user_assigned_identities"@, convention: ConvV::Camel, ty: ModelV::Dict(seq![user_assigned_identity_model_v()]), required: true },
        ],
    }
}


pub fn identity_model() -> (r: TypeModel)
    ensures
        r@ == identity_model_v(),
{
    let mut fs: Vec<FieldDef> = Vec::new();
    fs.push(fd_camel("principal_id", TypeModel::Primitive(PrimitiveKind::Text), true));
    fs.push(fd_camel("tenant_id", TypeModel::Primitive(PrimitiveKind::Text), true));
    fs.push(fd_camel("type", managed_service_identity_type_model(), true));
    fs.push(fd_camel("user_assigned_identities", dict_of(user_assigned_identity_model()), true));
    let ghost gf = fs@;
    let r = struct_model("Identity", fs);
    proof {
        assert(fview_seq(gf) =~= seq![
            FieldV { name: "principal_id"@, convention: ConvV::Camel, ty: ModelV::Primitive(PrimitiveKind::Text), required: true },
            FieldV { name: "tenant_id"@, convention: ConvV::Camel, ty: ModelV::Primitive(PrimitiveKind::Text), required: true },
            FieldV { name: "type"@, convention: ConvV::Camel, ty: managed_service_identity_type_model_v(), required: true },
            FieldV { name: "user_assigned_identities"@, convention: ConvV::Camel, ty: ModelV::Dict(seq![user_assigned_identity_model_v()]), required: true },
        ]);
        assert(r@ == identity_model_v());
    }
    r
}

pub open spec fn workbook_properties_model_v() -> ModelV {
    ModelV::Struct {
        name: "WorkbookProperties"@,
        fields: seq![
            FieldV { name: "category"@, convention: ConvV::Camel, ty: ModelV::Primitive(PrimitiveKind::Text), required: true },
            FieldV { name: "display_name"@, convention: ConvV::Camel, ty: ModelV::Primitive(PrimitiveKind::Text), required: true },
            FieldV { name: "serialized_data"@, convention: ConvV::Camel, ty: ModelV::Primitive(PrimitiveKind::Text), required: true },
            FieldV { name: "description"@, convention: ConvV::Camel, ty: ModelV::Primitive(PrimitiveKind::Text), required: false },
            FieldV { name: "source_id"@, convention: ConvV::Camel, ty: ModelV::Primitive(PrimitiveKind::Text), required: false },
            FieldV { name: "storage_uri"@, convention: ConvV::Camel, ty: ModelV::Primitive(PrimitiveKind::Text), required: false },
            FieldV { name: "tags"@, convention: ConvV::Camel, ty: ModelV::List(seq![ModelV::Primitive(PrimitiveKind::Text)]), required: false },
            FieldV { name: "version"@, convention: ConvV::Camel, ty: ModelV::Primitive(PrimitiveKind::Text), required: false },
        ],
    }
}


pub fn workbook_properties_model() -> (r: TypeModel)
    ensures
        r@ == workbook_properties_model_v(),
{
    let mut fs: Vec<FieldDef> = Vec::new();
    fs.push(fd_camel("category", TypeModel::Primitive(PrimitiveKind::Text), true));
    fs.push(fd_camel("display_name", TypeModel::Primitive(PrimitiveKind::Text), true));
    fs.push(fd_camel("serialized_data", TypeModel::Primitive(PrimitiveKind::Text), true));
    fs.push(fd_camel("description", TypeModel::Primitive(PrimitiveKind::Text), false));
    fs.push(fd_camel("source_id", TypeModel::Primitive(PrimitiveKind::Text), false));
    fs.push(fd_camel("storage_uri", TypeModel::Primitive(PrimitiveKind::Text), false));
    fs.push(fd_camel("tags", list_of(TypeModel::Primitive(PrimitiveKind::Text)), false));
    fs.push(fd_camel("version", TypeModel::Primitive(PrimitiveKind::Text), false));
    let ghost gf = fs@;
    let r = struct_model("WorkbookProperties", fs);
    proof {
        assert(fview_seq(gf) =~= seq![
            FieldV { name: "category"@, convention: ConvV::Camel, ty: ModelV::Primitive(PrimitiveKind::Text), required: true },
            FieldV { name: "display_name"@, convention: ConvV::Camel, ty: ModelV::Primitive(PrimitiveKind::Text), required: true },
            FieldV { name: "serialized_data"@, convention: ConvV::Camel, ty: ModelV::Primitive(PrimitiveKind::Text), required: true },
            FieldV { name: "description"@, convention: ConvV::Camel, ty: ModelV::Primitive(PrimitiveKind::Text), required: false },
            FieldV { name: "source_id"@, convention: ConvV::Camel, ty: ModelV::Primitive(PrimitiveKind::Text), required: false },
            FieldV { name: "storage_uri"@, convention: ConvV::Camel, ty: ModelV::Primitive(PrimitiveKind::Text), required: false },
            FieldV { name: "tags"@, convention: ConvV::Camel, ty: ModelV::List(seq![ModelV::Primitive(PrimitiveKind::Text)]), required: false },
            FieldV { name: "version"@, convention: ConvV::Camel, ty: ModelV::Primitive(PrimitiveKind::Text), required: false },
        ]);
        assert(r@ == workbook_properties_model_v());
    }
    r
}

pub open spec fn workbook_spec_model_v() -> ModelV {
    ModelV::Struct {
        name: "MicrosoftSentinelWorkbookSpec"@,
        fields: seq![
            FieldV { name: "location"@, convention: ConvV::Rename("location"@), ty: ModelV::Primitive(PrimitiveKind::Text), required: true },
            FieldV { name: "properties"@, convention: ConvV::Rename("properties"@), ty: workbook_properties_model_v(), required: true },
            FieldV { name: "tags"@, convention: ConvV::Rename("tags"@), ty: ModelV::List(seq![ModelV::Primitive(PrimitiveKind::Text)]), required: true },
            FieldV { name: "kind"@, convention: ConvV::Rename("kind"@), ty: kind_model_v(), required: true },
            FieldV { name: "identity"@, convention: ConvV::Rename("identity"@), ty: identity_model_v(), required: true },
        ],
    }
}


pub fn workbook_spec_model() -> (r: TypeModel)
    ensures
        r@ == workbook_spec_model_v(),
{
    let mut fs: Vec<FieldDef> = Vec::new();
    fs.push(fd_verbatim("location", TypeModel::Primitive(PrimitiveKind::Text), true));
    fs.push(fd_verbatim("properties", workbook_properties_model(), true));
    fs.push(fd_verbatim("tags", list_of(TypeModel::Primitive(PrimitiveKind::Text)), true));
    fs.push(fd_verbatim("kind", kind_model(), true));
    fs.push(fd_verbatim("identity", identity_model(), true));
    let ghost gf = fs@;
    let r = struct_model("MicrosoftSentinelWorkbookSpec", fs);
    proof {
        assert(fview_seq(gf) =~= seq![
            FieldV { name: "location"@, convention: ConvV::Rename("location"@), ty: ModelV::Primitive(PrimitiveKind::Text), required: true },
            FieldV { name: "properties"@, convention: ConvV::Rename("properties"@), ty: workbook_properties_model_v(), required: true },
            FieldV { name: "tags"@, convention: ConvV::Rename("tags"@), ty: ModelV::List(seq![ModelV::Primitive(PrimitiveKind::Text)]), required: true },
            FieldV { name: "kind"@, convention: ConvV::Rename("kind"@), ty: kind_model_v(), required: true },
            FieldV { name: "identity"@, convention: ConvV::Rename("identity"@), ty: identity_model_v(), required: true },
        ]);
        assert(r@ == workbook_spec_model_v());
    }
    r
}

pub open spec fn workbook_status_model_v() -> ModelV {
    ModelV::Struct {
        name: "MicrosoftSentinelWorkbookStatus"@,
        fields: seq![
            FieldV { name: "message"@, convention: ConvV::Rename("message"@), ty: ModelV::Primitive(PrimitiveKind::Text), required: true },
        ],
    }
}


pub fn workbook_status_model() -> (r: TypeModel)
    ensures
        r@ == workbook_status_model_v(),
{
    let mut fs: Vec<FieldDef> = Vec::new();
    fs.push(fd_verbatim("message", TypeModel::Primitive(PrimitiveKind::Text), true));
    let ghost gf = fs@;
    let r = struct_model("MicrosoftSentinelWorkbookStatus", fs);
    proof {
        assert(fview_seq(gf) =~= seq![
            FieldV { name: "message"@, convention: ConvV::Rename("message"@), ty: ModelV::Primitive(PrimitiveKind::Text), required: true },
        ]);
        assert(r@ == workbook_status_model_v());
    }
    r
}

pub open spec fn workbook_crd_name_model_v() -> ModelV {
    ModelV::Enum {
        name: "CRDName"@,
        variants: seq![
            VariantV { name: "MicrosoftSentinelWorkbook"@, convention: ConvV::Rename("MicrosoftSentinelWorkbook"@) },
        ],
    }
}


pub fn workbook_crd_name_model() -> (r: TypeModel)
    ensures
        r@ == workbook_crd_name_model_v(),
{
    let mut vs: Vec<VariantDef> = Vec::new();
    vs.push(vd_verbatim("MicrosoftSentinelWorkbook"));
    let ghost gv = vs@;
    let r = enum_model("CRDName", vs);
    proof {
        assert(gv.map_values(|v: VariantDef| vview(v)) =~= seq![
            VariantV { name: "MicrosoftSentinelWorkbook"@, convention: ConvV::Rename("MicrosoftSentinelWorkbook"@) },
        ]);
        assert(r@ == workbook_crd_name_model_v());
    }
    r
}

pub open spec fn workbook_api_version_model_v() -> ModelV {
    ModelV::Enum {
        name: "APIVersion"@,
        variants: seq![
            VariantV { name: "BuildrLabs"@, convention: ConvV::Rename("buildrlabs.io/v1"@) },
        ],
    }
}


pub fn workbook_api_version_model() -> (r: TypeModel)
    ensures
        r@ == workbook_api_version_model_v(),
{
    let mut vs: Vec<VariantDef> = Vec::new();
    vs.push(vd_renamed("BuildrLabs", "buildrlabs.io/v1"));
    let ghost gv = vs@;
    let r = enum_model("APIVersion", vs);
    proof {
        assert(gv.map_values(|v: VariantDef| vview(v)) =~= seq![
            VariantV { name: "BuildrLabs"@, convention: ConvV::Rename("buildrlabs.io/v1"@) },
        ]);
        assert(r@ == workbook_api_version_model_v());
    }
    r
}

pub open spec fn workbook_metadata_model_v() -> ModelV {
    ModelV::Struct {
        name: "Metadata"@,
        fields: seq![
            FieldV { name: "name"@, convention: ConvV::Camel, ty: ModelV::Primitive(PrimitiveKind::Text), required: true },
            FieldV { name: "namespace"@, convention: ConvV::Camel, ty: ModelV::Primitive(PrimitiveKind::Text), required: false },
            FieldV { name: "additional_properties"@, convention: ConvV::Camel, ty: ModelV::PassThrough, required: false },
        ],
    }
}


pub fn workbook_metadata_model() -> (r: TypeModel)
    ensures
        r@ == workbook_metadata_model_v(),
{
    let mut fs: Vec<FieldDef> = Vec::new();
    fs.push(fd_camel("name", TypeModel::Primitive(PrimitiveKind::Text), true));
    fs.push(fd_camel("namespace", TypeModel::Primitive(PrimitiveKind::Text), false));
    fs.push(fd_camel("additional_properties", TypeModel::PassThrough, false));
    let ghost gf = fs@;
    let r = struct_model("Metadata", fs);
    proof {
        assert(fview_seq(gf) =~= seq![
            FieldV { name: "name"@, convention: ConvV::Camel, ty: ModelV::Primitive(PrimitiveKind::Text), required: true },
            FieldV { name: "namespace"@, convention: ConvV::Camel, ty: ModelV::Primitive(PrimitiveKind::Text), required: false },
            FieldV { name: "additional_properties"@, convention: ConvV::Camel, ty: ModelV::PassThrough, required: false },
        ]);
        assert(r@ == workbook_metadata_model_v());
    }
    r
}

pub open spec fn workbook_crd_model_v() -> ModelV {
    ModelV::Struct {
        name: "MicrosoftSentinelWorkbookCRD"@,
        fields: seq![
            FieldV { name: "kind"@, convention: ConvV::Camel, ty: workbook_crd_name_model_v(), required: true },
            FieldV { name: "spec"@, convention: ConvV::Camel, ty: workbook_spec_model_v(), required: true },
            FieldV { name: "api_version"@, convention: ConvV::Camel, ty: workbook_api_version_model_v(), required: true },
            FieldV { name: "metadata"@, convention: ConvV::Camel, ty: workbook_metadata_model_v(), required: true },
        ],
    }
}


pub fn workbook_crd_model() -> (r: TypeModel)
    ensures
        r@ == workbook_crd_model_v(),
{
    let mut fs: Vec<FieldDef> = Vec::new();
    fs.push(fd_camel("kind", workbook_crd_name_model(), true));
    fs.push(fd_camel("spec", workbook_spec_model(), true));
    fs.push(fd_camel("api_version", workbook_api_version_model(), true));
    fs.push(fd_camel("metadata", workbook_metadata_model(), true));
    let ghost gf = fs@;
    let r = struct_model("MicrosoftSentinelWorkbookCRD", fs);
    proof {
        assert(fview_seq(gf) =~= seq![
            FieldV { name: "kind"@, convention: ConvV::Camel, ty: workbook_crd_name_model_v(), required: true },
            FieldV { name: "spec"@, convention: ConvV::Camel, ty: workbook_spec_model_v(), required: true },
            FieldV { name: "api_version"@, convention: ConvV::Camel, ty: workbook_api_version_model_v(), required: true },
            FieldV { name: "metadata"@, convention: ConvV::Camel, ty: workbook_metadata_model_v(), required: true },
        ]);
        assert(r@ == workbook_crd_model_v());
    }
    r
}

pub open spec fn workbook_crd_spec_model_v() -> ModelV {
    ModelV::Struct {
        name: "MicrosoftSentinelWorkbookCRDSpec"@,
        fields: seq![
            FieldV { name: "additional_fields"@, convention: ConvV::Camel, ty: ModelV::PassThrough, required: false },
        ],
    }
}


pub fn workbook_crd_spec_model() -> (r: TypeModel)
    ensures
        r@ == workbook_crd_spec_model_v(),
{
    let mut fs: Vec<FieldDef> = Vec::new();
    fs.push(fd_camel("additional_fields", TypeModel::PassThrough, false));
    let ghost gf = fs@;
    let r = struct_model("MicrosoftSentinelWorkbookCRDSpec", fs);
    proof {
        assert(fview_seq(gf) =~= seq![
            FieldV { name: "additional_fields"@, convention: ConvV::Camel, ty: ModelV::PassThrough, required: false },
        ]);
        assert(r@ == workbook_crd_spec_model_v());
    }
    r
}

pub open spec fn workbook_descriptor_v() -> DescV {
    DescV {
        group: "buildrlabs.io"@,
        version: "v1"@,
        kind: "MicrosoftSentinelWorkbook"@,
        plural: "microsoftsentinelworkbooks"@,
        singular: "microsoftsentinelworkbook"@,
        namespaced: true,
        short_names: seq!["msw"@, "msws"@],
        printer_columns: seq![
            PrinterColumnV { name: "Message"@, col_type: "string"@, description: "Additional information about the deployment status"@, json_path: ".status.create_workbook.message"@ },
        ],
        status_subresource: true,
    }
}

pub fn workbook_descriptor() -> (r: CrdDescriptor)
    ensures
        r@ == workbook_descriptor_v(),
{
    let mut sn: Vec<String> = Vec::new();
    sn.push(text("msw"));
    sn.push(text("msws"));
    let mut pc: Vec<PrinterColumn> = Vec::new();
    pc.push(PrinterColumn {
        name: text("Message"),
        col_type: text("string"),
        description: text("Additional information about the deployment status"),
        json_path: text(".status.create_workbook.message"),
    });
    let ghost gs = sn@;
    let ghost gp = pc@;
    let r = CrdDescriptor {
        group: text("buildrlabs.io"),
        version: text("v1"),
        kind: text("MicrosoftSentinelWorkbook"),
        plural: text("microsoftsentinelworkbooks"),
        singular: text("microsoftsentinelworkbook"),
        namespaced: true,
        short_names: sn,
        printer_columns: pc,
        status_subresource: true,
    };
    proof {
        assert(r@.short_names =~= workbook_descriptor_v().short_names);
        assert(r@.printer_columns =~= workbook_descriptor_v().printer_columns);
        assert(r@ == workbook_descriptor_v());
    }
    r
}

/// This resource's finished artifacts, in a fixed order. Each artifact
/// is produced independently; the first failure is reported.
pub fn artifacts() -> (r: Result<Vec<Artifact>, BuildError>)
    ensures
        r matches Ok(arts) ==> {
            &&& arts@.len() == 3
            &&& (crd_doc(workbook_descriptor_v(), workbook_crd_spec_model_v(), Some(workbook_status_model_v())) matches Ok(man)
                && arts@[0]@ == (ArtifactV {
                group: "crds"@,
                name: "MicrosoftSentinelWorkbook"@,
                contents: yaml_text(man),
            }))
            &&& (synth(workbook_spec_model_v()) matches Ok(w) && arts@[1]@
                == (ArtifactV {
                group: "jsonschema"@,
                name: "MicrosoftSentinelWorkbook"@,
                contents: json_pretty_text(w),
            }))
            &&& (synth(workbook_crd_model_v()) matches Ok(w) && arts@[2]@
                == (ArtifactV {
                group: "jsonschema"@,
                name: "MicrosoftSentinelWorkbookCRD"@,
                contents: json_pretty_text(w),
            }))
        },
        ({
            let doc = crd_doc(workbook_descriptor_v(), workbook_crd_spec_model_v(), Some(workbook_status_model_v()));
            &&& (({
                &&& doc matches Ok(man)
                &&& yaml_renders(man)
                &&& (synth(workbook_spec_model_v()) matches Ok(w0) && json_renders(w0))
                &&& (synth(workbook_crd_model_v()) matches Ok(w1) && json_renders(w1))
            }) ==> r is Ok)
            &&& (r matches Err(e) ==> {
                ||| doc == Err::<JsonV, ErrV>(e@)
                ||| (doc matches Ok(man) && !yaml_renders(man) && e@ is ArtifactWrite)
                ||| synth(workbook_spec_model_v()) == Err::<JsonV, ErrV>(e@)
                ||| (synth(workbook_spec_model_v()) matches Ok(w0) && !json_renders(w0) && e@ is ArtifactWrite)
                ||| synth(workbook_crd_model_v()) == Err::<JsonV, ErrV>(e@)
                ||| (synth(workbook_crd_model_v()) matches Ok(w1) && !json_renders(w1) && e@ is ArtifactWrite)
            })
        }),
{
    let d0 = workbook_descriptor();
    let sm0 = workbook_crd_spec_model();
    let st0 = workbook_status_model();
    let a0 = match crd_yaml_artifact("MicrosoftSentinelWorkbook", &d0, &sm0, Some(&st0)) {
        Ok(a) => a,
        Err(e) => {
            return Err(e);
        },
    };
    let m1 = workbook_spec_model();
    let a1 = match schema_json_artifact("MicrosoftSentinelWorkbook", &m1) {
        Ok(a) => a,
        Err(e) => {
            return Err(e);
        },
    };
    let m2 = workbook_crd_model();
    let a2 = match schema_json_artifact("MicrosoftSentinelWorkbookCRD", &m2) {
        Ok(a) => a,
        Err(e) => {
            return Err(e);
        },
    };
    let mut out: Vec<Artifact> = Vec::new();
    out.push(a0);
    out.push(a1);
    out.push(a2);
    Ok(out)
}

} // verus!
