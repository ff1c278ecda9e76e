//! The Microsoft Sentinel analytic (detection) rule resource: the full
//! scheduled-rule shape with grouping and alert configuration, published
//! as a CRD manifest and a standalone JSON Schema.
use vstd::prelude::*;

use crate::crd::CrdDescriptor;
use crate::crd::DescV;
use crate::crd::PrinterColumn;
use crate::crd::PrinterColumnV;
use crate::errors::BuildError;
use crate::errors::ErrV;
use crate::json::JsonV;
use crate::model::FieldDef;
use crate::model::FieldV;
use crate::model::ModelV;
use crate::model::PrimitiveKind;
use crate::model::TypeModel;
use crate::model::VariantDef;
use crate::model::VariantV;
use crate::model::dict_of;
use crate::model::enum_model;
use crate::model::fd_camel;
use crate::model::fd_verbatim;
use crate::model::fview_seq;
use crate::model::list_of;
use crate::model::struct_model;
use crate::model::text;
use crate::model::vd_pascal;
use crate::model::vd_renamed;
use crate::model::vd_verbatim;
use crate::model::vview;
use crate::naming::ConvV;
use crate::pipeline::Artifact;
use crate::pipeline::ArtifactV;
use crate::pipeline::crd_doc;
use crate::pipeline::crd_yaml_artifact;
use crate::pipeline::schema_json_artifact;
use crate::synth::synth;
use crate::emit::json_pretty_text;
use crate::emit::json_renders;
use crate::emit::yaml_renders;
use crate::emit::yaml_text;

verus! {

broadcast use
    vstd::seq::axiom_seq_index_decreases,
    vstd::std_specs::vec::axiom_vec_index_decreases,
    vstd::std_specs::vec::axiom_vec_decreases_to_view,
    crate::model::lemma_fview_seq,
    crate::model::lemma_uview_seq;

/// The default rule kind of a detection rule.
pub fn scheduled() -> (r: String)
    ensures
        r@ == "Scheduled"@,
{
    text("Scheduled")
}

/// Alert severities; serialized names use PascalCase.
#[derive(Debug, Clone, Copy, PartialEq, Eq)]
pub enum Severity {
    High,
    Informational,
    Low,
    Medium,
}

/// How the query result count is compared to the threshold.
#[derive(Debug, Clone, Copy, PartialEq, Eq)]
pub enum TriggerOperator {
    Equal,
    GreaterThan,
    LessThan,
    NotEqual,
}

/// Alert fields that a rule may override.
#[derive(Debug, Clone, Copy, PartialEq, Eq)]
pub enum AlertProperty {
    AlertLink,
    ConfidenceLevel,
    ConfidenceScore,
    ExtendedLinks,
    ProductComponentName,
    ProductName,
    ProviderName,
    RemediationSteps,
    Techniques,
}

/// Entity kinds that field mappings may target.
#[derive(Debug, Clone, Copy, PartialEq, Eq)]
pub enum EntityType {
    Account,
    AzureResource,
    CloudApplication,
    DNS,
    File,
    FileHash,
    Host,
    IP,
    MailCluster,
    MailMessage,
    Mailbox,
    Malware,
    Process,
    RegistryKey,
    RegistryValue,
    SecurityGroup,
    SubmissionMail,
    URL,
}

/// Whether one alert or one alert per result is raised.
#[derive(Debug, Clone, Copy, PartialEq, Eq)]
pub enum AggregationKind {
    AlertPerResult,
    SingleAlert,
}

/// How alerts are grouped into incidents.
#[derive(Debug, Clone, Copy, PartialEq, Eq)]
pub enum MatchingMethod {
    AllEntities,
    AnyAlert,
    Selected,
}

/// The attack tactics a rule can be tagged with.
#[derive(Debug, Clone, Copy, PartialEq, Eq)]
pub enum AttackTactic {
    Collection,
    CommandAndControl,
    CredentialAccess,
    DefenseEvasion,
    Discovery,
    Execution,
    Exfiltration,
    Impact,
    ImpairProcessControl,
    InhibitResponseFunction,
    InitialAccess,
    LateralMovement,
    Persistence,
    PreAttack,
    PrivilegeEscalation,
    Reconnaissance,
    ResourceDevelopment,
}

pub open spec fn severity_model_v() -> ModelV {
    ModelV::Enum {
        name: "Severity"@,
        variants: seq![
            VariantV { name: "High"@, convention: ConvV::Pascal },
            VariantV { name: "Informational"@, convention: ConvV::Pascal },
            VariantV { name: "Low"@, convention: ConvV::Pascal },
            VariantV { name: "Medium"@, convention: ConvV::Pascal },
        ],
    }
}


pub fn severity_model() -> (r: TypeModel)
    ensures
        r@ == severity_model_v(),
{
    let mut vs: Vec<VariantDef> = Vec::new();
    vs.push(vd_pascal("High"));
    vs.push(vd_pascal("Informational"));
    vs.push(vd_pascal("Low"));
    vs.push(vd_pascal("Medium"));
    let ghost gv = vs@;
    let r = enum_model("Severity", vs);
    proof {
        assert(gv.map_values(|v: VariantDef| vview(v)) =~= seq![
            VariantV { name: "High"@, convention: ConvV::Pascal },
            VariantV { name: "Informational"@, convention: ConvV::Pascal },
            VariantV { name: "Low"@, convention: ConvV::Pascal },
            VariantV { name: "Medium"@, convention: ConvV::Pascal },
        ]);
        assert(r@ == severity_model_v());
    }
    r
}

pub open spec fn trigger_operator_model_v() -> ModelV {
    ModelV::Enum {
        name: "TriggerOperator"@,
        variants: seq![
            VariantV { name: "Equal"@, convention: ConvV::Pascal },
            VariantV { name: "GreaterThan"@, convention: ConvV::Pascal },
            VariantV { name: "LessThan"@, convention: ConvV::Pascal },
            VariantV { name: "NotEqual"@, convention: ConvV::Pascal },
        ],
    }
}


pub fn trigger_operator_model() -> (r: TypeModel)
    ensures
        r@ == trigger_operator_model_v(),
{
    let mut vs: Vec<VariantDef> = Vec::new();
    vs.push(vd_pascal("Equal"));
    vs.push(vd_pascal("GreaterThan"));
    vs.push(vd_pascal("LessThan"));
    vs.push(vd_pascal("NotEqual"));
    let ghost gv = vs@;
    let r = enum_model("TriggerOperator", vs);
    proof {
        assert(gv.map_values(|v: VariantDef| vview(v)) =~= seq![
            VariantV { name: "Equal"@, convention: ConvV::Pascal },
            VariantV { name: "GreaterThan"@, convention: ConvV::Pascal },
            VariantV { name: "LessThan"@, convention: ConvV::Pascal },
            VariantV { name: "NotEqual"@, convention: ConvV::Pascal },
        ]);
        assert(r@ == trigger_operator_model_v());
    }
    r
}

pub open spec fn alert_property_model_v() -> ModelV {
    ModelV::Enum {
        name: "AlertProperty"@,
        variants: seq![
            VariantV { name: "AlertLink"@, convention: ConvV::Pascal },
            VariantV { name: "ConfidenceLevel"@, convention: ConvV::Pascal },
            VariantV { name: "ConfidenceScore"@, convention: ConvV::Pascal },
            VariantV { name: "ExtendedLinks"@, convention: ConvV::Pascal },
            VariantV { name: "ProductComponentName"@, convention: ConvV::Pascal },
            VariantV { name: "ProductName"@, convention: ConvV::Pascal },
            VariantV { name: "ProviderName"@, convention: ConvV::Pascal },
            VariantV { name: "RemediationSteps"@, convention: ConvV::Pascal },
            VariantV { name: "Techniques"@, convention: ConvV::Pascal },
        ],
    }
}

#[verifier::rlimit(50)]
pub fn alert_property_model() -> (r: TypeModel)
    ensures
        r@ == alert_property_model_v(),
{
    let mut vs: Vec<VariantDef> = Vec::new();
    vs.push(vd_pascal("AlertLink"));
    vs.push(vd_pascal("ConfidenceLevel"));
    vs.push(vd_pascal("ConfidenceScore"));
    vs.push(vd_pascal("ExtendedLinks"));
    vs.push(vd_pascal("ProductComponentName"));
    vs.push(vd_pascal("ProductName"));
    vs.push(vd_pascal("ProviderName"));
    vs.push(vd_pascal("RemediationSteps"));
    vs.push(vd_pascal("Techniques"));
    let ghost gv = vs@;
    let r = enum_model("AlertProperty", vs);
    proof {
        assert(gv.map_values(|v: VariantDef| vview(v)) =~= seq![
            VariantV { name: "AlertLink"@, convention: ConvV::Pascal },
            VariantV { name: "ConfidenceLevel"@, convention: ConvV::Pascal },
            VariantV { name: "ConfidenceScore"@, convention: ConvV::Pascal },
            VariantV { name: "ExtendedLinks"@, convention: ConvV::Pascal },
            VariantV { name: "ProductComponentName"@, convention: ConvV::Pascal },
            VariantV { name: "ProductName"@, convention: ConvV::Pascal },
            VariantV { name: "ProviderName"@, convention: ConvV::Pascal },
            VariantV { name: "RemediationSteps"@, convention: ConvV::Pascal },
            VariantV { name: "Techniques"@, convention: ConvV::Pascal },
        ]);
        assert(r@ == alert_property_model_v());
    }
    r
}

pub open spec fn entity_type_model_v() -> ModelV {
    ModelV::Enum {
        name: "EntityType"@,
        variants: seq![
            VariantV { name: "Account"@, convention: ConvV::Pascal },
            VariantV { name: "AzureResource"@, convention: ConvV::Pascal },
            VariantV { name: "CloudApplication"@, convention: ConvV::Pascal },
            VariantV { name: "DNS"@, convention: ConvV::Pascal },
            VariantV { name: "File"@, convention: ConvV::Pascal },
            VariantV { name: "FileHash"@, convention: ConvV::Pascal },
            VariantV { name: "Host"@, convention: ConvV::Pascal },
            VariantV { name: "IP"@, convention: ConvV::Pascal },
            VariantV { name: "MailCluster"@, convention: ConvV::Pascal },
            VariantV { name: "MailMessage"@, convention: ConvV::Pascal },
            VariantV { name: "Mailbox"@, convention: ConvV::Pascal },
            VariantV { name: "Malware"@, convention: ConvV::Pascal },
            VariantV { name: "Process"@, convention: ConvV::Pascal },
            VariantV { name: "RegistryKey"@, convention: ConvV::Pascal },
            VariantV { name: "RegistryValue"@, convention: ConvV::Pascal },
            VariantV { name: "SecurityGroup"@, convention: ConvV::Pascal },
            VariantV { name: "SubmissionMail"@, convention: ConvV::Pascal },
            VariantV { name: "URL"@, convention: ConvV::Pascal },
        ],
    }
}

#[verifier::rlimit(50)]
pub fn entity_type_model() -> (r: TypeModel)
    ensures
        r@ == entity_type_model_v(),
{
    let mut vs: Vec<VariantDef> = Vec::new();
    vs.push(vd_pascal("Account"));
    vs.push(vd_pascal("AzureResource"));
    vs.push(vd_pascal("CloudApplication"));
    vs.push(vd_pascal("DNS"));
    vs.push(vd_pascal("File"));
    vs.push(vd_pascal("FileHash"));
    vs.push(vd_pascal("Host"));
    vs.push(vd_pascal("IP"));
    vs.push(vd_pascal("MailCluster"));
    vs.push(vd_pascal("MailMessage"));
    vs.push(vd_pascal("Mailbox"));
    vs.push(vd_pascal("Malware"));
    vs.push(vd_pascal("Process"));
    vs.push(vd_pascal("RegistryKey"));
    vs.push(vd_pascal("RegistryValue"));
    vs.push(vd_pascal("SecurityGroup"));
    vs.push(vd_pascal("SubmissionMail"));
    vs.push(vd_pascal("URL"));
    let ghost gv = vs@;
    let r = enum_model("EntityType", vs);
    proof {
        assert(gv.map_values(|v: VariantDef| vview(v)) =~= seq![
            VariantV { name: "Account"@, convention: ConvV::Pascal },
            VariantV { name: "AzureResource"@, convention: ConvV::Pascal },
            VariantV { name: "CloudApplication"@, convention: ConvV::Pascal },
            VariantV { name: "DNS"@, convention: ConvV::Pascal },
            VariantV { name: "File"@, convention: ConvV::Pascal },
            VariantV { name: "FileHash"@, convention: ConvV::Pascal },
            VariantV { name: "Host"@, convention: ConvV::Pascal },
            VariantV { name: "IP"@, convention: ConvV::Pascal },
            VariantV { name: "MailCluster"@, convention: ConvV::Pascal },
            VariantV { name: "MailMessage"@, convention: ConvV::Pascal },
            VariantV { name: "Mailbox"@, convention: ConvV::Pascal },
            VariantV { name: "Malware"@, convention: ConvV::Pascal },
            VariantV { name: "Process"@, convention: ConvV::Pascal },
            VariantV { name: "RegistryKey"@, convention: ConvV::Pascal },
            VariantV { name: "RegistryValue"@, convention: ConvV::Pascal },
            VariantV { name: "SecurityGroup"@, convention: ConvV::Pascal },
            VariantV { name: "SubmissionMail"@, convention: ConvV::Pascal },
            VariantV { name: "URL"@, convention: ConvV::Pascal },
        ]);
        assert(r@ == entity_type_model_v());
    }
    r
}

pub open spec fn aggregation_kind_model_v() -> ModelV {
    ModelV::Enum {
        name: "AggregationKind"@,
        variants: seq![
            VariantV { name: "AlertPerResult"@, convention: ConvV::Pascal },
            VariantV { name: "SingleAlert"@, convention: ConvV::Pascal },
        ],
    }
}


pub fn aggregation_kind_model() -> (r: TypeModel)
    ensures
        r@ == aggregation_kind_model_v(),
{
    let mut vs: Vec<VariantDef> = Vec::new();
    vs.push(vd_pascal("AlertPerResult"));
    vs.push(vd_pascal("SingleAlert"));
    let ghost gv = vs@;
    let r = enum_model("AggregationKind", vs);
    proof {
        assert(gv.map_values(|v: VariantDef| vview(v)) =~= seq![
            VariantV { name: "AlertPerResult"@, convention: ConvV::Pascal },
            VariantV { name: "SingleAlert"@, convention: ConvV::Pascal },
        ]);
        assert(r@ == aggregation_kind_model_v());
    }
    r
}

pub open spec fn matching_method_model_v() -> ModelV {
    ModelV::Enum {
        name: "MatchingMethod"@,
        variants: seq![
            VariantV { name: "AllEntities"@, convention: ConvV::Pascal },
            VariantV { name: "AnyAlert"@, convention: ConvV::Pascal },
            VariantV { name: "Selected"@, convention: ConvV::Pascal },
        ],
    }
}


pub fn matching_method_model() -> (r: TypeModel)
    ensures
        r@ == matching_method_model_v(),
{
    let mut vs: Vec<VariantDef> = Vec::new();
    vs.push(vd_pascal("AllEntities"));
    vs.push(vd_pascal("AnyAlert"));
    vs.push(vd_pascal("Selected"));
    let ghost gv = vs@;
    let r = enum_model("MatchingMethod", vs);
    proof {
        assert(gv.map_values(|v: VariantDef| vview(v)) =~= seq![
            VariantV { name: "AllEntities"@, convention: ConvV::Pascal },
            VariantV { name: "AnyAlert"@, convention: ConvV::Pascal },
            VariantV { name: "Selected"@, convention: ConvV::Pascal },
        ]);
        assert(r@ == matching_method_model_v());
    }
    r
}

pub open spec fn attack_tactic_model_v() -> ModelV {
    ModelV::Enum {
        name: "AttackTactic"@,
        variants: seq![
            VariantV { name: "Collection"@, convention: ConvV::Pascal },
            VariantV { name: "CommandAndControl"@, convention: ConvV::Pascal },
            VariantV { name: "CredentialAccess"@, convention: ConvV::Pascal },
            VariantV { name: "DefenseEvasion"@, convention: ConvV::Pascal },
            VariantV { name: "Discovery"@, convention: ConvV::Pascal },
            VariantV { name: "Execution"@, convention: ConvV::Pascal },
            VariantV { name: "Exfiltration"@, convention: ConvV::Pascal },
            VariantV { name: "Impact"@, convention: ConvV::Pascal },
            VariantV { name: "ImpairProcessControl"@, convention: ConvV::Pascal },
            VariantV { name: "InhibitResponseFunction"@, convention: ConvV::Pascal },
            VariantV { name: "InitialAccess"@, convention: ConvV::Pascal },
            VariantV { name: "LateralMovement"@, convention: ConvV::Pascal },
            VariantV { name: "Persistence"@, convention: ConvV::Pascal },
            VariantV { name: "PreAttack"@, convention: ConvV::Pascal },
            VariantV { name: "PrivilegeEscalation"@, convention: ConvV::Pascal },
            VariantV { name: "Reconnaissance"@, convention: ConvV::Pascal },
            VariantV { name: "ResourceDevelopment"@, convention: ConvV::Pascal },
        ],
    }
}

#[verifier::rlimit(50)]
pub fn attack_tactic_model() -> (r: TypeModel)
    ensures
        r@ == attack_tactic_model_v(),
{
    let mut vs: Vec<VariantDef> = Vec::new();
    vs.push(vd_pascal("Collection"));
    vs.push(vd_pascal("CommandAndControl"));
    vs.push(vd_pascal("CredentialAccess"));
    vs.push(vd_pascal("DefenseEvasion"));
    vs.push(vd_pascal("Discovery"));
    vs.push(vd_pascal("Execution"));
    vs.push(vd_pascal("Exfiltration"));
    vs.push(vd_pascal("Impact"));
    vs.push(vd_pascal("ImpairProcessControl"));
    vs.push(vd_pascal("InhibitResponseFunction"));
    vs.push(vd_pascal("InitialAccess"));
    vs.push(vd_pascal("LateralMovement"));
    vs.push(vd_pascal("Persistence"));
    vs.push(vd_pascal("PreAttack"));
    vs.push(vd_pascal("PrivilegeEscalation"));
    vs.push(vd_pascal("Reconnaissance"));
    vs.push(vd_pascal("ResourceDevelopment"));
    let ghost gv = vs@;
    let r = enum_model("AttackTactic", vs);
    proof {
        assert(gv.map_values(|v: VariantDef| vview(v)) =~= seq![
            VariantV { name: "Collection"@, convention: ConvV::Pascal },
            VariantV { name: "CommandAndControl"@, convention: ConvV::Pascal },
            VariantV { name: "CredentialAccess"@, convention: ConvV::Pascal },
            VariantV { name: "DefenseEvasion"@, convention: ConvV::Pascal },
            VariantV { name: "Discovery"@, convention: ConvV::Pascal },
            VariantV { name: "Execution"@, convention: ConvV::Pascal },
            VariantV { name: "Exfiltration"@, convention: ConvV::Pascal },
            VariantV { name: "Impact"@, convention: ConvV::Pascal },
            VariantV { name: "ImpairProcessControl"@, convention: ConvV::Pascal },
            VariantV { name: "InhibitResponseFunction"@, convention: ConvV::Pascal },
            VariantV { name: "InitialAccess"@, convention: ConvV::Pascal },
            VariantV { name: "LateralMovement"@, convention: ConvV::Pascal },
            VariantV { name: "Persistence"@, convention: ConvV::Pascal },
            VariantV { name: "PreAttack"@, convention: ConvV::Pascal },
            VariantV { name: "PrivilegeEscalation"@, convention: ConvV::Pascal },
            VariantV { name: "Reconnaissance"@, convention: ConvV::Pascal },
            VariantV { name: "ResourceDevelopment"@, convention: ConvV::Pascal },
        ]);
        assert(r@ == attack_tactic_model_v());
    }
    r
}

pub open spec fn alert_property_mapping_model_v() -> ModelV {
    ModelV::Struct {
        name: "AlertPropertyMapping"@,
        fields: seq![
            FieldV { name: "alert_property"@, convention: ConvV::Camel, ty: alert_property_model_v(), required: true },
            FieldV { name: "value"@, convention: ConvV::Camel, ty: ModelV::Primitive(PrimitiveKind::Text), required: true },
        ],
    }
}


pub fn alert_property_mapping_model() -> (r: TypeModel)
    ensures
        r@ == alert_property_mapping_model_v(),
{
    let mut fs: Vec<FieldDef> = Vec::new();
    fs.push(fd_camel("alert_property", alert_property_model(), true));
    fs.push(fd_camel("value", TypeModel::Primitive(PrimitiveKind::Text), true));
    let ghost gf = fs@;
    let r = struct_model("AlertPropertyMapping", fs);
    proof {
        assert(fview_seq(gf) =~= seq![
            FieldV { name: "alert_property"@, convention: ConvV::Camel, ty: alert_property_model_v(), required: true },
            FieldV { name: "value"@, convention: ConvV::Camel, ty: ModelV::Primitive(PrimitiveKind::Text), required: true },
        ]);
        assert(r@ == alert_property_mapping_model_v());
    }
    r
}

pub open spec fn alert_details_override_model_v() -> ModelV {
    ModelV::Struct {
        name: "AlertDetailsOverride"@,
        fields: seq![
            FieldV { name: "alert_description_format"@, convention: ConvV::Camel, ty: ModelV::Primitive(PrimitiveKind::Text), required: false },
            FieldV { name: "alert_display_name_format"@, convention: ConvV::Camel, ty: ModelV::Primitive(PrimitiveKind::Text), required: false },
            FieldV { name: "alert_severity_column_name"@, convention: ConvV::Camel, ty: ModelV::Primitive(PrimitiveKind::Text), required: false },
            FieldV { name: "alert_tactics_column_name"@, convention: ConvV::Camel, ty: ModelV::Primitive(PrimitiveKind::Text), required: false },
        ],
    }
}


pub fn alert_details_override_model() -> (r: TypeModel)
    ensures
        r@ == alert_details_override_model_v(),
{
    let mut fs: Vec<FieldDef> = Vec::new();
    fs.push(fd_camel("alert_description_format", TypeModel::Primitive(PrimitiveKind::Text), false));
    fs.push(fd_camel("alert_display_name_format", TypeModel::Primitive(PrimitiveKind::Text), false));
    fs.push(fd_camel("alert_severity_column_name", TypeModel::Primitive(PrimitiveKind::Text), false));
    fs.push(fd_camel("alert_tactics_column_name", TypeModel::Primitive(PrimitiveKind::Text), false));
    let ghost gf = fs@;
    let r = struct_model("AlertDetailsOverride", fs);
    proof {
        assert(fview_seq(gf) =~= seq![
            FieldV { name: "alert_description_format"@, convention: ConvV::Camel, ty: ModelV::Primitive(PrimitiveKind::Text), required: false },
            FieldV { name: "alert_display_name_format"@, convention: ConvV::Camel, ty: ModelV::Primitive(PrimitiveKind::Text), required: false },
            FieldV { name: "alert_severity_column_name"@, convention: ConvV::Camel, ty: ModelV::Primitive(PrimitiveKind::Text), required: false },
            FieldV { name: "alert_tactics_column_name"@, convention: ConvV::Camel, ty: ModelV::Primitive(PrimitiveKind::Text), required: false },
        ]);
        assert(r@ == alert_details_override_model_v());
    }
    r
}

pub open spec fn field_mapping_model_v() -> ModelV {
    ModelV::Struct {
        name: "FieldMapping"@,
        fields: seq![
            FieldV { name: "column_name"@, convention: ConvV::Camel, ty: ModelV::Primitive(PrimitiveKind::Text), required: true },
            FieldV { name: "identifier"@, convention: ConvV::Camel, ty: ModelV::Primitive(PrimitiveKind::Text), required: true },
        ],
    }
}


pub fn field_mapping_model() -> (r: TypeModel)
    ensures
        r@ == field_mapping_model_v(),
{
    let mut fs: Vec<FieldDef> = Vec::new();
    fs.push(fd_camel("column_name", TypeModel::Primitive(PrimitiveKind::Text), true));
    fs.push(fd_camel("identifier", TypeModel::Primitive(PrimitiveKind::Text), true));
    let ghost gf = fs@;
    let r = struct_model("FieldMapping", fs);
    proof {
        assert(fview_seq(gf) =~= seq![
            FieldV { name: "column_name"@, convention: ConvV::Camel, ty: ModelV::Primitive(PrimitiveKind::Text), required: true },
            FieldV { name: "identifier"@, convention: ConvV::Camel, ty: ModelV::Primitive(PrimitiveKind::Text), required: true },
        ]);
        assert(r@ == field_mapping_model_v());
    }
    r
}

pub open spec fn alert_detail_model_v() -> ModelV {
    ModelV::Struct {
        name: "AlertDetail"@,
        fields: seq![
            FieldV { name: "display_name"@, convention: ConvV::Camel, ty: ModelV::Primitive(PrimitiveKind::Text), required: true },
            FieldV { name: "severity"@, convention: ConvV::Camel, ty: severity_model_v(), required: true },
        ],
    }
}


pub fn alert_detail_model() -> (r: TypeModel)
    ensures
        r@ == alert_detail_model_v(),
{
    let mut fs: Vec<FieldDef> = Vec::new();
    fs.push(fd_camel("display_name", TypeModel::Primitive(PrimitiveKind::Text), true));
    fs.push(fd_camel("severity", severity_model(), true));
    let ghost gf = fs@;
    let r = struct_model("AlertDetail", fs);
    proof {
        assert(fview_seq(gf) =~= seq![
            FieldV { name: "display_name"@, convention: ConvV::Camel, ty: ModelV::Primitive(PrimitiveKind::Text), required: true },
            FieldV { name: "severity"@, convention: ConvV::Camel, ty: severity_model_v(), required: true },
        ]);
        assert(r@ == alert_detail_model_v());
    }
    r
}

pub open spec fn entity_mapping_model_v() -> ModelV {
    ModelV::Struct {
        name: "EntityMapping"@,
        fields: seq![
            FieldV { name: "entity_type"@, convention: ConvV::Camel, ty: entity_type_model_v(), required: true },
            FieldV { name: "field_mappings"@, convention: ConvV::Camel, ty: ModelV::List(seq![field_mapping_model_v()]), required: true },
        ],
    }
}


pub fn entity_mapping_model() -> (r: TypeModel)
    ensures
        r@ == entity_mapping_model_v(),
{
    let mut fs: Vec<FieldDef> = Vec::new();
    fs.push(fd_camel("entity_type", entity_type_model(), true));
    fs.push(fd_camel("field_mappings", list_of(field_mapping_model()), true));
    let ghost gf = fs@;
    let r = struct_model("EntityMapping", fs);
    proof {
        assert(fview_seq(gf) =~= seq![
            FieldV { name: "entity_type"@, convention: ConvV::Camel, ty: entity_type_model_v(), required: true },
            FieldV { name: "field_mappings"@, convention: ConvV::Camel, ty: ModelV::List(seq![field_mapping_model_v()]), required: true },
        ]);
        assert(r@ == entity_mapping_model_v());
    }
    r
}

pub open spec fn event_grouping_settings_model_v() -> ModelV {
    ModelV::Struct {
        name: "EventGroupingSettings"@,
        fields: seq![
            FieldV { name: "aggregation_kind"@, convention: ConvV::Camel, ty: aggregation_kind_model_v(), required: true },
        ],
    }
}


pub fn event_grouping_settings_model() -> (r: TypeModel)
    ensures
        r@ == event_grouping_settings_model_v(),
{
    let mut fs: Vec<FieldDef> = Vec::new();
    fs.push(fd_camel("aggregation_kind", aggregation_kind_model(), true));
    let ghost gf = fs@;
    let r = struct_model("EventGroupingSettings", fs);
    proof {
        assert(fview_seq(gf) =~= seq![
            FieldV { name: "aggregation_kind"@, convention: ConvV::Camel, ty: aggregation_kind_model_v(), required: true },
        ]);
        assert(r@ == event_grouping_settings_model_v());
    }
    r
}

pub open spec fn grouping_configuration_model_v() -> ModelV {
    ModelV::Struct {
        name: "GroupingConfiguration"@,
        fields: seq![
            FieldV { name: "enabled"@, convention: ConvV::Camel, ty: ModelV::Primitive(PrimitiveKind::Boolean), required: true },
            FieldV { name: "group_by_alert_details"@, convention: ConvV::Camel, ty: ModelV::List(seq![alert_detail_model_v()]), required: true },
            FieldV { name: "group_by_custom_details"@, convention: ConvV::Camel, ty: ModelV::List(seq![ModelV::Primitive(PrimitiveKind::Text)]), required: true },
            FieldV { name: "group_by_entities"@, convention: ConvV::Camel, ty: ModelV::List(seq![entity_type_model_v()]), required: true },
            FieldV { name: "lookback_duration"@, convention: ConvV::Camel, ty: ModelV::Primitive(PrimitiveKind::Text), required: true },
            FieldV { name: "matching_method"@, convention: ConvV::Camel, ty: matching_method_model_v(), required: true },
            FieldV { name: "reopen_closed_incident"@, convention: ConvV::Camel, ty: ModelV::Primitive(PrimitiveKind::Boolean), required: true },
        ],
    }
}


pub fn grouping_configuration_model() -> (r: TypeModel)
    ensures
        r@ == grouping_configuration_model_v(),
{
    let mut fs: Vec<FieldDef> = Vec::new();
    fs.push(fd_camel("enabled", TypeModel::Primitive(PrimitiveKind::Boolean), true));
    fs.push(fd_camel("group_by_alert_details", list_of(alert_detail_model()), true));
    fs.push(fd_camel("group_by_custom_details", list_of(TypeModel::Primitive(PrimitiveKind::Text)), true));
    fs.push(fd_camel("group_by_entities", list_of(entity_type_model()), true));
    fs.push(fd_camel("lookback_duration", TypeModel::Primitive(PrimitiveKind::Text), true));
    fs.push(fd_camel("matching_method", matching_method_model(), true));
    fs.push(fd_camel("reopen_closed_incident", TypeModel::Primitive(PrimitiveKind::Boolean), true));
    let ghost gf = fs@;
    let r = struct_model("GroupingConfiguration", fs);
    proof {
        assert(fview_seq(gf) =~= seq![
            FieldV { name: "enabled"@, convention: ConvV::Camel, ty: ModelV::Primitive(PrimitiveKind::Boolean), required: true },
            FieldV { name: "group_by_alert_details"@, convention: ConvV::Camel, ty: ModelV::List(seq![alert_detail_model_v()]), required: true },
            FieldV { name: "group_by_custom_details"@, convention: ConvV::Camel, ty: ModelV::List(seq![ModelV::Primitive(PrimitiveKind::Text)]), required: true },
            FieldV { name: "group_by_entities"@, convention: ConvV::Camel, ty: ModelV::List(seq![entity_type_model_v()]), required: true },
            FieldV { name: "lookback_duration"@, convention: ConvV::Camel, ty: ModelV::Primitive(PrimitiveKind::Text), required: true },
            FieldV { name: "matching_method"@, convention: ConvV::Camel, ty: matching_method_model_v(), required: true },
            FieldV { name: "reopen_closed_incident"@, convention: ConvV::Camel, ty: ModelV::Primitive(PrimitiveKind::Boolean), required: true },
        ]);
        assert(r@ == grouping_configuration_model_v());
    }
    r
}

pub open spec fn incident_configuration_model_v() -> ModelV {
    ModelV::Struct {
        name: "IncidentConfiguration"@,
        fields: seq![
            FieldV { name: "create_incident"@, convention: ConvV::Camel, ty: ModelV::Primitive(PrimitiveKind::Boolean), required: true },
            FieldV { name: "grouping_configuration"@, convention: ConvV::Camel, ty: grouping_configuration_model_v(), required: true },
        ],
    }
}


pub fn incident_configuration_model() -> (r: TypeModel)
    ensures
        r@ == incident_configuration_model_v(),
{
    let mut fs: Vec<FieldDef> = Vec::new();
    fs.push(fd_camel("create_incident", TypeModel::Primitive(PrimitiveKind::Boolean), true));
    fs.push(fd_camel("grouping_configuration", grouping_configuration_model(), true));
    let ghost gf = fs@;
    let r = struct_model("IncidentConfiguration", fs);
    proof {
        assert(fview_seq(gf) =~= seq![
            FieldV { name: "create_incident"@, convention: ConvV::Camel, ty: ModelV::Primitive(PrimitiveKind::Boolean), required: true },
            FieldV { name: "grouping_configuration"@, convention: ConvV::Camel, ty: grouping_configuration_model_v(), required: true },
        ]);
        assert(r@ == incident_configuration_model_v());
    }
    r
}

pub open spec fn rule_properties_model_v() -> ModelV {
    ModelV::Struct {
        name: "Properties"@,
        fields: seq![
            FieldV { name: "display_name"@, convention: ConvV::Camel, ty: ModelV::Primitive(PrimitiveKind::Text), required: true },
            FieldV { name: "enabled"@, convention: ConvV::Camel, ty: ModelV::Primitive(PrimitiveKind::Boolean), required: true },
            FieldV { name: "query"@, convention: ConvV::Camel, ty: ModelV::Primitive(PrimitiveKind::Text), required: true },
            FieldV { name: "query_frequency"@, convention: ConvV::Camel, ty: ModelV::Primitive(PrimitiveKind::Text), required: true },
            FieldV { name: "query_period"@, convention: ConvV::Camel, ty: ModelV::Primitive(PrimitiveKind::Text), required: true },
            FieldV { name: "severity"@, convention: ConvV::Camel, ty: severity_model_v(), required: true },
            FieldV { name: "suppression_duration"@, convention: ConvV::Camel, ty: ModelV::Primitive(PrimitiveKind::Text), required: true },
            FieldV { name: "suppression_enabled"@, convention: ConvV::Camel, ty: ModelV::Primitive(PrimitiveKind::Boolean), required: true },
            FieldV { name: "trigger_operator"@, convention: ConvV::Camel, ty: trigger_operator_model_v(), required: true },
            FieldV { name: "trigger_threshold"@, convention: ConvV::Camel, ty: ModelV::Primitive(PrimitiveKind::Integer), required: true },
            FieldV { name: "alert_details_override"@, convention: ConvV::Camel, ty: alert_details_override_model_v(), required: false },
            FieldV { name: "alert_rule_template_name"@, convention: ConvV::Camel, ty: ModelV::Primitive(PrimitiveKind::Text), required: false },
            FieldV { name: "custom_details"@, convention: ConvV::Camel, ty: ModelV::Dict(seq![ModelV::Primitive(PrimitiveKind::FreeForm)]), required: false },
            FieldV { name: "description"@, convention: ConvV::Camel, ty: ModelV::Primitive(PrimitiveKind::Text), required: false },
            FieldV { name: "entity_mappings"@, convention: ConvV::Camel, ty: ModelV::List(seq![entity_mapping_model_v()]), required: false },
            FieldV { name: "event_grouping_settings"@, convention: ConvV::Camel, ty: event_grouping_settings_model_v(), required: false },
            FieldV { name: "incident_configuration"@, convention: ConvV::Camel, ty: incident_configuration_model_v(), required: false },
            FieldV { name: "tactics"@, convention: ConvV::Camel, ty: ModelV::List(seq![attack_tactic_model_v()]), required: false },
            FieldV { name: "techniques"@, convention: ConvV::Camel, ty: ModelV::List(seq![ModelV::Primitive(PrimitiveKind::Text)]), required: false },
            FieldV { name: "template_version"@, convention: ConvV::Camel, ty: ModelV::Primitive(PrimitiveKind::Text), required: false },
        ],
    }
}

#[verifier::rlimit(50)]
pub fn rule_properties_model() -> (r: TypeModel)
    ensures
        r@ == rule_properties_model_v(),
{
    let mut fs: Vec<FieldDef> = Vec::new();
    fs.push(fd_camel("display_name", TypeModel::Primitive(PrimitiveKind::Text), true));
    fs.push(fd_camel("enabled", TypeModel::Primitive(PrimitiveKind::Boolean), true));
    fs.push(fd_camel("query", TypeModel::Primitive(PrimitiveKind::Text), true));
    fs.push(fd_camel("query_frequency", TypeModel::Primitive(PrimitiveKind::Text), true));
    fs.push(fd_camel("query_period", TypeModel::Primitive(PrimitiveKind::Text), true));
    fs.push(fd_camel("severity", severity_model(), true));
    fs.push(fd_camel("suppression_duration", TypeModel::Primitive(PrimitiveKind::Text), true));
    fs.push(fd_camel("suppression_enabled", TypeModel::Primitive(PrimitiveKind::Boolean), true));
    fs.push(fd_camel("trigger_operator", trigger_operator_model(), true));
    fs.push(fd_camel("trigger_threshold", TypeModel::Primitive(PrimitiveKind::Integer), true));
    fs.push(fd_camel("alert_details_override", alert_details_override_model(), false));
    fs.push(fd_camel("alert_rule_template_name", TypeModel::Primitive(PrimitiveKind::Text), false));
    fs.push(fd_camel("custom_details", dict_of(TypeModel::Primitive(PrimitiveKind::FreeForm)), false));
    fs.push(fd_camel("description", TypeModel::Primitive(PrimitiveKind::Text), false));
    fs.push(fd_camel("entity_mappings", list_of(entity_mapping_model()), false));
    fs.push(fd_camel("event_grouping_settings", event_grouping_settings_model(), false));
    fs.push(fd_camel("incident_configuration", incident_configuration_model(), false));
    fs.push(fd_camel("tactics", list_of(attack_tactic_model()), false));
    fs.push(fd_camel("techniques", list_of(TypeModel::Primitive(PrimitiveKind::Text)), false));
    fs.push(fd_camel("template_version", TypeModel::Primitive(PrimitiveKind::Text), false));
    let ghost gf = fs@;
    let r = struct_model("Properties", fs);
    proof {
        assert(fview_seq(gf) =~= seq![
            FieldV { name: "display_name"@, convention: ConvV::Camel, ty: ModelV::Primitive(PrimitiveKind::Text), required: true },
            FieldV { name: "enabled"@, convention: ConvV::Camel, ty: ModelV::Primitive(PrimitiveKind::Boolean), required: true },
            FieldV { name: "query"@, convention: ConvV::Camel, ty: ModelV::Primitive(PrimitiveKind::Text), required: true },
            FieldV { name: "query_frequency"@, convention: ConvV::Camel, ty: ModelV::Primitive(PrimitiveKind::Text), required: true },
            FieldV { name: "query_period"@, convention: ConvV::Camel, ty: ModelV::Primitive(PrimitiveKind::Text), required: true },
            FieldV { name: "severity"@, convention: ConvV::Camel, ty: severity_model_v(), required: true },
            FieldV { name: "suppression_duration"@, convention: ConvV::Camel, ty: ModelV::Primitive(PrimitiveKind::Text), required: true },
            FieldV { name: "suppression_enabled"@, convention: ConvV::Camel, ty: ModelV::Primitive(PrimitiveKind::Boolean), required: true },
            FieldV { name: "trigger_operator"@, convention: ConvV::Camel, ty: trigger_operator_model_v(), required: true },
            FieldV { name: "trigger_threshold"@, convention: ConvV::Camel, ty: ModelV::Primitive(PrimitiveKind::Integer), required: true },
            FieldV { name: "alert_details_override"@, convention: ConvV::Camel, ty: alert_details_override_model_v(), required: false },
            FieldV { name: "alert_rule_template_name"@, convention: ConvV::Camel, ty: ModelV::Primitive(PrimitiveKind::Text), required: false },
            FieldV { name: "custom_details"@, convention: ConvV::Camel, ty: ModelV::Dict(seq![ModelV::Primitive(PrimitiveKind::FreeForm)]), required: false },
            FieldV { name: "description"@, convention: ConvV::Camel, ty: ModelV::Primitive(PrimitiveKind::Text), required: false },
            FieldV { name: "entity_mappings"@, convention: ConvV::Camel, ty: ModelV::List(seq![entity_mapping_model_v()]), required: false },
            FieldV { name: "event_grouping_settings"@, convention: ConvV::Camel, ty: event_grouping_settings_model_v(), required: false },
            FieldV { name: "incident_configuration"@, convention: ConvV::Camel, ty: incident_configuration_model_v(), required: false },
            FieldV { name: "tactics"@, convention: ConvV::Camel, ty: ModelV::List(seq![attack_tactic_model_v()]), required: false },
            FieldV { name: "techniques"@, convention: ConvV::Camel, ty: ModelV::List(seq![ModelV::Primitive(PrimitiveKind::Text)]), required: false },
            FieldV { name: "template_version"@, convention: ConvV::Camel, ty: ModelV::Primitive(PrimitiveKind::Text), required: false },
        ]);
        assert(r@ == rule_properties_model_v());
    }
    r
}

pub open spec fn analytic_rule_spec_model_v() -> ModelV {
    ModelV::Struct {
        name: "MicrosoftSentinelAnalyticRuleSpec"@,
        fields: seq![
            FieldV { name: "properties"@, convention: ConvV::Camel, ty: rule_properties_model_v(), required: true },
            FieldV { name: "kind"@, convention: ConvV::Camel, ty: ModelV::Primitive(PrimitiveKind::Text), required: false },
        ],
    }
}


pub fn analytic_rule_spec_model() -> (r: TypeModel)
    ensures
        r@ == analytic_rule_spec_model_v(),
{
    let mut fs: Vec<FieldDef> = Vec::new();
    fs.push(fd_camel("properties", rule_properties_model(), true));
    fs.push(fd_camel("kind", TypeModel::Primitive(PrimitiveKind::Text), false));
    let ghost gf = fs@;
    let r = struct_model("MicrosoftSentinelAnalyticRuleSpec", fs);
    proof {
        assert(fview_seq(gf) =~= seq![
            FieldV { name: "properties"@, convention: ConvV::Camel, ty: rule_properties_model_v(), required: true },
            FieldV { name: "kind"@, convention: ConvV::Camel, ty: ModelV::Primitive(PrimitiveKind::Text), required: false },
        ]);
        assert(r@ == analytic_rule_spec_model_v());
    }
    r
}

pub open spec fn create_analytic_rule_status_properties_model_v() -> ModelV {
    ModelV::Struct {
        name: "CreateAnalyticRuleStatusProperties"@,
        fields: seq![
            FieldV { name: "message"@, convention: ConvV::Rename("message"@), ty: ModelV::Primitive(PrimitiveKind::Text), required: true },
            FieldV { name: "deployed"@, convention: ConvV::Rename("deployed"@), ty: ModelV::Primitive(PrimitiveKind::Text), required: true },
            FieldV { name: "enabled"@, convention: ConvV::Rename("enabled"@), ty: ModelV::Primitive(PrimitiveKind::Text), required: true },
            FieldV { name: "rule_type"@, convention: ConvV::Rename("rule_type"@), ty: ModelV::Primitive(PrimitiveKind::Text), required: true },
        ],
    }
}


pub fn create_analytic_rule_status_properties_model() -> (r: TypeModel)
    ensures
        r@ == create_analytic_rule_status_properties_model_v(),
{
    let mut fs: Vec<FieldDef> = Vec::new();
    fs.push(fd_verbatim("message", TypeModel::Primitive(PrimitiveKind::Text), true));
    fs.push(fd_verbatim("deployed", TypeModel::Primitive(PrimitiveKind::Text), true));
    fs.push(fd_verbatim("enabled", TypeModel::Primitive(PrimitiveKind::Text), true));
    fs.push(fd_verbatim("rule_type", TypeModel::Primitive(PrimitiveKind::Text), true));
    let ghost gf = fs@;
    let r = struct_model("CreateAnalyticRuleStatusProperties", fs);
    proof {
        assert(fview_seq(gf) =~= seq![
            FieldV { name: "message"@, convention: ConvV::Rename("message"@), ty: ModelV::Primitive(PrimitiveKind::Text), required: true },
            FieldV { name: "deployed"@, convention: ConvV::Rename("deployed"@), ty: ModelV::Primitive(PrimitiveKind::Text), required: true },
            FieldV { name: "enabled"@, convention: ConvV::Rename("enabled"@), ty: ModelV::Primitive(PrimitiveKind::Text), required: true },
            FieldV { name: "rule_type"@, convention: ConvV::Rename("rule_type"@), ty: ModelV::Primitive(PrimitiveKind::Text), required: true },
        ]);
        assert(r@ == create_analytic_rule_status_properties_model_v());
    }
    r
}

pub open spec fn analytic_crd_name_model_v() -> ModelV {
    ModelV::Enum {
        name: "CRDName"@,
        variants: seq![
            VariantV { name: "MicrosoftSentinelAnalyticRule"@, convention: ConvV::Rename("MicrosoftSentinelAnalyticRule"@) },
        ],
    }
}


pub fn analytic_crd_name_model() -> (r: TypeModel)
    ensures
        r@ == analytic_crd_name_model_v(),
{
    let mut vs: Vec<VariantDef> = Vec::new();
    vs.push(vd_verbatim("MicrosoftSentinelAnalyticRule"));
    let ghost gv = vs@;
    let r = enum_model("CRDName", vs);
    proof {
        assert(gv.map_values(|v: VariantDef| vview(v)) =~= seq![
            VariantV { name: "MicrosoftSentinelAnalyticRule"@, convention: ConvV::Rename("MicrosoftSentinelAnalyticRule"@) },
        ]);
        assert(r@ == analytic_crd_name_model_v());
    }
    r
}

pub open spec fn analytic_api_version_model_v() -> ModelV {
    ModelV::Enum {
        name: "APIVersion"@,
        variants: seq![
            VariantV { name: "BuildrLabs"@, convention: ConvV::Rename("buildrlabs.io/v1"@) },
        ],
    }
}


pub fn analytic_api_version_model() -> (r: TypeModel)
    ensures
        r@ == analytic_api_version_model_v(),
{
    let mut vs: Vec<VariantDef> = Vec::new();
    vs.push(vd_renamed("BuildrLabs", "buildrlabs.io/v1"));
    let ghost gv = vs@;
    let r = enum_model("APIVersion", vs);
    proof {
        assert(gv.map_values(|v: VariantDef| vview(v)) =~= seq![
            VariantV { name: "BuildrLabs"@, convention: ConvV::Rename("buildrlabs.io/v1"@) },
        ]);
        assert(r@ == analytic_api_version_model_v());
    }
    r
}

pub open spec fn analytic_metadata_model_v() -> ModelV {
    ModelV::Struct {
        name: "Metadata"@,
        fields: seq![
            FieldV { name: "name"@, convention: ConvV::Camel, ty: ModelV::Primitive(PrimitiveKind::Text), required: true },
            FieldV { name: "namespace"@, convention: ConvV::Camel, ty: ModelV::Primitive(PrimitiveKind::Text), required: false },
            FieldV { name: "additional_properties"@, convention: ConvV::Camel, ty: ModelV::PassThrough, required: false },
        ],
    }
}


pub fn analytic_metadata_model() -> (r: TypeModel)
    ensures
        r@ == analytic_metadata_model_v(),
{
    let mut fs: Vec<FieldDef> = Vec::new();
    fs.push(fd_camel("name", TypeModel::Primitive(PrimitiveKind::Text), true));
    fs.push(fd_camel("namespace", TypeModel::Primitive(PrimitiveKind::Text), false));
    fs.push(fd_camel("additional_properties", TypeModel::PassThrough, false));
    let ghost gf = fs@;
    let r = struct_model("Metadata", fs);
    proof {
        assert(fview_seq(gf) =~= seq![
            FieldV { name: "name"@, convention: ConvV::Camel, ty: ModelV::Primitive(PrimitiveKind::Text), required: true },
            FieldV { name: "namespace"@, convention: ConvV::Camel, ty: ModelV::Primitive(PrimitiveKind::Text), required: false },
            FieldV { name: "additional_properties"@, convention: ConvV::Camel, ty: ModelV::PassThrough, required: false },
        ]);
        assert(r@ == analytic_metadata_model_v());
    }
    r
}

pub open spec fn analytic_rule_crd_model_v() -> ModelV {
    ModelV::Struct {
        name: "MicrosoftSentinelAnalyticRuleCRD"@,
        fields: seq![
            FieldV { name: "kind"@, convention: ConvV::Camel, ty: analytic_crd_name_model_v(), required: true },
            FieldV { name: "spec"@, convention: ConvV::Camel, ty: analytic_rule_spec_model_v(), required: true },
            FieldV { name: "api_version"@, convention: ConvV::Camel, ty: analytic_api_version_model_v(), required: true },
            FieldV { name: "metadata"@, convention: ConvV::Camel, ty: analytic_metadata_model_v(), required: true },
        ],
    }
}


pub fn analytic_rule_crd_model() -> (r: TypeModel)
    ensures
        r@ == analytic_rule_crd_model_v(),
{
    let mut fs: Vec<FieldDef> = Vec::new();
    fs.push(fd_camel("kind", analytic_crd_name_model(), true));
    fs.push(fd_camel("spec", analytic_rule_spec_model(), true));
    fs.push(fd_camel("api_version", analytic_api_version_model(), true));
    fs.push(fd_camel("metadata", analytic_metadata_model(), true));
    let ghost gf = fs@;
    let r = struct_model("MicrosoftSentinelAnalyticRuleCRD", fs);
    proof {
        assert(fview_seq(gf) =~= seq![
            FieldV { name: "kind"@, convention: ConvV::Camel, ty: analytic_crd_name_model_v(), required: true },
            FieldV { name: "spec"@, convention: ConvV::Camel, ty: analytic_rule_spec_model_v(), required: true },
            FieldV { name: "api_version"@, convention: ConvV::Camel, ty: analytic_api_version_model_v(), required: true },
            FieldV { name: "metadata"@, convention: ConvV::Camel, ty: analytic_metadata_model_v(), required: true },
        ]);
        assert(r@ == analytic_rule_crd_model_v());
    }
    r
}

pub open spec fn analytic_rule_status_model_v() -> ModelV {
    ModelV::Struct {
        name: "MicrosoftSentinelAnalyticRuleStatus"@,
        fields: seq![
            FieldV { name: "create_analytic_rule"@, convention: ConvV::Rename("create_analytic_rule"@), ty: create_analytic_rule_status_properties_model_v(), required: true },
        ],
    }
}


pub fn analytic_rule_status_model() -> (r: TypeModel)
    ensures
        r@ == analytic_rule_status_model_v(),
{
    let mut fs: Vec<FieldDef> = Vec::new();
    fs.push(fd_verbatim("create_analytic_rule", create_analytic_rule_status_properties_model(), true));
    let ghost gf = fs@;
    let r = struct_model("MicrosoftSentinelAnalyticRuleStatus", fs);
    proof {
        assert(fview_seq(gf) =~= seq![
            FieldV { name: "create_analytic_rule"@, convention: ConvV::Rename("create_analytic_rule"@), ty: create_analytic_rule_status_properties_model_v(), required: true },
        ]);
        assert(r@ == analytic_rule_status_model_v());
    }
    r
}

pub open spec fn analytic_rule_descriptor_v() -> DescV {
    DescV {
        group: "buildrlabs.io"@,
        version: "v1"@,
        kind: "MicrosoftSentinelAnalyticRule"@,
        plural: "microsoftsentinelanalyticrules"@,
        singular: "microsoftsentinelanalyticrule"@,
        namespaced: true,
        short_names: seq!["msanalytic"@, "msanalytics"@, "msanalyticrule"@, "msanalyticrules"@],
        printer_columns: seq![
            PrinterColumnV { name: "Status"@, col_type: "string"@, description: "Checks if the Detection Rule is deployed to Microsoft Sentinel"@, json_path: ".status.create_analytic_rule.deployed"@ },
            PrinterColumnV { name: "Enabled"@, col_type: "string"@, description: "Checks if the Detection Rule is enabled in Microsoft Sentinel"@, json_path: ".status.create_analytic_rule.enabled"@ },
            PrinterColumnV { name: "Message"@, col_type: "string"@, description: "Additional information about the deployment status"@, json_path: ".status.create_analytic_rule.message"@ },
            PrinterColumnV { name: "Rule type"@, col_type: "string"@, description: "The type of Microsoft Sentinel Detection Rule"@, json_path: ".status.create_analytic_rule.rule_type"@ },
        ],
        status_subresource: true,
    }
}

pub fn analytic_rule_descriptor() -> (r: CrdDescriptor)
    ensures
        r@ == analytic_rule_descriptor_v(),
{
    let mut sn: Vec<String> = Vec::new();
    sn.push(text("msanalytic"));
    sn.push(text("msanalytics"));
    sn.push(text("msanalyticrule"));
    sn.push(text("msanalyticrules"));
    let mut pc: Vec<PrinterColumn> = Vec::new();
    pc.push(PrinterColumn {
        name: text("Status"),
        col_type: text("string"),
        description: text("Checks if the Detection Rule is deployed to Microsoft Sentinel"),
        json_path: text(".status.create_analytic_rule.deployed"),
    });
    pc.push(PrinterColumn {
        name: text("Enabled"),
        col_type: text("string"),
        description: text("Checks if the Detection Rule is enabled in Microsoft Sentinel"),
        json_path: text(".status.create_analytic_rule.enabled"),
    });
    pc.push(PrinterColumn {
        name: text("Message"),
        col_type: text("string"),
        description: text("Additional information about the deployment status"),
        json_path: text(".status.create_analytic_rule.message"),
    });
    pc.push(PrinterColumn {
        name: text("Rule type"),
        col_type: text("string"),
        description: text("The type of Microsoft Sentinel Detection Rule"),
        json_path: text(".status.create_analytic_rule.rule_type"),
    });
    let ghost gs = sn@;
    let ghost gp = pc@;
    let r = CrdDescriptor {
        group: text("buildrlabs.io"),
        version: text("v1"),
        kind: text("MicrosoftSentinelAnalyticRule"),
        plural: text("microsoftsentinelanalyticrules"),
        singular: text("microsoftsentinelanalyticrule"),
        namespaced: true,
        short_names: sn,
        printer_columns: pc,
        status_subresource: true,
    };
    proof {
        assert(r@.short_names =~= analytic_rule_descriptor_v().short_names);
        assert(r@.printer_columns =~= analytic_rule_descriptor_v().printer_columns);
        assert(r@ == analytic_rule_descriptor_v());
    }
    r
}

/// This resource's finished artifacts, in a fixed order. Each artifact
/// is produced independently; the first failure is reported.
pub fn artifacts() -> (r: Result<Vec<Artifact>, BuildError>)
    ensures
        r matches Ok(arts) ==> {
            &&& arts@.len() == 2
            &&& (crd_doc(analytic_rule_descriptor_v(), analytic_rule_spec_model_v(), Some(analytic_rule_status_model_v())) matches Ok(man)
                && arts@[0]@ == (ArtifactV {
                group: "crds"@,
                name: "MicrosoftSentinelAnalyticRule"@,
                contents: yaml_text(man),
            }))
            &&& (synth(analytic_rule_crd_model_v()) matches Ok(w) && arts@[1]@
                == (ArtifactV {
                group: "jsonschema"@,
                name: "MicrosoftSentinelAnalyticRuleCRD"@,
                contents: json_pretty_text(w),
            }))
        },
        ({
            let doc = crd_doc(analytic_rule_descriptor_v(), analytic_rule_spec_model_v(), Some(analytic_rule_status_model_v()));
            &&& (({
                &&& doc matches Ok(man)
                &&& yaml_renders(man)
                &&& (synth(analytic_rule_crd_model_v()) matches Ok(w0) && json_renders(w0))
            }) ==> r is Ok)
            &&& (r matches Err(e) ==> {
                ||| doc == Err::<JsonV, ErrV>(e@)
                ||| (doc matches Ok(man) && !yaml_renders(man) && e@ is ArtifactWrite)
                ||| synth(analytic_rule_crd_model_v()) == Err::<JsonV, ErrV>(e@)
                ||| (synth(analytic_rule_crd_model_v()) matches Ok(w0) && !json_renders(w0) && e@ is ArtifactWrite)
            })
        }),
{
    let d0 = analytic_rule_descriptor();
    let sm0 = analytic_rule_spec_model();
    let st0 = analytic_rule_status_model();
    let a0 = match crd_yaml_artifact("MicrosoftSentinelAnalyticRule", &d0, &sm0, Some(&st0)) {
        Ok(a) => a,
        Err(e) => {
            return Err(e);
        },
    };
    let m1 = analytic_rule_crd_model();
    let a1 = match schema_json_artifact("MicrosoftSentinelAnalyticRuleCRD", &m1) {
        Ok(a) => a,
        Err(e) => {
            return Err(e);
        },
    };
    let mut out: Vec<Artifact> = Vec::new();
    out.push(a0);
    out.push(a1);
    Ok(out)
}

} // verus!
