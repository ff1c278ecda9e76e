//! The Microsoft Sentinel automation rule resource: triggering logic
//! over incident conditions, and ordered response actions, published as
//! a pass-through CRD and as standalone JSON Schemas.
//!
//! Conditions nest (a boolean condition holds further conditions). The
//! type model is a finite tree, so the nesting is unrolled to a fixed
//! depth: two levels of conditions are fully described, and conditions
//! below that depth are accepted as free-form values.
use vstd::prelude::*;

use crate::crd::CrdDescriptor;
use crate::crd::DescV;
use crate::crd::PrinterColumn;
use crate::crd::PrinterColumnV;
use crate::errors::BuildError;
use crate::errors::ErrV;
use crate::json::JsonV;
use crate::model::FieldDef;
use crate::model::FieldV;
use crate::model::ModelV;
use crate::model::PrimitiveKind;
use crate::model::TypeModel;
use crate::model::UnionVariant;
use crate::model::UnionVariantV;
use crate::model::VariantDef;
use crate::model::VariantV;
use crate::model::enum_model;
use crate::model::fd_camel;
use crate::model::fd_verbatim;
use crate::model::fview_seq;
use crate::model::list_of;
use crate::model::struct_model;
use crate::model::text;
use crate::model::union_model;
use crate::model::uv_struct;
use crate::model::uview_seq;
use crate::model::vd_renamed;
use crate::model::vd_verbatim;
use crate::model::vview;
use crate::naming::ConvV;
use crate::pipeline::Artifact;
use crate::pipeline::ArtifactV;
use crate::pipeline::crd_doc;
use crate::pipeline::crd_yaml_artifact;
use crate::pipeline::schema_json_artifact;
use crate::synth::synth;
use crate::emit::json_pretty_text;
use crate::emit::json_renders;
use crate::emit::yaml_renders;
use crate::emit::yaml_text;

verus! {

broadcast use
    vstd::seq::axiom_seq_index_decreases,
    vstd::std_specs::vec::axiom_vec_index_decreases,
    vstd::std_specs::vec::axiom_vec_decreases_to_view,
    crate::model::lemma_fview_seq,
    crate::model::lemma_uview_seq;

/// Who attached a label to an incident.
#[derive(Debug, Clone, Copy, PartialEq, Eq)]
pub enum LabelType {
    AutoAssigned,
    User,
}

/// The closing classification of an incident.
#[derive(Debug, Clone, Copy, PartialEq, Eq)]
pub enum IncidentClassification {
    BenignPositive,
    FalsePositive,
    TruePositive,
    Undetermined,
}

/// An incident's severity.
#[derive(Debug, Clone, Copy, PartialEq, Eq)]
pub enum IncidentSeverity {
    High,
    Medium,
    Low,
    Informational,
}

/// An incident's lifecycle state.
#[derive(Debug, Clone, Copy, PartialEq, Eq)]
pub enum IncidentStatus {
    Active,
    Closed,
    New,
}

/// What kind of principal owns an incident.
#[derive(Debug, Clone, Copy, PartialEq, Eq)]
pub enum OwnerType {
    Group,
    Unknown,
    User,
}

/// Why an incident was classified as it was.
#[derive(Debug, Clone, Copy, PartialEq, Eq)]
pub enum IncidentClassificationReason {
    InaccurateData,
    IncorrectAlertLogic,
    SuspiciousActivity,
    SuspiciousButExpected,
}

/// Which object kind triggers the rule.
#[derive(Debug, Clone, Copy, PartialEq, Eq)]
pub enum TriggersOn {
    Incidents,
    Alerts,
}

/// Which lifecycle event triggers the rule.
#[derive(Debug, Clone, Copy, PartialEq, Eq)]
pub enum TriggersWhen {
    Created,
    Updated,
}

/// How inner conditions combine.
#[derive(Debug, Clone, Copy, PartialEq, Eq)]
pub enum BooleanConditionSupportedOperator {
    And,
    Or,
}

/// The incident arrays a change condition can watch.
#[derive(Debug, Clone, Copy, PartialEq, Eq)]
pub enum PropertyArrayChangedConditionSupportedArrayType {
    Alerts,
    Comments,
    Labels,
    Tactics,
}

/// The array changes a change condition can watch.
#[derive(Debug, Clone, Copy, PartialEq, Eq)]
pub enum PropertyArrayChangedConditionSupportedChangeType {
    Added,
}

/// The arrays an array condition can inspect.
#[derive(Debug, Clone, Copy, PartialEq, Eq)]
pub enum ArrayConditionSupportedArrayType {
    CustomDetailValues,
    CustomDetails,
}

/// How an array condition applies to the array's items.
#[derive(Debug, Clone, Copy, PartialEq, Eq)]
pub enum PropertyArrayConditionSupportedArrayConditionType {
    AnyItem,
}

/// The incident and entity properties a condition can inspect.
#[derive(Debug, Clone, Copy, PartialEq, Eq)]
pub enum PropertyConditionSupportedProperty {
    AccountAadTenantId,
    AccountAadUserId,
    AccountNTDomain,
    AccountName,
    AccountObjectGuid,
    AccountPUID,
    AccountSid,
    AccountUPNSuffix,
    AlertAnalyticRuleIds,
    AlertProductNames,
    AzureResourceResourceId,
    AzureResourceSubscriptionId,
    CloudApplicationAppId,
    CloudApplicationAppName,
    DNSDomainName,
    FileDirectory,
    FileHashValue,
    FileName,
    HostAzureID,
    HostNTDomain,
    HostName,
    HostNetBiosName,
    HostOSVersion,
    IPAddress,
    IncidentCustomDetailsKey,
    IncidentCustomDetailsValue,
    IncidentDescription,
    IncidentLabel,
    IncidentProviderName,
    IncidentRelatedAnalyticRuleIds,
    IncidentSeverity,
    IncidentStatus,
    IncidentTactics,
    IncidentTitle,
    IncidentUpdatedBySource,
    IoTDeviceId,
    IoTDeviceModel,
    IoTDeviceName,
    IoTDeviceOperatingSystem,
    IoTDeviceType,
    IoTDeviceVendor,
    MailMessageDeliveryAction,
    MailMessageDeliveryLocation,
    MailMessageP1Sender,
    MailMessageP2Sender,
    MailMessageRecipient,
    MailMessageSenderIP,
    MailMessageSubject,
    MailboxDisplayName,
    MailboxPrimaryAddress,
    MailboxUPN,
    MalwareCategory,
    MalwareName,
    ProcessCommandLine,
    ProcessId,
    RegistryKey,
    RegistryValueData,
    Url,
}

/// How a property change condition compares states.
#[derive(Debug, Clone, Copy, PartialEq, Eq)]
pub enum PropertyChangedConditionSupportedChangedType {
    ChangedFrom,
    ChangedTo,
}

/// How a property condition compares values.
#[derive(Debug, Clone, Copy, PartialEq, Eq)]
pub enum PropertyConditionSupportedOperator {
    Contains,
    EndsWith,
    Equals,
    NotContains,
    NotEndsWith,
    NotEquals,
    NotStartsWith,
    StartsWith,
}

/// The incident properties a change condition can watch.
#[derive(Debug, Clone, Copy, PartialEq, Eq)]
pub enum PropertyChangedConditionSupportedPropertyType {
    IncidentOwner,
    IncidentSeverity,
    IncidentStatus,
}

/// A single property comparison.
#[derive(Debug, PartialEq)]
pub struct PropertyCondition {
    pub operator: PropertyConditionSupportedOperator,
    pub property_name: PropertyConditionSupportedProperty,
    pub property_values: Vec<String>,
}

/// A condition over the items of an incident array.
#[derive(Debug, PartialEq)]
pub struct PropertyArrayValuesCondition {
    pub array_condition_type: PropertyArrayConditionSupportedArrayConditionType,
    pub array_type: ArrayConditionSupportedArrayType,
    pub item_conditions: Vec<Condition>,
}

/// A boolean combination of further conditions.
#[derive(Debug, PartialEq)]
pub struct BooleanCondition {
    pub operator: BooleanConditionSupportedOperator,
    pub inner_conditions: Vec<Condition>,
}

/// A condition on a change to an incident array.
#[derive(Debug, PartialEq)]
pub struct PropertyArrayChangedCondition {
    pub array_type: PropertyArrayChangedConditionSupportedArrayType,
    pub change_type: PropertyArrayChangedConditionSupportedChangeType,
}

/// A condition on a change to an incident property.
#[derive(Debug, PartialEq)]
pub struct PropertyChangedCondition {
    pub change_type: PropertyChangedConditionSupportedChangedType,
    pub propery_name: PropertyChangedConditionSupportedPropertyType,
    pub operator: PropertyConditionSupportedOperator,
    pub property_values: Vec<String>,
}

/// One triggering condition; the discriminator selects the variant.
#[derive(Debug, PartialEq)]
pub enum Condition {
    BooleanCondition { condition_properties: BooleanCondition },
    PropertyArrayChangedCondition { condition_properties: PropertyArrayChangedCondition },
    PropertyChangedCondition { condition_properties: PropertyChangedCondition },
    PropertyArrayCondition { condition_properties: PropertyArrayValuesCondition },
    PropertyCondition { condition_properties: PropertyCondition },
}

/// Who an incident is assigned to.
#[derive(Debug, PartialEq)]
pub struct IncidentOwnerInfo {
    pub assigned_to: String,
    pub email: String,
    pub object_id: String,
    pub owner_type: OwnerType,
    pub user_principal_name: String,
}

/// A label attached to an incident.
#[derive(Debug, PartialEq)]
pub struct IncidentLabel {
    pub label_name: String,
    pub label_type: Option<LabelType>,
}

/// The incident fields a modify-properties action may set.
#[derive(Debug, PartialEq)]
pub struct IncidentPropertiesActionProperties {
    pub classification: Option<IncidentClassification>,
    pub classification_comment: Option<String>,
    pub classification_reason: Option<IncidentClassificationReason>,
    pub labels: Option<Vec<IncidentLabel>>,
    pub owner: Option<IncidentOwnerInfo>,
    pub severity: Option<IncidentSeverity>,
    pub status: Option<IncidentStatus>,
}

/// The playbook a run-playbook action invokes.
#[derive(Debug, PartialEq)]
pub struct PlaybookActionProperties {
    pub logic_app_resource_id: String,
    pub tenant_id: String,
}

/// The task an add-incident-task action creates.
#[derive(Debug, PartialEq)]
pub struct AddIncidentTaskActionProperties {
    pub description: String,
    pub title: String,
}

/// When the rule runs and on what.
#[derive(Debug, PartialEq)]
pub struct TriggeringLogic {
    pub conditions: Vec<Condition>,
    pub expiration_time_utc: String,
    pub is_enabled: bool,
    pub triggers_on: TriggersOn,
    pub triggers_when: TriggersWhen,
}

/// One response action; the discriminator selects the variant.
#[derive(Debug, PartialEq)]
pub enum Action {
    AddIncidentTagAction { action_configuration: AddIncidentTaskActionProperties, order: i64 },
    RunPlaybookAction { action_configuration: PlaybookActionProperties, order: i64 },
    ModifyPropertiesAction { action_configuration: IncidentPropertiesActionProperties, order: i64 },
}

pub open spec fn label_type_model_v() -> ModelV {
    ModelV::Enum {
        name: "LabelType"@,
        variants: seq![
            VariantV { name: "AutoAssigned"@, convention: ConvV::Rename("AutoAssigned"@) },
            VariantV { name: "User"@, convention: ConvV::Rename("User"@) },
        ],
    }
}


pub fn label_type_model() -> (r: TypeModel)
    ensures
        r@ == label_type_model_v(),
{
    let mut vs: Vec<VariantDef> = Vec::new();
    vs.push(vd_verbatim("AutoAssigned"));
    vs.push(vd_verbatim("User"));
    let ghost gv = vs@;
    let r = enum_model("LabelType", vs);
    proof {
        assert(gv.map_values(|v: VariantDef| vview(v)) =~= seq![
            VariantV { name: "AutoAssigned"@, convention: ConvV::Rename("AutoAssigned"@) },
            VariantV { name: "User"@, convention: ConvV::Rename("User"@) },
        ]);
        assert(r@ == label_type_model_v());
    }
    r
}

pub open spec fn incident_classification_model_v() -> ModelV {
    ModelV::Enum {
        name: "IncidentClassification"@,
        variants: seq![
            VariantV { name: "BenignPositive"@, convention: ConvV::Rename("BenignPositive"@) },
            VariantV { name: "FalsePositive"@, convention: ConvV::Rename("FalsePositive"@) },
            VariantV { name: "TruePositive"@, convention: ConvV::Rename("TruePositive"@) },
            VariantV { name: "Undetermined"@, convention: ConvV::Rename("Undetermined"@) },
        ],
    }
}


pub fn incident_classification_model() -> (r: TypeModel)
    ensures
        r@ == incident_classification_model_v(),
{
    let mut vs: Vec<VariantDef> = Vec::new();
    vs.push(vd_verbatim("BenignPositive"));
    vs.push(vd_verbatim("FalsePositive"));
    vs.push(vd_verbatim("TruePositive"));
    vs.push(vd_verbatim("Undetermined"));
    let ghost gv = vs@;
    let r = enum_model("IncidentClassification", vs);
    proof {
        assert(gv.map_values(|v: VariantDef| vview(v)) =~= seq![
            VariantV { name: "BenignPositive"@, convention: ConvV::Rename("BenignPositive"@) },
            VariantV { name: "FalsePositive"@, convention: ConvV::Rename("FalsePositive"@) },
            VariantV { name: "TruePositive"@, convention: ConvV::Rename("TruePositive"@) },
            VariantV { name: "Undetermined"@, convention: ConvV::Rename("Undetermined"@) },
        ]);
        assert(r@ == incident_classification_model_v());
    }
    r
}

pub open spec fn incident_severity_model_v() -> ModelV {
    ModelV::Enum {
        name: "IncidentSeverity"@,
        variants: seq![
            VariantV { name: "High"@, convention: ConvV::Rename("High"@) },
            VariantV { name: "Medium"@, convention: ConvV::Rename("Medium"@) },
            VariantV { name: "Low"@, convention: ConvV::Rename("Low"@) },
            VariantV { name: "Informational"@, convention: ConvV::Rename("Informational"@) },
        ],
    }
}


pub fn incident_severity_model() -> (r: TypeModel)
    ensures
        r@ == incident_severity_model_v(),
{
    let mut vs: Vec<VariantDef> = Vec::new();
    vs.push(vd_verbatim("High"));
    vs.push(vd_verbatim("Medium"));
    vs.push(vd_verbatim("Low"));
    vs.push(vd_verbatim("Informational"));
    let ghost gv = vs@;
    let r = enum_model("IncidentSeverity", vs);
    proof {
        assert(gv.map_values(|v: VariantDef| vview(v)) =~= seq![
            VariantV { name: "High"@, convention: ConvV::Rename("High"@) },
            VariantV { name: "Medium"@, convention: ConvV::Rename("Medium"@) },
            VariantV { name: "Low"@, convention: ConvV::Rename("Low"@) },
            VariantV { name: "Informational"@, convention: ConvV::Rename("Informational"@) },
        ]);
        assert(r@ == incident_severity_model_v());
    }
    r
}

pub open spec fn incident_status_model_v() -> ModelV {
    ModelV::Enum {
        name: "IncidentStatus"@,
        variants: seq![
            VariantV { name: "Active"@, convention: ConvV::Rename("Active"@) },
            VariantV { name: "Closed"@, convention: ConvV::Rename("Closed"@) },
            VariantV { name: "New"@, convention: ConvV::Rename("New"@) },
        ],
    }
}


pub fn incident_status_model() -> (r: TypeModel)
    ensures
        r@ == incident_status_model_v(),
{
    let mut vs: Vec<VariantDef> = Vec::new();
    vs.push(vd_verbatim("Active"));
    vs.push(vd_verbatim("Closed"));
    vs.push(vd_verbatim("New"));
    let ghost gv = vs@;
    let r = enum_model("IncidentStatus", vs);
    proof {
        assert(gv.map_values(|v: VariantDef| vview(v)) =~= seq![
            VariantV { name: "Active"@, convention: ConvV::Rename("Active"@) },
            VariantV { name: "Closed"@, convention: ConvV::Rename("Closed"@) },
            VariantV { name: "New"@, convention: ConvV::Rename("New"@) },
        ]);
        assert(r@ == incident_status_model_v());
    }
    r
}

pub open spec fn owner_type_model_v() -> ModelV {
    ModelV::Enum {
        name: "OwnerType"@,
        variants: seq![
            VariantV { name: "Group"@, convention: ConvV::Rename("Group"@) },
            VariantV { name: "Unknown"@, convention: ConvV::Rename("Unknown"@) },
            VariantV { name: "User"@, convention: ConvV::Rename("User"@) },
        ],
    }
}


pub fn owner_type_model() -> (r: TypeModel)
    ensures
        r@ == owner_type_model_v(),
{
    let mut vs: Vec<VariantDef> = Vec::new();
    vs.push(vd_verbatim("Group"));
    vs.push(vd_verbatim("Unknown"));
    vs.push(vd_verbatim("User"));
    let ghost gv = vs@;
    let r = enum_model("OwnerType", vs);
    proof {
        assert(gv.map_values(|v: VariantDef| vview(v)) =~= seq![
            VariantV { name: "Group"@, convention: ConvV::Rename("Group"@) },
            VariantV { name: "Unknown"@, convention: ConvV::Rename("Unknown"@) },
            VariantV { name: "User"@, convention: ConvV::Rename("User"@) },
        ]);
        assert(r@ == owner_type_model_v());
    }
    r
}

pub open spec fn incident_classification_reason_model_v() -> ModelV {
    ModelV::Enum {
        name: "IncidentClassificationReason"@,
        variants: seq![
            VariantV { name: "InaccurateData"@, convention: ConvV::Rename("InaccurateData"@) },
            VariantV { name: "IncorrectAlertLogic"@, convention: ConvV::Rename("IncorrectAlertLogic"@) },
            VariantV { name: "SuspiciousActivity"@, convention: ConvV::Rename("SuspiciousActivity"@) },
            VariantV { name: "SuspiciousButExpected"@, convention: ConvV::Rename("SuspiciousButExpected"@) },
        ],
    }
}


pub fn incident_classification_reason_model() -> (r: TypeModel)
    ensures
        r@ == incident_classification_reason_model_v(),
{
    let mut vs: Vec<VariantDef> = Vec::new();
    vs.push(vd_verbatim("InaccurateData"));
    vs.push(vd_verbatim("IncorrectAlertLogic"));
    vs.push(vd_verbatim("SuspiciousActivity"));
    vs.push(vd_verbatim("SuspiciousButExpected"));
    let ghost gv = vs@;
    let r = enum_model("IncidentClassificationReason", vs);
    proof {
        assert(gv.map_values(|v: VariantDef| vview(v)) =~= seq![
            VariantV { name: "InaccurateData"@, convention: ConvV::Rename("InaccurateData"@) },
            VariantV { name: "IncorrectAlertLogic"@, convention: ConvV::Rename("IncorrectAlertLogic"@) },
            VariantV { name: "SuspiciousActivity"@, convention: ConvV::Rename("SuspiciousActivity"@) },
            VariantV { name: "SuspiciousButExpected"@, convention: ConvV::Rename("SuspiciousButExpected"@) },
        ]);
        assert(r@ == incident_classification_reason_model_v());
    }
    r
}

pub open spec fn triggers_on_model_v() -> ModelV {
    ModelV::Enum {
        name: "TriggersOn"@,
        variants: seq![
            VariantV { name: "Incidents"@, convention: ConvV::Rename("Incidents"@) },
            VariantV { name: "Alerts"@, convention: ConvV::Rename("Alerts"@) },
        ],
    }
}


pub fn triggers_on_model() -> (r: TypeModel)
    ensures
        r@ == triggers_on_model_v(),
{
    let mut vs: Vec<VariantDef> = Vec::new();
    vs.push(vd_verbatim("Incidents"));
    vs.push(vd_verbatim("Alerts"));
    let ghost gv = vs@;
    let r = enum_model("TriggersOn", vs);
    proof {
        assert(gv.map_values(|v: VariantDef| vview(v)) =~= seq![
            VariantV { name: "Incidents"@, convention: ConvV::Rename("Incidents"@) },
            VariantV { name: "Alerts"@, convention: ConvV::Rename("Alerts"@) },
        ]);
        assert(r@ == triggers_on_model_v());
    }
    r
}

pub open spec fn triggers_when_model_v() -> ModelV {
    ModelV::Enum {
        name: "TriggersWhen"@,
        variants: seq![
            VariantV { name: "Created"@, convention: ConvV::Rename("Created"@) },
            VariantV { name: "Updated"@, convention: ConvV::Rename("Updated"@) },
        ],
    }
}


pub fn triggers_when_model() -> (r: TypeModel)
    ensures
        r@ == triggers_when_model_v(),
{
    let mut vs: Vec<VariantDef> = Vec::new();
    vs.push(vd_verbatim("Created"));
    vs.push(vd_verbatim("Updated"));
    let ghost gv = vs@;
    let r = enum_model("TriggersWhen", vs);
    proof {
        assert(gv.map_values(|v: VariantDef| vview(v)) =~= seq![
            VariantV { name: "Created"@, convention: ConvV::Rename("Created"@) },
            VariantV { name: "Updated"@, convention: ConvV::Rename("Updated"@) },
        ]);
        assert(r@ == triggers_when_model_v());
    }
    r
}

pub open spec fn boolean_condition_supported_operator_model_v() -> ModelV {
    ModelV::Enum {
        name: "BooleanConditionSupportedOperator"@,
        variants: seq![
            VariantV { name: "And"@, convention: ConvV::Rename("And"@) },
            VariantV { name: "Or"@, convention: ConvV::Rename("Or"@) },
        ],
    }
}


pub fn boolean_condition_supported_operator_model() -> (r: TypeModel)
    ensures
        r@ == boolean_condition_supported_operator_model_v(),
{
    let mut vs: Vec<VariantDef> = Vec::new();
    vs.push(vd_verbatim("And"));
    vs.push(vd_verbatim("Or"));
    let ghost gv = vs@;
    let r = enum_model("BooleanConditionSupportedOperator", vs);
    proof {
        assert(gv.map_values(|v: VariantDef| vview(v)) =~= seq![
            VariantV { name: "And"@, convention: ConvV::Rename("And"@) },
            VariantV { name: "Or"@, convention: ConvV::Rename("Or"@) },
        ]);
        assert(r@ == boolean_condition_supported_operator_model_v());
    }
    r
}

pub open spec fn property_array_changed_condition_supported_array_type_model_v() -> ModelV {
    ModelV::Enum {
        name: "PropertyArrayChangedConditionSupportedArrayType"@,
        variants: seq![
            VariantV { name: "Alerts"@, convention: ConvV::Rename("Alerts"@) },
            VariantV { name: "Comments"@, convention: ConvV::Rename("Comments"@) },
            VariantV { name: "Labels"@, convention: ConvV::Rename("Labels"@) },
            VariantV { name: "Tactics"@, convention: ConvV::Rename("Tactics"@) },
        ],
    }
}


pub fn property_array_changed_condition_supported_array_type_model() -> (r: TypeModel)
    ensures
        r@ == property_array_changed_condition_supported_array_type_model_v(),
{
    let mut vs: Vec<VariantDef> = Vec::new();
    vs.push(vd_verbatim("Alerts"));
    vs.push(vd_verbatim("Comments"));
    vs.push(vd_verbatim("Labels"));
    vs.push(vd_verbatim("Tactics"));
    let ghost gv = vs@;
    let r = enum_model("PropertyArrayChangedConditionSupportedArrayType", vs);
    proof {
        assert(gv.map_values(|v: VariantDef| vview(v)) =~= seq![
            VariantV { name: "Alerts"@, convention: ConvV::Rename("Alerts"@) },
            VariantV { name: "Comments"@, convention: ConvV::Rename("Comments"@) },
            VariantV { name: "Labels"@, convention: ConvV::Rename("Labels"@) },
            VariantV { name: "Tactics"@, convention: ConvV::Rename("Tactics"@) },
        ]);
        assert(r@ == property_array_changed_condition_supported_array_type_model_v());
    }
    r
}

pub open spec fn property_array_changed_condition_supported_change_type_model_v() -> ModelV {
    ModelV::Enum {
        name: "PropertyArrayChangedConditionSupportedChangeType"@,
        variants: seq![
            VariantV { name: "Added"@, convention: ConvV::Rename("Added"@) },
        ],
    }
}


pub fn property_array_changed_condition_supported_change_type_model() -> (r: TypeModel)
    ensures
        r@ == property_array_changed_condition_supported_change_type_model_v(),
{
    let mut vs: Vec<VariantDef> = Vec::new();
    vs.push(vd_verbatim("Added"));
    let ghost gv = vs@;
    let r = enum_model("PropertyArrayChangedConditionSupportedChangeType", vs);
    proof {
        assert(gv.map_values(|v: VariantDef| vview(v)) =~= seq![
            VariantV { name: "Added"@, convention: ConvV::Rename("Added"@) },
        ]);
        assert(r@ == property_array_changed_condition_supported_change_type_model_v());
    }
    r
}

pub open spec fn array_condition_supported_array_type_model_v() -> ModelV {
    ModelV::Enum {
        name: "ArrayConditionSupportedArrayType"@,
        variants: seq![
            VariantV { name: "CustomDetailValues"@, convention: ConvV::Rename("CustomDetailValues"@) },
            VariantV { name: "CustomDetails"@, convention: ConvV::Rename("CustomDetails"@) },
        ],
    }
}


pub fn array_condition_supported_array_type_model() -> (r: TypeModel)
    ensures
        r@ == array_condition_supported_array_type_model_v(),
{
    let mut vs: Vec<VariantDef> = Vec::new();
    vs.push(vd_verbatim("CustomDetailValues"));
    vs.push(vd_verbatim("CustomDetails"));
    let ghost gv = vs@;
    let r = enum_model("ArrayConditionSupportedArrayType", vs);
    proof {
        assert(gv.map_values(|v: VariantDef| vview(v)) =~= seq![
            VariantV { name: "CustomDetailValues"@, convention: ConvV::Rename("CustomDetailValues"@) },
            VariantV { name: "CustomDetails"@, convention: ConvV::Rename("CustomDetails"@) },
        ]);
        assert(r@ == array_condition_supported_array_type_model_v());
    }
    r
}

pub open spec fn property_array_condition_supported_array_condition_type_model_v() -> ModelV {
    ModelV::Enum {
        name: "PropertyArrayConditionSupportedArrayConditionType"@,
        variants: seq![
            VariantV { name: "AnyItem"@, convention: ConvV::Rename("AnyItem"@) },
        ],
    }
}


pub fn property_array_condition_supported_array_condition_type_model() -> (r: TypeModel)
    ensures
        r@ == property_array_condition_supported_array_condition_type_model_v(),
{
    let mut vs: Vec<VariantDef> = Vec::new();
    vs.push(vd_verbatim("AnyItem"));
    let ghost gv = vs@;
    let r = enum_model("PropertyArrayConditionSupportedArrayConditionType", vs);
    proof {
        assert(gv.map_values(|v: VariantDef| vview(v)) =~= seq![
            VariantV { name: "AnyItem"@, convention: ConvV::Rename("AnyItem"@) },
        ]);
        assert(r@ == property_array_condition_supported_array_condition_type_model_v());
    }
    r
}

pub open spec fn property_condition_supported_property_model_v() -> ModelV {
    ModelV::Enum {
        name: "PropertyConditionSupportedProperty"@,
        variants: seq![
            VariantV { name: "AccountAadTenantId"@, convention: ConvV::Rename("AccountAadTenantId"@) },
            VariantV { name: "AccountAadUserId"@, convention: ConvV::Rename("AccountAadUserId"@) },
            VariantV { name: "AccountNTDomain"@, convention: ConvV::Rename("AccountNTDomain"@) },
            VariantV { name: "AccountName"@, convention: ConvV::Rename("AccountName"@) },
            VariantV { name: "AccountObjectGuid"@, convention: ConvV::Rename("AccountObjectGuid"@) },
            VariantV { name: "AccountPUID"@, convention: ConvV::Rename("AccountPUID"@) },
            VariantV { name: "AccountSid"@, convention: ConvV::Rename("AccountSid"@) },
            VariantV { name: "AccountUPNSuffix"@, convention: ConvV::Rename("AccountUPNSuffix"@) },
            VariantV { name: "AlertAnalyticRuleIds"@, convention: ConvV::Rename("AlertAnalyticRuleIds"@) },
            VariantV { name: "AlertProductNames"@, convention: ConvV::Rename("AlertProductNames"@) },
            VariantV { name: "AzureResourceResourceId"@, convention: ConvV::Rename("AzureResourceResourceId"@) },
            VariantV { name: "AzureResourceSubscriptionId"@, convention: ConvV::Rename("AzureResourceSubscriptionId"@) },
            VariantV { name: "CloudApplicationAppId"@, convention: ConvV::Rename("CloudApplicationAppId"@) },
            VariantV { name: "CloudApplicationAppName"@, convention: ConvV::Rename("CloudApplicationAppName"@) },
            VariantV { name: "DNSDomainName"@, convention: ConvV::Rename("DNSDomainName"@) },
            VariantV { name: "FileDirectory"@, convention: ConvV::Rename("FileDirectory"@) },
            VariantV { name: "FileHashValue"@, convention: ConvV::Rename("FileHashValue"@) },
            VariantV { name: "FileName"@, convention: ConvV::Rename("FileName"@) },
            VariantV { name: "HostAzureID"@, convention: ConvV::Rename("HostAzureID"@) },
            VariantV { name: "HostNTDomain"@, convention: ConvV::Rename("HostNTDomain"@) },
            VariantV { name: "HostName"@, convention: ConvV::Rename("HostName"@) },
            VariantV { name: "HostNetBiosName"@, convention: ConvV::Rename("HostNetBiosName"@) },
            VariantV { name: "HostOSVersion"@, convention: ConvV::Rename("HostOSVersion"@) },
            VariantV { name: "IPAddress"@, convention: ConvV::Rename("IPAddress"@) },
            VariantV { name: "IncidentCustomDetailsKey"@, convention: ConvV::Rename("IncidentCustomDetailsKey"@) },
            VariantV { name: "IncidentCustomDetailsValue"@, convention: ConvV::Rename("IncidentCustomDetailsValue"@) },
            VariantV { name: "IncidentDescription"@, convention: ConvV::Rename("IncidentDescription"@) },
            VariantV { name: "IncidentLabel"@, convention: ConvV::Rename("IncidentLabel"@) },
            VariantV { name: "IncidentProviderName"@, convention: ConvV::Rename("IncidentProviderName"@) },
            VariantV { name: "IncidentRelatedAnalyticRuleIds"@, convention: ConvV::Rename("IncidentRelatedAnalyticRuleIds"@) },
            VariantV { name: "IncidentSeverity"@, convention: ConvV::Rename("IncidentSeverity"@) },
            VariantV { name: "IncidentStatus"@, convention: ConvV::Rename("IncidentStatus"@) },
            VariantV { name: "IncidentTactics"@, convention: ConvV::Rename("IncidentTactics"@) },
            VariantV { name: "IncidentTitle"@, convention: ConvV::Rename("IncidentTitle"@) },
            VariantV { name: "IncidentUpdatedBySource"@, convention: ConvV::Rename("IncidentUpdatedBySource"@) },
            VariantV { name: "IoTDeviceId"@, convention: ConvV::Rename("IoTDeviceId"@) },
            VariantV { name: "IoTDeviceModel"@, convention: ConvV::Rename("IoTDeviceModel"@) },
            VariantV { name: "IoTDeviceName"@, convention: ConvV::Rename("IoTDeviceName"@) },
            VariantV { name: "IoTDeviceOperatingSystem"@, convention: ConvV::Rename("IoTDeviceOperatingSystem"@) },
            VariantV { name: "IoTDeviceType"@, convention: ConvV::Rename("IoTDeviceType"@) },
            VariantV { name: "IoTDeviceVendor"@, convention: ConvV::Rename("IoTDeviceVendor"@) },
            VariantV { name: "MailMessageDeliveryAction"@, convention: ConvV::Rename("MailMessageDeliveryAction"@) },
            VariantV { name: "MailMessageDeliveryLocation"@, convention: ConvV::Rename("MailMessageDeliveryLocation"@) },
            VariantV { name: "MailMessageP1Sender"@, convention: ConvV::Rename("MailMessageP1Sender"@) },
            VariantV { name: "MailMessageP2Sender"@, convention: ConvV::Rename("MailMessageP2Sender"@) },
            VariantV { name: "MailMessageRecipient"@, convention: ConvV::Rename("MailMessageRecipient"@) },
            VariantV { name: "MailMessageSenderIP"@, convention: ConvV::Rename("MailMessageSenderIP"@) },
            VariantV { name: "MailMessageSubject"@, convention: ConvV::Rename("MailMessageSubject"@) },
            VariantV { name: "MailboxDisplayName"@, convention: ConvV::Rename("MailboxDisplayName"@) },
            VariantV { name: "MailboxPrimaryAddress"@, convention: ConvV::Rename("MailboxPrimaryAddress"@) },
            VariantV { name: "MailboxUPN"@, convention: ConvV::Rename("MailboxUPN"@) },
            VariantV { name: "MalwareCategory"@, convention: ConvV::Rename("MalwareCategory"@) },
            VariantV { name: "MalwareName"@, convention: ConvV::Rename("MalwareName"@) },
            VariantV { name: "ProcessCommandLine"@, convention: ConvV::Rename("ProcessCommandLine"@) },
            VariantV { name: "ProcessId"@, convention: ConvV::Rename("ProcessId"@) },
            VariantV { name: "RegistryKey"@, convention: ConvV::Rename("RegistryKey"@) },
            VariantV { name: "RegistryValueData"@, convention: ConvV::Rename("RegistryValueData"@) },
            VariantV { name: "Url"@, convention: ConvV::Rename("Url"@) },
        ],
    }
}

#[verifier::rlimit(50)]
pub fn property_condition_supported_property_model() -> (r: TypeModel)
    ensures
        r@ == property_condition_supported_property_model_v(),
{
    let mut vs: Vec<VariantDef> = Vec::new();
    vs.push(vd_verbatim("AccountAadTenantId"));
    vs.push(vd_verbatim("AccountAadUserId"));
    vs.push(vd_verbatim("AccountNTDomain"));
    vs.push(vd_verbatim("AccountName"));
    vs.push(vd_verbatim("AccountObjectGuid"));
    vs.push(vd_verbatim("AccountPUID"));
    vs.push(vd_verbatim("AccountSid"));
    vs.push(vd_verbatim("AccountUPNSuffix"));
    vs.push(vd_verbatim("AlertAnalyticRuleIds"));
    vs.push(vd_verbatim("AlertProductNames"));
    vs.push(vd_verbatim("AzureResourceResourceId"));
    vs.push(vd_verbatim("AzureResourceSubscriptionId"));
    vs.push(vd_verbatim("CloudApplicationAppId"));
    vs.push(vd_verbatim("CloudApplicationAppName"));
    vs.push(vd_verbatim("DNSDomainName"));
    vs.push(vd_verbatim("FileDirectory"));
    vs.push(vd_verbatim("FileHashValue"));
    vs.push(vd_verbatim("FileName"));
    vs.push(vd_verbatim("HostAzureID"));
    vs.push(vd_verbatim("HostNTDomain"));
    vs.push(vd_verbatim("HostName"));
    vs.push(vd_verbatim("HostNetBiosName"));
    vs.push(vd_verbatim("HostOSVersion"));
    vs.push(vd_verbatim("IPAddress"));
    vs.push(vd_verbatim("IncidentCustomDetailsKey"));
    vs.push(vd_verbatim("IncidentCustomDetailsValue"));
    vs.push(vd_verbatim("IncidentDescription"));
    vs.push(vd_verbatim("IncidentLabel"));
    vs.push(vd_verbatim("IncidentProviderName"));
    vs.push(vd_verbatim("IncidentRelatedAnalyticRuleIds"));
    vs.push(vd_verbatim("IncidentSeverity"));
    vs.push(vd_verbatim("IncidentStatus"));
    vs.push(vd_verbatim("IncidentTactics"));
    vs.push(vd_verbatim("IncidentTitle"));
    vs.push(vd_verbatim("IncidentUpdatedBySource"));
    vs.push(vd_verbatim("IoTDeviceId"));
    vs.push(vd_verbatim("IoTDeviceModel"));
    vs.push(vd_verbatim("IoTDeviceName"));
    vs.push(vd_verbatim("IoTDeviceOperatingSystem"));
    vs.push(vd_verbatim("IoTDeviceType"));
    vs.push(vd_verbatim("IoTDeviceVendor"));
    vs.push(vd_verbatim("MailMessageDeliveryAction"));
    vs.push(vd_verbatim("MailMessageDeliveryLocation"));
    vs.push(vd_verbatim("MailMessageP1Sender"));
    vs.push(vd_verbatim("MailMessageP2Sender"));
    vs.push(vd_verbatim("MailMessageRecipient"));
    vs.push(vd_verbatim("MailMessageSenderIP"));
    vs.push(vd_verbatim("MailMessageSubject"));
    vs.push(vd_verbatim("MailboxDisplayName"));
    vs.push(vd_verbatim("MailboxPrimaryAddress"));
    vs.push(vd_verbatim("MailboxUPN"));
    vs.push(vd_verbatim("MalwareCategory"));
    vs.push(vd_verbatim("MalwareName"));
    vs.push(vd_verbatim("ProcessCommandLine"));
    vs.push(vd_verbatim("ProcessId"));
    vs.push(vd_verbatim("RegistryKey"));
    vs.push(vd_verbatim("RegistryValueData"));
    vs.push(vd_verbatim("Url"));
    let ghost gv = vs@;
    let r = enum_model("PropertyConditionSupportedProperty", vs);
    proof {
        assert(gv.map_values(|v: VariantDef| vview(v)) =~= seq![
            VariantV { name: "AccountAadTenantId"@, convention: ConvV::Rename("AccountAadTenantId"@) },
            VariantV { name: "AccountAadUserId"@, convention: ConvV::Rename("AccountAadUserId"@) },
            VariantV { name: "AccountNTDomain"@, convention: ConvV::Rename("AccountNTDomain"@) },
            VariantV { name: "AccountName"@, convention: ConvV::Rename("AccountName"@) },
            VariantV { name: "AccountObjectGuid"@, convention: ConvV::Rename("AccountObjectGuid"@) },
            VariantV { name: "AccountPUID"@, convention: ConvV::Rename("AccountPUID"@) },
            VariantV { name: "AccountSid"@, convention: ConvV::Rename("AccountSid"@) },
            VariantV { name: "AccountUPNSuffix"@, convention: ConvV::Rename("AccountUPNSuffix"@) },
            VariantV { name: "AlertAnalyticRuleIds"@, convention: ConvV::Rename("AlertAnalyticRuleIds"@) },
            VariantV { name: "AlertProductNames"@, convention: ConvV::Rename("AlertProductNames"@) },
            VariantV { name: "AzureResourceResourceId"@, convention: ConvV::Rename("AzureResourceResourceId"@) },
            VariantV { name: "AzureResourceSubscriptionId"@, convention: ConvV::Rename("AzureResourceSubscriptionId"@) },
            VariantV { name: "CloudApplicationAppId"@, convention: ConvV::Rename("CloudApplicationAppId"@) },
            VariantV { name: "CloudApplicationAppName"@, convention: ConvV::Rename("CloudApplicationAppName"@) },
            VariantV { name: "DNSDomainName"@, convention: ConvV::Rename("DNSDomainName"@) },
            VariantV { name: "FileDirectory"@, convention: ConvV::Rename("FileDirectory"@) },
            VariantV { name: "FileHashValue"@, convention: ConvV::Rename("FileHashValue"@) },
            VariantV { name: "FileName"@, convention: ConvV::Rename("FileName"@) },
            VariantV { name: "HostAzureID"@, convention: ConvV::Rename("HostAzureID"@) },
            VariantV { name: "HostNTDomain"@, convention: ConvV::Rename("HostNTDomain"@) },
            VariantV { name: "HostName"@, convention: ConvV::Rename("HostName"@) },
            VariantV { name: "HostNetBiosName"@, convention: ConvV::Rename("HostNetBiosName"@) },
            VariantV { name: "HostOSVersion"@, convention: ConvV::Rename("HostOSVersion"@) },
            VariantV { name: "IPAddress"@, convention: ConvV::Rename("IPAddress"@) },
            VariantV { name: "IncidentCustomDetailsKey"@, convention: ConvV::Rename("IncidentCustomDetailsKey"@) },
            VariantV { name: "IncidentCustomDetailsValue"@, convention: ConvV::Rename("IncidentCustomDetailsValue"@) },
            VariantV { name: "IncidentDescription"@, convention: ConvV::Rename("IncidentDescription"@) },
            VariantV { name: "IncidentLabel"@, convention: ConvV::Rename("IncidentLabel"@) },
            VariantV { name: "IncidentProviderName"@, convention: ConvV::Rename("IncidentProviderName"@) },
            VariantV { name: "IncidentRelatedAnalyticRuleIds"@, convention: ConvV::Rename("IncidentRelatedAnalyticRuleIds"@) },
            VariantV { name: "IncidentSeverity"@, convention: ConvV::Rename("IncidentSeverity"@) },
            VariantV { name: "IncidentStatus"@, convention: ConvV::Rename("IncidentStatus"@) },
            VariantV { name: "IncidentTactics"@, convention: ConvV::Rename("IncidentTactics"@) },
            VariantV { name: "IncidentTitle"@, convention: ConvV::Rename("IncidentTitle"@) },
            VariantV { name: "IncidentUpdatedBySource"@, convention: ConvV::Rename("IncidentUpdatedBySource"@) },
            VariantV { name: "IoTDeviceId"@, convention: ConvV::Rename("IoTDeviceId"@) },
            VariantV { name: "IoTDeviceModel"@, convention: ConvV::Rename("IoTDeviceModel"@) },
            VariantV { name: "IoTDeviceName"@, convention: ConvV::Rename("IoTDeviceName"@) },
            VariantV { name: "IoTDeviceOperatingSystem"@, convention: ConvV::Rename("IoTDeviceOperatingSystem"@) },
            VariantV { name: "IoTDeviceType"@, convention: ConvV::Rename("IoTDeviceType"@) },
            VariantV { name: "IoTDeviceVendor"@, convention: ConvV::Rename("IoTDeviceVendor"@) },
            VariantV { name: "MailMessageDeliveryAction"@, convention: ConvV::Rename("MailMessageDeliveryAction"@) },
            VariantV { name: "MailMessageDeliveryLocation"@, convention: ConvV::Rename("MailMessageDeliveryLocation"@) },
            VariantV { name: "MailMessageP1Sender"@, convention: ConvV::Rename("MailMessageP1Sender"@) },
            VariantV { name: "MailMessageP2Sender"@, convention: ConvV::Rename("MailMessageP2Sender"@) },
            VariantV { name: "MailMessageRecipient"@, convention: ConvV::Rename("MailMessageRecipient"@) },
            VariantV { name: "MailMessageSenderIP"@, convention: ConvV::Rename("MailMessageSenderIP"@) },
            VariantV { name: "MailMessageSubject"@, convention: ConvV::Rename("MailMessageSubject"@) },
            VariantV { name: "MailboxDisplayName"@, convention: ConvV::Rename("MailboxDisplayName"@) },
            VariantV { name: "MailboxPrimaryAddress"@, convention: ConvV::Rename("MailboxPrimaryAddress"@) },
            VariantV { name: "MailboxUPN"@, convention: ConvV::Rename("MailboxUPN"@) },
            VariantV { name: "MalwareCategory"@, convention: ConvV::Rename("MalwareCategory"@) },
            VariantV { name: "MalwareName"@, convention: ConvV::Rename("MalwareName"@) },
            VariantV { name: "ProcessCommandLine"@, convention: ConvV::Rename("ProcessCommandLine"@) },
            VariantV { name: "ProcessId"@, convention: ConvV::Rename("ProcessId"@) },
            VariantV { name: "RegistryKey"@, convention: ConvV::Rename("RegistryKey"@) },
            VariantV { name: "RegistryValueData"@, convention: ConvV::Rename("RegistryValueData"@) },
            VariantV { name: "Url"@, convention: ConvV::Rename("Url"@) },
        ]);
        assert(r@ == property_condition_supported_property_model_v());
    }
    r
}

pub open spec fn property_changed_condition_supported_changed_type_model_v() -> ModelV {
    ModelV::Enum {
        name: "PropertyChangedConditionSupportedChangedType"@,
        variants: seq![
            VariantV { name: "ChangedFrom"@, convention: ConvV::Rename("ChangedFrom"@) },
            VariantV { name: "ChangedTo"@, convention: ConvV::Rename("ChangedTo"@) },
        ],
    }
}


pub fn property_changed_condition_supported_changed_type_model() -> (r: TypeModel)
    ensures
        r@ == property_changed_condition_supported_changed_type_model_v(),
{
    let mut vs: Vec<VariantDef> = Vec::new();
    vs.push(vd_verbatim("ChangedFrom"));
    vs.push(vd_verbatim("ChangedTo"));
    let ghost gv = vs@;
    let r = enum_model("PropertyChangedConditionSupportedChangedType", vs);
    proof {
        assert(gv.map_values(|v: VariantDef| vview(v)) =~= seq![
            VariantV { name: "ChangedFrom"@, convention: ConvV::Rename("ChangedFrom"@) },
            VariantV { name: "ChangedTo"@, convention: ConvV::Rename("ChangedTo"@) },
        ]);
        assert(r@ == property_changed_condition_supported_changed_type_model_v());
    }
    r
}

pub open spec fn property_condition_supported_operator_model_v() -> ModelV {
    ModelV::Enum {
        name: "PropertyConditionSupportedOperator"@,
        variants: seq![
            VariantV { name: "Contains"@, convention: ConvV::Rename("Contains"@) },
            VariantV { name: "EndsWith"@, convention: ConvV::Rename("EndsWith"@) },
            VariantV { name: "Equals"@, convention: ConvV::Rename("Equals"@) },
            VariantV { name: "NotContains"@, convention: ConvV::Rename("NotContains"@) },
            VariantV { name: "NotEndsWith"@, convention: ConvV::Rename("NotEndsWith"@) },
            VariantV { name: "NotEquals"@, convention: ConvV::Rename("NotEquals"@) },
            VariantV { name: "NotStartsWith"@, convention: ConvV::Rename("NotStartsWith"@) },
            VariantV { name: "StartsWith"@, convention: ConvV::Rename("StartsWith"@) },
        ],
    }
}


pub fn property_condition_supported_operator_model() -> (r: TypeModel)
    ensures
        r@ == property_condition_supported_operator_model_v(),
{
    let mut vs: Vec<VariantDef> = Vec::new();
    vs.push(vd_verbatim("Contains"));
    vs.push(vd_verbatim("EndsWith"));
    vs.push(vd_verbatim("Equals"));
    vs.push(vd_verbatim("NotContains"));
    vs.push(vd_verbatim("NotEndsWith"));
    vs.push(vd_verbatim("NotEquals"));
    vs.push(vd_verbatim("NotStartsWith"));
    vs.push(vd_verbatim("StartsWith"));
    let ghost gv = vs@;
    let r = enum_model("PropertyConditionSupportedOperator", vs);
    proof {
        assert(gv.map_values(|v: VariantDef| vview(v)) =~= seq![
            VariantV { name: "Contains"@, convention: ConvV::Rename("Contains"@) },
            VariantV { name: "EndsWith"@, convention: ConvV::Rename("EndsWith"@) },
            VariantV { name: "Equals"@, convention: ConvV::Rename("Equals"@) },
            VariantV { name: "NotContains"@, convention: ConvV::Rename("NotContains"@) },
            VariantV { name: "NotEndsWith"@, convention: ConvV::Rename("NotEndsWith"@) },
            VariantV { name: "NotEquals"@, convention: ConvV::Rename("NotEquals"@) },
            VariantV { name: "NotStartsWith"@, convention: ConvV::Rename("NotStartsWith"@) },
            VariantV { name: "StartsWith"@, convention: ConvV::Rename("StartsWith"@) },
        ]);
        assert(r@ == property_condition_supported_operator_model_v());
    }
    r
}

pub open spec fn property_changed_condition_supported_property_type_model_v() -> ModelV {
    ModelV::Enum {
        name: "PropertyChangedConditionSupportedPropertyType"@,
        variants: seq![
            VariantV { name: "IncidentOwner"@, convention: ConvV::Rename("IncidentOwner"@) },
            VariantV { name: "IncidentSeverity"@, convention: ConvV::Rename("IncidentSeverity"@) },
            VariantV { name: "IncidentStatus"@, convention: ConvV::Rename("IncidentStatus"@) },
        ],
    }
}


pub fn property_changed_condition_supported_property_type_model() -> (r: TypeModel)
    ensures
        r@ == property_changed_condition_supported_property_type_model_v(),
{
    let mut vs: Vec<VariantDef> = Vec::new();
    vs.push(vd_verbatim("IncidentOwner"));
    vs.push(vd_verbatim("IncidentSeverity"));
    vs.push(vd_verbatim("IncidentStatus"));
    let ghost gv = vs@;
    let r = enum_model("PropertyChangedConditionSupportedPropertyType", vs);
    proof {
        assert(gv.map_values(|v: VariantDef| vview(v)) =~= seq![
            VariantV { name: "IncidentOwner"@, convention: ConvV::Rename("IncidentOwner"@) },
            VariantV { name: "IncidentSeverity"@, convention: ConvV::Rename("IncidentSeverity"@) },
            VariantV { name: "IncidentStatus"@, convention: ConvV::Rename("IncidentStatus"@) },
        ]);
        assert(r@ == property_changed_condition_supported_property_type_model_v());
    }
    r
}

pub open spec fn property_condition_model_v() -> ModelV {
    ModelV::Struct {
        name: "PropertyCondition"@,
        fields: seq![
            FieldV { name: "operator"@, convention: ConvV::Camel, ty: property_condition_supported_operator_model_v(), required: true },
            FieldV { name: "property_name"@, convention: ConvV::Camel, ty: property_condition_supported_property_model_v(), required: true },
            FieldV { name: "property_values"@, convention: ConvV::Camel, ty: ModelV::List(seq![ModelV::Primitive(PrimitiveKind::Text)]), required: true },
        ],
    }
}


pub fn property_condition_model() -> (r: TypeModel)
    ensures
        r@ == property_condition_model_v(),
{
    let mut fs: Vec<FieldDef> = Vec::new();
    fs.push(fd_camel("operator", property_condition_supported_operator_model(), true));
    fs.push(fd_camel("property_name", property_condition_supported_property_model(), true));
    fs.push(fd_camel("property_values", list_of(TypeModel::Primitive(PrimitiveKind::Text)), true));
    let ghost gf = fs@;
    let r = struct_model("PropertyCondition", fs);
    proof {
        assert(fview_seq(gf) =~= seq![
            FieldV { name: "operator"@, convention: ConvV::Camel, ty: property_condition_supported_operator_model_v(), required: true },
            FieldV { name: "property_name"@, convention: ConvV::Camel, ty: property_condition_supported_property_model_v(), required: true },
            FieldV { name: "property_values"@, convention: ConvV::Camel, ty: ModelV::List(seq![ModelV::Primitive(PrimitiveKind::Text)]), required: true },
        ]);
        assert(r@ == property_condition_model_v());
    }
    r
}

pub open spec fn property_array_changed_condition_model_v() -> ModelV {
    ModelV::Struct {
        name: "PropertyArrayChangedCondition"@,
        fields: seq![
            FieldV { name: "array_type"@, convention: ConvV::Camel, ty: property_array_changed_condition_supported_array_type_model_v(), required: true },
            FieldV { name: "change_type"@, convention: ConvV::Camel, ty: property_array_changed_condition_supported_change_type_model_v(), required: true },
        ],
    }
}


pub fn property_array_changed_condition_model() -> (r: TypeModel)
    ensures
        r@ == property_array_changed_condition_model_v(),
{
    let mut fs: Vec<FieldDef> = Vec::new();
    fs.push(fd_camel("array_type", property_array_changed_condition_supported_array_type_model(), true));
    fs.push(fd_camel("change_type", property_array_changed_condition_supported_change_type_model(), true));
    let ghost gf = fs@;
    let r = struct_model("PropertyArrayChangedCondition", fs);
    proof {
        assert(fview_seq(gf) =~= seq![
            FieldV { name: "array_type"@, convention: ConvV::Camel, ty: property_array_changed_condition_supported_array_type_model_v(), required: true },
            FieldV { name: "change_type"@, convention: ConvV::Camel, ty: property_array_changed_condition_supported_change_type_model_v(), required: true },
        ]);
        assert(r@ == property_array_changed_condition_model_v());
    }
    r
}

pub open spec fn property_changed_condition_model_v() -> ModelV {
    ModelV::Struct {
        name: "PropertyChangedCondition"@,
        fields: seq![
            FieldV { name: "change_type"@, convention: ConvV::Camel, ty: property_changed_condition_supported_changed_type_model_v(), required: true },
            FieldV { name: "propery_name"@, convention: ConvV::Camel, ty: property_changed_condition_supported_property_type_model_v(), required: true },
            FieldV { name: "operator"@, convention: ConvV::Camel, ty: property_condition_supported_operator_model_v(), required: true },
            FieldV { name: "property_values"@, convention: ConvV::Camel, ty: ModelV::List(seq![ModelV::Primitive(PrimitiveKind::Text)]), required: true },
        ],
    }
}


pub fn property_changed_condition_model() -> (r: TypeModel)
    ensures
        r@ == property_changed_condition_model_v(),
{
    let mut fs: Vec<FieldDef> = Vec::new();
    fs.push(fd_camel("change_type", property_changed_condition_supported_changed_type_model(), true));
    fs.push(fd_camel("propery_name", property_changed_condition_supported_property_type_model(), true));
    fs.push(fd_camel("operator", property_condition_supported_operator_model(), true));
    fs.push(fd_camel("property_values", list_of(TypeModel::Primitive(PrimitiveKind::Text)), true));
    let ghost gf = fs@;
    let r = struct_model("PropertyChangedCondition", fs);
    proof {
        assert(fview_seq(gf) =~= seq![
            FieldV { name: "change_type"@, convention: ConvV::Camel, ty: property_changed_condition_supported_changed_type_model_v(), required: true },
            FieldV { name: "propery_name"@, convention: ConvV::Camel, ty: property_changed_condition_supported_property_type_model_v(), required: true },
            FieldV { name: "operator"@, convention: ConvV::Camel, ty: property_condition_supported_operator_model_v(), required: true },
            FieldV { name: "property_values"@, convention: ConvV::Camel, ty: ModelV::List(seq![ModelV::Primitive(PrimitiveKind::Text)]), required: true },
        ]);
        assert(r@ == property_changed_condition_model_v());
    }
    r
}

/// The boolean condition at the unrolling's last level: its nested
/// conditions are accepted as free-form values, since a finite tree
/// cannot repeat itself.
pub open spec fn boolean_condition_leaf_model_v() -> ModelV {
    ModelV::Struct {
        name: "BooleanCondition"@,
        fields: seq![
            FieldV { name: "operator"@, convention: ConvV::Camel, ty: boolean_condition_supported_operator_model_v(), required: true },
            FieldV { name: "inner_conditions"@, convention: ConvV::Camel, ty: ModelV::List(seq![ModelV::Primitive(PrimitiveKind::FreeForm)]), required: true },
        ],
    }
}


pub fn boolean_condition_leaf_model() -> (r: TypeModel)
    ensures
        r@ == boolean_condition_leaf_model_v(),
{
    let mut fs: Vec<FieldDef> = Vec::new();
    fs.push(fd_camel("operator", boolean_condition_supported_operator_model(), true));
    fs.push(fd_camel("inner_conditions", list_of(TypeModel::Primitive(PrimitiveKind::FreeForm)), true));
    let ghost gf = fs@;
    let r = struct_model("BooleanCondition", fs);
    proof {
        assert(fview_seq(gf) =~= seq![
            FieldV { name: "operator"@, convention: ConvV::Camel, ty: boolean_condition_supported_operator_model_v(), required: true },
            FieldV { name: "inner_conditions"@, convention: ConvV::Camel, ty: ModelV::List(seq![ModelV::Primitive(PrimitiveKind::FreeForm)]), required: true },
        ]);
        assert(r@ == boolean_condition_leaf_model_v());
    }
    r
}

/// The array condition at the unrolling's last level: its item
/// conditions are accepted as free-form values, since a finite tree
/// cannot repeat itself.
pub open spec fn property_array_values_condition_leaf_model_v() -> ModelV {
    ModelV::Struct {
        name: "PropertyArrayValuesCondition"@,
        fields: seq![
            FieldV { name: "array_condition_type"@, convention: ConvV::Camel, ty: property_array_condition_supported_array_condition_type_model_v(), required: true },
            FieldV { name: "array_type"@, convention: ConvV::Camel, ty: array_condition_supported_array_type_model_v(), required: true },
            FieldV { name: "item_conditions"@, convention: ConvV::Camel, ty: ModelV::List(seq![ModelV::Primitive(PrimitiveKind::FreeForm)]), required: true },
        ],
    }
}


pub fn property_array_values_condition_leaf_model() -> (r: TypeModel)
    ensures
        r@ == property_array_values_condition_leaf_model_v(),
{
    let mut fs: Vec<FieldDef> = Vec::new();
    fs.push(fd_camel("array_condition_type", property_array_condition_supported_array_condition_type_model(), true));
    fs.push(fd_camel("array_type", array_condition_supported_array_type_model(), true));
    fs.push(fd_camel("item_conditions", list_of(TypeModel::Primitive(PrimitiveKind::FreeForm)), true));
    let ghost gf = fs@;
    let r = struct_model("PropertyArrayValuesCondition", fs);
    proof {
        assert(fview_seq(gf) =~= seq![
            FieldV { name: "array_condition_type"@, convention: ConvV::Camel, ty: property_array_condition_supported_array_condition_type_model_v(), required: true },
            FieldV { name: "array_type"@, convention: ConvV::Camel, ty: array_condition_supported_array_type_model_v(), required: true },
            FieldV { name: "item_conditions"@, convention: ConvV::Camel, ty: ModelV::List(seq![ModelV::Primitive(PrimitiveKind::FreeForm)]), required: true },
        ]);
        assert(r@ == property_array_values_condition_leaf_model_v());
    }
    r
}

pub open spec fn condition_leaf_model_v() -> ModelV {
    ModelV::TaggedUnion {
        discriminator: "conditionType"@,
        variants: seq![
        UnionVariantV {
            tag: "Boolean"@,
            payload_field: "value"@,
            payload_convention: ConvV::Camel,
            payload: ModelV::Struct {
                name: "BooleanConditionVariant"@,
                fields: seq![
                    FieldV { name: "condition_properties"@, convention: ConvV::Camel, ty: boolean_condition_leaf_model_v(), required: true },
                ],
            },
        },
        UnionVariantV {
            tag: "PropertyArrayChanged"@,
            payload_field: "value"@,
            payload_convention: ConvV::Camel,
            payload: ModelV::Struct {
                name: "PropertyArrayChangedConditionVariant"@,
                fields: seq![
                    FieldV { name: "condition_properties"@, convention: ConvV::Camel, ty: property_array_changed_condition_model_v(), required: true },
                ],
            },
        },
        UnionVariantV {
            tag: "PropertyChanged"@,
            payload_field: "value"@,
            payload_convention: ConvV::Camel,
            payload: ModelV::Struct {
                name: "PropertyChangedConditionVariant"@,
                fields: seq![
                    FieldV { name: "condition_properties"@, convention: ConvV::Camel, ty: property_changed_condition_model_v(), required: true },
                ],
            },
        },
        UnionVariantV {
            tag: "PropertyArray"@,
            payload_field: "value"@,
            payload_convention: ConvV::Camel,
            payload: ModelV::Struct {
                name: "PropertyArrayConditionVariant"@,
                fields: seq![
                    FieldV { name: "condition_properties"@, convention: ConvV::Camel, ty: property_array_values_condition_leaf_model_v(), required: true },
                ],
            },
        },
        UnionVariantV {
            tag: "Property"@,
            payload_field: "value"@,
            payload_convention: ConvV::Camel,
            payload: ModelV::Struct {
                name: "PropertyConditionVariant"@,
                fields: seq![
                    FieldV { name: "condition_properties"@, convention: ConvV::Camel, ty: property_condition_model_v(), required: true },
                ],
            },
        },
        ],
    }
}

#[verifier::rlimit(50)]
pub fn condition_leaf_model() -> (r: TypeModel)
    ensures
        r@ == condition_leaf_model_v(),
{
    let mut vs: Vec<UnionVariant> = Vec::new();
    let mut f0: Vec<FieldDef> = Vec::new();
    f0.push(fd_camel("condition_properties", boolean_condition_leaf_model(), true));
    let ghost g0 = f0@;
    let p0 = struct_model("BooleanConditionVariant", f0);
    proof {
        assert(fview_seq(g0) =~= seq![
            FieldV { name: "condition_properties"@, convention: ConvV::Camel, ty: boolean_condition_leaf_model_v(), required: true },
        ]);
    }
    vs.push(uv_struct("Boolean", p0));
    let mut f1: Vec<FieldDef> = Vec::new();
    f1.push(fd_camel("condition_properties", property_array_changed_condition_model(), true));
    let ghost g1 = f1@;
    let p1 = struct_model("PropertyArrayChangedConditionVariant", f1);
    proof {
        assert(fview_seq(g1) =~= seq![
            FieldV { name: "condition_properties"@, convention: ConvV::Camel, ty: property_array_changed_condition_model_v(), required: true },
        ]);
    }
    vs.push(uv_struct("PropertyArrayChanged", p1));
    let mut f2: Vec<FieldDef> = Vec::new();
    f2.push(fd_camel("condition_properties", property_changed_condition_model(), true));
    let ghost g2 = f2@;
    let p2 = struct_model("PropertyChangedConditionVariant", f2);
    proof {
        assert(fview_seq(g2) =~= seq![
            FieldV { name: "condition_properties"@, convention: ConvV::Camel, ty: property_changed_condition_model_v(), required: true },
        ]);
    }
    vs.push(uv_struct("PropertyChanged", p2));
    let mut f3: Vec<FieldDef> = Vec::new();
    f3.push(fd_camel("condition_properties", property_array_values_condition_leaf_model(), true));
    let ghost g3 = f3@;
    let p3 = struct_model("PropertyArrayConditionVariant", f3);
    proof {
        assert(fview_seq(g3) =~= seq![
            FieldV { name: "condition_properties"@, convention: ConvV::Camel, ty: property_array_values_condition_leaf_model_v(), required: true },
        ]);
    }
    vs.push(uv_struct("PropertyArray", p3));
    let mut f4: Vec<FieldDef> = Vec::new();
    f4.push(fd_camel("condition_properties", property_condition_model(), true));
    let ghost g4 = f4@;
    let p4 = struct_model("PropertyConditionVariant", f4);
    proof {
        assert(fview_seq(g4) =~= seq![
            FieldV { name: "condition_properties"@, convention: ConvV::Camel, ty: property_condition_model_v(), required: true },
        ]);
    }
    vs.push(uv_struct("Property", p4));
    let ghost gv = vs@;
    let r = union_model("conditionType", vs);
    proof {
        assert(uview_seq(gv) =~= condition_leaf_model_v()->TaggedUnion_variants);
        assert(r@ == condition_leaf_model_v());
    }
    r
}


pub open spec fn boolean_condition_model_v() -> ModelV {
    ModelV::Struct {
        name: "BooleanCondition"@,
        fields: seq![
            FieldV { name: "operator"@, convention: ConvV::Camel, ty: boolean_condition_supported_operator_model_v(), required: true },
            FieldV { name: "inner_conditions"@, convention: ConvV::Camel, ty: ModelV::List(seq![condition_leaf_model_v()]), required: true },
        ],
    }
}


pub fn boolean_condition_model() -> (r: TypeModel)
    ensures
        r@ == boolean_condition_model_v(),
{
    let mut fs: Vec<FieldDef> = Vec::new();
    fs.push(fd_camel("operator", boolean_condition_supported_operator_model(), true));
    fs.push(fd_camel("inner_conditions", list_of(condition_leaf_model()), true));
    let ghost gf = fs@;
    let r = struct_model("BooleanCondition", fs);
    proof {
        assert(fview_seq(gf) =~= seq![
            FieldV { name: "operator"@, convention: ConvV::Camel, ty: boolean_condition_supported_operator_model_v(), required: true },
            FieldV { name: "inner_conditions"@, convention: ConvV::Camel, ty: ModelV::List(seq![condition_leaf_model_v()]), required: true },
        ]);
        assert(r@ == boolean_condition_model_v());
    }
    r
}

pub open spec fn property_array_values_condition_model_v() -> ModelV {
    ModelV::Struct {
        name: "PropertyArrayValuesCondition"@,
        fields: seq![
            FieldV { name: "array_condition_type"@, convention: ConvV::Camel, ty: property_array_condition_supported_array_condition_type_model_v(), required: true },
            FieldV { name: "array_type"@, convention: ConvV::Camel, ty: array_condition_supported_array_type_model_v(), required: true },
            FieldV { name: "item_conditions"@, convention: ConvV::Camel, ty: ModelV::List(seq![condition_leaf_model_v()]), required: true },
        ],
    }
}


pub fn property_array_values_condition_model() -> (r: TypeModel)
    ensures
        r@ == property_array_values_condition_model_v(),
{
    let mut fs: Vec<FieldDef> = Vec::new();
    fs.push(fd_camel("array_condition_type", property_array_condition_supported_array_condition_type_model(), true));
    fs.push(fd_camel("array_type", array_condition_supported_array_type_model(), true));
    fs.push(fd_camel("item_conditions", list_of(condition_leaf_model()), true));
    let ghost gf = fs@;
    let r = struct_model("PropertyArrayValuesCondition", fs);
    proof {
        assert(fview_seq(gf) =~= seq![
            FieldV { name: "array_condition_type"@, convention: ConvV::Camel, ty: property_array_condition_supported_array_condition_type_model_v(), required: true },
            FieldV { name: "array_type"@, convention: ConvV::Camel, ty: array_condition_supported_array_type_model_v(), required: true },
            FieldV { name: "item_conditions"@, convention: ConvV::Camel, ty: ModelV::List(seq![condition_leaf_model_v()]), required: true },
        ]);
        assert(r@ == property_array_values_condition_model_v());
    }
    r
}

pub open spec fn condition_model_v() -> ModelV {
    ModelV::TaggedUnion {
        discriminator: "conditionType"@,
        variants: seq![
        UnionVariantV {
            tag: "Boolean"@,
            payload_field: "value"@,
            payload_convention: ConvV::Camel,
            payload: ModelV::Struct {
                name: "BooleanConditionVariant"@,
                fields: seq![
                    FieldV { name: "condition_properties"@, convention: ConvV::Camel, ty: boolean_condition_model_v(), required: true },
                ],
            },
        },
        UnionVariantV {
            tag: "PropertyArrayChanged"@,
            payload_field: "value"@,
            payload_convention: ConvV::Camel,
            payload: ModelV::Struct {
                name: "PropertyArrayChangedConditionVariant"@,
                fields: seq![
                    FieldV { name: "condition_properties"@, convention: ConvV::Camel, ty: property_array_changed_condition_model_v(), required: true },
                ],
            },
        },
        UnionVariantV {
            tag: "PropertyChanged"@,
            payload_field: "value"@,
            payload_convention: ConvV::Camel,
            payload: ModelV::Struct {
                name: "PropertyChangedConditionVariant"@,
                fields: seq![
                    FieldV { name: "condition_properties"@, convention: ConvV::Camel, ty: property_changed_condition_model_v(), required: true },
                ],
            },
        },
        UnionVariantV {
            tag: "PropertyArray"@,
            payload_field: "value"@,
            payload_convention: ConvV::Camel,
            payload: ModelV::Struct {
                name: "PropertyArrayConditionVariant"@,
                fields: seq![
                    FieldV { name: "condition_properties"@, convention: ConvV::Camel, ty: property_array_values_condition_model_v(), required: true },
                ],
            },
        },
        UnionVariantV {
            tag: "Property"@,
            payload_field: "value"@,
            payload_convention: ConvV::Camel,
            payload: ModelV::Struct {
                name: "PropertyConditionVariant"@,
                fields: seq![
                    FieldV { name: "condition_properties"@, convention: ConvV::Camel, ty: property_condition_model_v(), required: true },
                ],
            },
        },
        ],
    }
}

#[verifier::rlimit(50)]
pub fn condition_model() -> (r: TypeModel)
    ensures
        r@ == condition_model_v(),
{
    let mut vs: Vec<UnionVariant> = Vec::new();
    let mut f0: Vec<FieldDef> = Vec::new();
    f0.push(fd_camel("condition_properties", boolean_condition_model(), true));
    let ghost g0 = f0@;
    let p0 = struct_model("BooleanConditionVariant", f0);
    proof {
        assert(fview_seq(g0) =~= seq![
            FieldV { name: "condition_properties"@, convention: ConvV::Camel, ty: boolean_condition_model_v(), required: true },
        ]);
    }
    vs.push(uv_struct("Boolean", p0));
    let mut f1: Vec<FieldDef> = Vec::new();
    f1.push(fd_camel("condition_properties", property_array_changed_condition_model(), true));
    let ghost g1 = f1@;
    let p1 = struct_model("PropertyArrayChangedConditionVariant", f1);
    proof {
        assert(fview_seq(g1) =~= seq![
            FieldV { name: "condition_properties"@, convention: ConvV::Camel, ty: property_array_changed_condition_model_v(), required: true },
        ]);
    }
    vs.push(uv_struct("PropertyArrayChanged", p1));
    let mut f2: Vec<FieldDef> = Vec::new();
    f2.push(fd_camel("condition_properties", property_changed_condition_model(), true));
    let ghost g2 = f2@;
    let p2 = struct_model("PropertyChangedConditionVariant", f2);
    proof {
        assert(fview_seq(g2) =~= seq![
            FieldV { name: "condition_properties"@, convention: ConvV::Camel, ty: property_changed_condition_model_v(), required: true },
        ]);
    }
    vs.push(uv_struct("PropertyChanged", p2));
    let mut f3: Vec<FieldDef> = Vec::new();
    f3.push(fd_camel("condition_properties", property_array_values_condition_model(), true));
    let ghost g3 = f3@;
    let p3 = struct_model("PropertyArrayConditionVariant", f3);
    proof {
        assert(fview_seq(g3) =~= seq![
            FieldV { name: "condition_properties"@, convention: ConvV::Camel, ty: property_array_values_condition_model_v(), required: true },
        ]);
    }
    vs.push(uv_struct("PropertyArray", p3));
    let mut f4: Vec<FieldDef> = Vec::new();
    f4.push(fd_camel("condition_properties", property_condition_model(), true));
    let ghost g4 = f4@;
    let p4 = struct_model("PropertyConditionVariant", f4);
    proof {
        assert(fview_seq(g4) =~= seq![
            FieldV { name: "condition_properties"@, convention: ConvV::Camel, ty: property_condition_model_v(), required: true },
        ]);
    }
    vs.push(uv_struct("Property", p4));
    let ghost gv = vs@;
    let r = union_model("conditionType", vs);
    proof {
        assert(uview_seq(gv) =~= condition_model_v()->TaggedUnion_variants);
        assert(r@ == condition_model_v());
    }
    r
}

pub open spec fn incident_owner_info_model_v() -> ModelV {
    ModelV::Struct {
        name: "IncidentOwnerInfo"@,
        fields: seq![
            FieldV { name: "assigned_to"@, convention: ConvV::Camel, ty: ModelV::Primitive(PrimitiveKind::Text), required: true },
            FieldV { name: "email"@, convention: ConvV::Camel, ty: ModelV::Primitive(PrimitiveKind::Text), required: true },
            FieldV { name: "object_id"@, convention: ConvV::Camel, ty: ModelV::Primitive(PrimitiveKind::Text), required: true },
            FieldV { name: "owner_type"@, convention: ConvV::Camel, ty: owner_type_model_v(), required: true },
            FieldV { name: "user_principal_name"@, convention: ConvV::Camel, ty: ModelV::Primitive(PrimitiveKind::Text), required: true },
        ],
    }
}


pub fn incident_owner_info_model() -> (r: TypeModel)
    ensures
        r@ == incident_owner_info_model_v(),
{
    let mut fs: Vec<FieldDef> = Vec::new();
    fs.push(fd_camel("assigned_to", TypeModel::Primitive(PrimitiveKind::Text), true));
    fs.push(fd_camel("email", TypeModel::Primitive(PrimitiveKind::Text), true));
    fs.push(fd_camel("object_id", TypeModel::Primitive(PrimitiveKind::Text), true));
    fs.push(fd_camel("owner_type", owner_type_model(), true));
    fs.push(fd_camel("user_principal_name", TypeModel::Primitive(PrimitiveKind::Text), true));
    let ghost gf = fs@;
    let r = struct_model("IncidentOwnerInfo", fs);
    proof {
        assert(fview_seq(gf) =~= seq![
            FieldV { name: "assigned_to"@, convention: ConvV::Camel, ty: ModelV::Primitive(PrimitiveKind::Text), required: true },
            FieldV { name: "email"@, convention: ConvV::Camel, ty: ModelV::Primitive(PrimitiveKind::Text), required: true },
            FieldV { name: "object_id"@, convention: ConvV::Camel, ty: ModelV::Primitive(PrimitiveKind::Text), required: true },
            FieldV { name: "owner_type"@, convention: ConvV::Camel, ty: owner_type_model_v(), required: true },
            FieldV { name: "user_principal_name"@, convention: ConvV::Camel, ty: ModelV::Primitive(PrimitiveKind::Text), required: true },
        ]);
        assert(r@ == incident_owner_info_model_v());
    }
    r
}

pub open spec fn incident_label_model_v() -> ModelV {
    ModelV::Struct {
        name: "IncidentLabel"@,
        fields: seq![
            FieldV { name: "label_name"@, convention: ConvV::Camel, ty: ModelV::Primitive(PrimitiveKind::Text), required: true },
            FieldV { name: "label_type"@, convention: ConvV::Camel, ty: label_type_model_v(), required: false },
        ],
    }
}


pub fn incident_label_model() -> (r: TypeModel)
    ensures
        r@ == incident_label_model_v(),
{
    let mut fs: Vec<FieldDef> = Vec::new();
    fs.push(fd_camel("label_name", TypeModel::Primitive(PrimitiveKind::Text), true));
    fs.push(fd_camel("label_type", label_type_model(), false));
    let ghost gf = fs@;
    let r = struct_model("IncidentLabel", fs);
    proof {
        assert(fview_seq(gf) =~= seq![
            FieldV { name: "label_name"@, convention: ConvV::Camel, ty: ModelV::Primitive(PrimitiveKind::Text), required: true },
            FieldV { name: "label_type"@, convention: ConvV::Camel, ty: label_type_model_v(), required: false },
        ]);
        assert(r@ == incident_label_model_v());
    }
    r
}

pub open spec fn incident_properties_action_properties_model_v() -> ModelV {
    ModelV::Struct {
        name: "IncidentPropertiesActionProperties"@,
        fields: seq![
            FieldV { name: "classification"@, convention: ConvV::Camel, ty: incident_classification_model_v(), required: false },
            FieldV { name: "classification_comment"@, convention: ConvV::Camel, ty: ModelV::Primitive(PrimitiveKind::Text), required: false },
            FieldV { name: "classification_reason"@, convention: ConvV::Camel, ty: incident_classification_reason_model_v(), required: false },
            FieldV { name: "labels"@, convention: ConvV::Camel, ty: ModelV::List(seq![incident_label_model_v()]), required: false },
            FieldV { name: "owner"@, convention: ConvV::Camel, ty: incident_owner_info_model_v(), required: false },
            FieldV { name: "severity"@, convention: ConvV::Camel, ty: incident_severity_model_v(), required: false },
            FieldV { name: "status"@, convention: ConvV::Camel, ty: incident_status_model_v(), required: false },
        ],
    }
}


pub fn incident_properties_action_properties_model() -> (r: TypeModel)
    ensures
        r@ == incident_properties_action_properties_model_v(),
{
    let mut fs: Vec<FieldDef> = Vec::new();
    fs.push(fd_camel("classification", incident_classification_model(), false));
    fs.push(fd_camel("classification_comment", TypeModel::Primitive(PrimitiveKind::Text), false));
    fs.push(fd_camel("classification_reason", incident_classification_reason_model(), false));
    fs.push(fd_camel("labels", list_of(incident_label_model()), false));
    fs.push(fd_camel("owner", incident_owner_info_model(), false));
    fs.push(fd_camel("severity", incident_severity_model(), false));
    fs.push(fd_camel("status", incident_status_model(), false));
    let ghost gf = fs@;
    let r = struct_model("IncidentPropertiesActionProperties", fs);
    proof {
        assert(fview_seq(gf) =~= seq![
            FieldV { name: "classification"@, convention: ConvV::Camel, ty: incident_classification_model_v(), required: false },
            FieldV { name: "classification_comment"@, convention: ConvV::Camel, ty: ModelV::Primitive(PrimitiveKind::Text), required: false },
            FieldV { name: "classification_reason"@, convention: ConvV::Camel, ty: incident_classification_reason_model_v(), required: false },
            FieldV { name: "labels"@, convention: ConvV::Camel, ty: ModelV::List(seq![incident_label_model_v()]), required: false },
            FieldV { name: "owner"@, convention: ConvV::Camel, ty: incident_owner_info_model_v(), required: false },
            FieldV { name: "severity"@, convention: ConvV::Camel, ty: incident_severity_model_v(), required: false },
            FieldV { name: "status"@, convention: ConvV::Camel, ty: incident_status_model_v(), required: false },
        ]);
        assert(r@ == incident_properties_action_properties_model_v());
    }
    r
}

pub open spec fn playbook_action_properties_model_v() -> ModelV {
    ModelV::Struct {
        name: "PlaybookActionProperties"@,
        fields: seq![
            FieldV { name: "logic_app_resource_id"@, convention: ConvV::Camel, ty: ModelV::Primitive(PrimitiveKind::Text), required: true },
            FieldV { name: "tenant_id"@, convention: ConvV::Camel, ty: ModelV::Primitive(PrimitiveKind::Text), required: true },
        ],
    }
}


pub fn playbook_action_properties_model() -> (r: TypeModel)
    ensures
        r@ == playbook_action_properties_model_v(),
{
    let mut fs: Vec<FieldDef> = Vec::new();
    fs.push(fd_camel("logic_app_resource_id", TypeModel::Primitive(PrimitiveKind::Text), true));
    fs.push(fd_camel("tenant_id", TypeModel::Primitive(PrimitiveKind::Text), true));
    let ghost gf = fs@;
    let r = struct_model("PlaybookActionProperties", fs);
    proof {
        assert(fview_seq(gf) =~= seq![
            FieldV { name: "logic_app_resource_id"@, convention: ConvV::Camel, ty: ModelV::Primitive(PrimitiveKind::Text), required: true },
            FieldV { name: "tenant_id"@, convention: ConvV::Camel, ty: ModelV::Primitive(PrimitiveKind::Text), required: true },
        ]);
        assert(r@ == playbook_action_properties_model_v());
    }
    r
}

pub open spec fn add_incident_task_action_properties_model_v() -> ModelV {
    ModelV::Struct {
        name: "AddIncidentTaskActionProperties"@,
        fields: seq![
            FieldV { name: "description"@, convention: ConvV::Camel, ty: ModelV::Primitive(PrimitiveKind::Text), required: true },
            FieldV { name: "title"@, convention: ConvV::Camel, ty: ModelV::Primitive(PrimitiveKind::Text), required: true },
        ],
    }
}


pub fn add_incident_task_action_properties_model() -> (r: TypeModel)
    ensures
        r@ == add_incident_task_action_properties_model_v(),
{
    let mut fs: Vec<FieldDef> = Vec::new();
    fs.push(fd_camel("description", TypeModel::Primitive(PrimitiveKind::Text), true));
    fs.push(fd_camel("title", TypeModel::Primitive(PrimitiveKind::Text), true));
    let ghost gf = fs@;
    let r = struct_model("AddIncidentTaskActionProperties", fs);
    proof {
        assert(fview_seq(gf) =~= seq![
            FieldV { name: "description"@, convention: ConvV::Camel, ty: ModelV::Primitive(PrimitiveKind::Text), required: true },
            FieldV { name: "title"@, convention: ConvV::Camel, ty: ModelV::Primitive(PrimitiveKind::Text), required: true },
        ]);
        assert(r@ == add_incident_task_action_properties_model_v());
    }
    r
}

pub open spec fn triggering_logic_model_v() -> ModelV {
    ModelV::Struct {
        name: "TriggeringLogic"@,
        fields: seq![
            FieldV { name: "conditions"@, convention: ConvV::Camel, ty: ModelV::List(seq![condition_model_v()]), required: true },
            FieldV { name: "expiration_time_utc"@, convention: ConvV::Camel, ty: ModelV::Primitive(PrimitiveKind::Text), required: true },
            FieldV { name: "is_enabled"@, convention: ConvV::Camel, ty: ModelV::Primitive(PrimitiveKind::Boolean), required: true },
            FieldV { name: "triggers_on"@, convention: ConvV::Camel, ty: triggers_on_model_v(), required: true },
            FieldV { name: "triggers_when"@, convention: ConvV::Camel, ty: triggers_when_model_v(), required: true },
        ],
    }
}


pub fn triggering_logic_model() -> (r: TypeModel)
    ensures
        r@ == triggering_logic_model_v(),
{
    let mut fs: Vec<FieldDef> = Vec::new();
    fs.push(fd_camel("conditions", list_of(condition_model()), true));
    fs.push(fd_camel("expiration_time_utc", TypeModel::Primitive(PrimitiveKind::Text), true));
    fs.push(fd_camel("is_enabled", TypeModel::Primitive(PrimitiveKind::Boolean), true));
    fs.push(fd_camel("triggers_on", triggers_on_model(), true));
    fs.push(fd_camel("triggers_when", triggers_when_model(), true));
    let ghost gf = fs@;
    let r = struct_model("TriggeringLogic", fs);
    proof {
        assert(fview_seq(gf) =~= seq![
            FieldV { name: "conditions"@, convention: ConvV::Camel, ty: ModelV::List(seq![condition_model_v()]), required: true },
            FieldV { name: "expiration_time_utc"@, convention: ConvV::Camel, ty: ModelV::Primitive(PrimitiveKind::Text), required: true },
            FieldV { name: "is_enabled"@, convention: ConvV::Camel, ty: ModelV::Primitive(PrimitiveKind::Boolean), required: true },
            FieldV { name: "triggers_on"@, convention: ConvV::Camel, ty: triggers_on_model_v(), required: true },
            FieldV { name: "triggers_when"@, convention: ConvV::Camel, ty: triggers_when_model_v(), required: true },
        ]);
        assert(r@ == triggering_logic_model_v());
    }
    r
}

pub open spec fn action_model_v() -> ModelV {
    ModelV::TaggedUnion {
        discriminator: "actionType"@,
        variants: seq![
        UnionVariantV {
            tag: "AddIncidentTask"@,
            payload_field: "value"@,
            payload_convention: ConvV::Camel,
            payload: ModelV::Struct {
                name: "AddIncidentTagAction"@,
                fields: seq![
                    FieldV { name: "action_configuration"@, convention: ConvV::Camel, ty: add_incident_task_action_properties_model_v(), required: true },
                    FieldV { name: "order"@, convention: ConvV::Camel, ty: ModelV::Primitive(PrimitiveKind::Integer), required: true },
                ],
            },
        },
        UnionVariantV {
            tag: "RunPlaybook"@,
            payload_field: "value"@,
            payload_convention: ConvV::Camel,
            payload: ModelV::Struct {
                name: "RunPlaybookAction"@,
                fields: seq![
                    FieldV { name: "action_configuration"@, convention: ConvV::Camel, ty: playbook_action_properties_model_v(), required: true },
                    FieldV { name: "order"@, convention: ConvV::Camel, ty: ModelV::Primitive(PrimitiveKind::Integer), required: true },
                ],
            },
        },
        UnionVariantV {
            tag: "ModifyProperties"@,
            payload_field: "value"@,
            payload_convention: ConvV::Camel,
            payload: ModelV::Struct {
                name: "ModifyPropertiesAction"@,
                fields: seq![
                    FieldV { name: "action_configuration"@, convention: ConvV::Camel, ty: incident_properties_action_properties_model_v(), required: true },
                    FieldV { name: "order"@, convention: ConvV::Camel, ty: ModelV::Primitive(PrimitiveKind::Integer), required: true },
                ],
            },
        },
        ],
    }
}

#[verifier::rlimit(50)]
pub fn action_model() -> (r: TypeModel)
    ensures
        r@ == action_model_v(),
{
    let mut vs: Vec<UnionVariant> = Vec::new();
    let mut f0: Vec<FieldDef> = Vec::new();
    f0.push(fd_camel("action_configuration", add_incident_task_action_properties_model(), true));
    f0.push(fd_camel("order", TypeModel::Primitive(PrimitiveKind::Integer), true));
    let ghost g0 = f0@;
    let p0 = struct_model("AddIncidentTagAction", f0);
    proof {
        assert(fview_seq(g0) =~= seq![
            FieldV { name: "action_configuration"@, convention: ConvV::Camel, ty: add_incident_task_action_properties_model_v(), required: true },
            FieldV { name: "order"@, convention: ConvV::Camel, ty: ModelV::Primitive(PrimitiveKind::Integer), required: true },
        ]);
    }
    vs.push(uv_struct("AddIncidentTask", p0));
    let mut f1: Vec<FieldDef> = Vec::new();
    f1.push(fd_camel("action_configuration", playbook_action_properties_model(), true));
    f1.push(fd_camel("order", TypeModel::Primitive(PrimitiveKind::Integer), true));
    let ghost g1 = f1@;
    let p1 = struct_model("RunPlaybookAction", f1);
    proof {
        assert(fview_seq(g1) =~= seq![
            FieldV { name: "action_configuration"@, convention: ConvV::Camel, ty: playbook_action_properties_model_v(), required: true },
            FieldV { name: "order"@, convention: ConvV::Camel, ty: ModelV::Primitive(PrimitiveKind::Integer), required: true },
        ]);
    }
    vs.push(uv_struct("RunPlaybook", p1));
    let mut f2: Vec<FieldDef> = Vec::new();
    f2.push(fd_camel("action_configuration", incident_properties_action_properties_model(), true));
    f2.push(fd_camel("order", TypeModel::Primitive(PrimitiveKind::Integer), true));
    let ghost g2 = f2@;
    let p2 = struct_model("ModifyPropertiesAction", f2);
    proof {
        assert(fview_seq(g2) =~= seq![
            FieldV { name: "action_configuration"@, convention: ConvV::Camel, ty: incident_properties_action_properties_model_v(), required: true },
            FieldV { name: "order"@, convention: ConvV::Camel, ty: ModelV::Primitive(PrimitiveKind::Integer), required: true },
        ]);
    }
    vs.push(uv_struct("ModifyProperties", p2));
    let ghost gv = vs@;
    let r = union_model("actionType", vs);
    proof {
        assert(uview_seq(gv) =~= action_model_v()->TaggedUnion_variants);
        assert(r@ == action_model_v());
    }
    r
}

pub open spec fn automation_rule_properties_model_v() -> ModelV {
    ModelV::Struct {
        name: "Properties"@,
        fields: seq![
            FieldV { name: "actions"@, convention: ConvV::Camel, ty: ModelV::List(seq![action_model_v()]), required: true },
            FieldV { name: "display_name"@, convention: ConvV::Camel, ty: ModelV::Primitive(PrimitiveKind::Text), required: true },
            FieldV { name: "order"@, convention: ConvV::Camel, ty: ModelV::Primitive(PrimitiveKind::Integer), required: true },
            FieldV { name: "triggering_logic"@, convention: ConvV::Camel, ty: triggering_logic_model_v(), required: true },
        ],
    }
}


pub fn automation_rule_properties_model() -> (r: TypeModel)
    ensures
        r@ == automation_rule_properties_model_v(),
{
    let mut fs: Vec<FieldDef> = Vec::new();
    fs.push(fd_camel("actions", list_of(action_model()), true));
    fs.push(fd_camel("display_name", TypeModel::Primitive(PrimitiveKind::Text), true));
    fs.push(fd_camel("order", TypeModel::Primitive(PrimitiveKind::Integer), true));
    fs.push(fd_camel("triggering_logic", triggering_logic_model(), true));
    let ghost gf = fs@;
    let r = struct_model("Properties", fs);
    proof {
        assert(fview_seq(gf) =~= seq![
            FieldV { name: "actions"@, convention: ConvV::Camel, ty: ModelV::List(seq![action_model_v()]), required: true },
            FieldV { name: "display_name"@, convention: ConvV::Camel, ty: ModelV::Primitive(PrimitiveKind::Text), required: true },
            FieldV { name: "order"@, convention: ConvV::Camel, ty: ModelV::Primitive(PrimitiveKind::Integer), required: true },
            FieldV { name: "triggering_logic"@, convention: ConvV::Camel, ty: triggering_logic_model_v(), required: true },
        ]);
        assert(r@ == automation_rule_properties_model_v());
    }
    r
}

pub open spec fn automation_rule_spec_model_v() -> ModelV {
    ModelV::Struct {
        name: "MicrosoftSentinelAutomationRuleSpec"@,
        fields: seq![
            FieldV { name: "properties"@, convention: ConvV::Camel, ty: automation_rule_properties_model_v(), required: true },
        ],
    }
}


pub fn automation_rule_spec_model() -> (r: TypeModel)
    ensures
        r@ == automation_rule_spec_model_v(),
{
    let mut fs: Vec<FieldDef> = Vec::new();
    fs.push(fd_camel("properties", automation_rule_properties_model(), true));
    let ghost gf = fs@;
    let r = struct_model("MicrosoftSentinelAutomationRuleSpec", fs);
    proof {
        assert(fview_seq(gf) =~= seq![
            FieldV { name: "properties"@, convention: ConvV::Camel, ty: automation_rule_properties_model_v(), required: true },
        ]);
        assert(r@ == automation_rule_spec_model_v());
    }
    r
}

pub open spec fn automation_crd_name_model_v() -> ModelV {
    ModelV::Enum {
        name: "CRDName"@,
        variants: seq![
            VariantV { name: "MicrosoftSentinelAutomationRule"@, convention: ConvV::Rename("MicrosoftSentinelAutomationRule"@) },
        ],
    }
}


pub fn automation_crd_name_model() -> (r: TypeModel)
    ensures
        r@ == automation_crd_name_model_v(),
{
    let mut vs: Vec<VariantDef> = Vec::new();
    vs.push(vd_verbatim("MicrosoftSentinelAutomationRule"));
    let ghost gv = vs@;
    let r = enum_model("CRDName", vs);
    proof {
        assert(gv.map_values(|v: VariantDef| vview(v)) =~= seq![
            VariantV { name: "MicrosoftSentinelAutomationRule"@, convention: ConvV::Rename("MicrosoftSentinelAutomationRule"@) },
        ]);
        assert(r@ == automation_crd_name_model_v());
    }
    r
}

pub open spec fn automation_api_version_model_v() -> ModelV {
    ModelV::Enum {
        name: "APIVersion"@,
        variants: seq![
            VariantV { name: "BuildrLabs"@, convention: ConvV::Rename("buildrlabs.io/v1"@) },
        ],
    }
}


pub fn automation_api_version_model() -> (r: TypeModel)
    ensures
        r@ == automation_api_version_model_v(),
{
    let mut vs: Vec<VariantDef> = Vec::new();
    vs.push(vd_renamed("BuildrLabs", "buildrlabs.io/v1"));
    let ghost gv = vs@;
    let r = enum_model("APIVersion", vs);
    proof {
        assert(gv.map_values(|v: VariantDef| vview(v)) =~= seq![
            VariantV { name: "BuildrLabs"@, convention: ConvV::Rename("buildrlabs.io/v1"@) },
        ]);
        assert(r@ == automation_api_version_model_v());
    }
    r
}

pub open spec fn automation_metadata_model_v() -> ModelV {
    ModelV::Struct {
        name: "Metadata"@,
        fields: seq![
            FieldV { name: "name"@, convention: ConvV::Camel, ty: ModelV::Primitive(PrimitiveKind::Text), required: true },
            FieldV { name: "namespace"@, convention: ConvV::Camel, ty: ModelV::Primitive(PrimitiveKind::Text), required: false },
            FieldV { name: "additional_properties"@, convention: ConvV::Camel, ty: ModelV::PassThrough, required: false },
        ],
    }
}


pub fn automation_metadata_model() -> (r: TypeModel)
    ensures
        r@ == automation_metadata_model_v(),
{
    let mut fs: Vec<FieldDef> = Vec::new();
    fs.push(fd_camel("name", TypeModel::Primitive(PrimitiveKind::Text), true));
    fs.push(fd_camel("namespace", TypeModel::Primitive(PrimitiveKind::Text), false));
    fs.push(fd_camel("additional_properties", TypeModel::PassThrough, false));
    let ghost gf = fs@;
    let r = struct_model("Metadata", fs);
    proof {
        assert(fview_seq(gf) =~= seq![
            FieldV { name: "name"@, convention: ConvV::Camel, ty: ModelV::Primitive(PrimitiveKind::Text), required: true },
            FieldV { name: "namespace"@, convention: ConvV::Camel, ty: ModelV::Primitive(PrimitiveKind::Text), required: false },
            FieldV { name: "additional_properties"@, convention: ConvV::Camel, ty: ModelV::PassThrough, required: false },
        ]);
        assert(r@ == automation_metadata_model_v());
    }
    r
}

pub open spec fn automation_rule_crd_model_v() -> ModelV {
    ModelV::Struct {
        name: "MicrosoftSentinelAutomationRuleCRD"@,
        fields: seq![
            FieldV { name: "kind"@, convention: ConvV::Camel, ty: automation_crd_name_model_v(), required: true },
            FieldV { name: "spec"@, convention: ConvV::Camel, ty: automation_rule_spec_model_v(), required: true },
            FieldV { name: "api_version"@, convention: ConvV::Camel, ty: automation_api_version_model_v(), required: true },
            FieldV { name: "metadata"@, convention: ConvV::Camel, ty: automation_metadata_model_v(), required: true },
        ],
    }
}


pub fn automation_rule_crd_model() -> (r: TypeModel)
    ensures
        r@ == automation_rule_crd_model_v(),
{
    let mut fs: Vec<FieldDef> = Vec::new();
    fs.push(fd_camel("kind", automation_crd_name_model(), true));
    fs.push(fd_camel("spec", automation_rule_spec_model(), true));
    fs.push(fd_camel("api_version", automation_api_version_model(), true));
    fs.push(fd_camel("metadata", automation_metadata_model(), true));
    let ghost gf = fs@;
    let r = struct_model("MicrosoftSentinelAutomationRuleCRD", fs);
    proof {
        assert(fview_seq(gf) =~= seq![
            FieldV { name: "kind"@, convention: ConvV::Camel, ty: automation_crd_name_model_v(), required: true },
            FieldV { name: "spec"@, convention: ConvV::Camel, ty: automation_rule_spec_model_v(), required: true },
            FieldV { name: "api_version"@, convention: ConvV::Camel, ty: automation_api_version_model_v(), required: true },
            FieldV { name: "metadata"@, convention: ConvV::Camel, ty: automation_metadata_model_v(), required: true },
        ]);
        assert(r@ == automation_rule_crd_model_v());
    }
    r
}

pub open spec fn automation_rule_status_model_v() -> ModelV {
    ModelV::Struct {
        name: "MicrosoftSentinelAutomationRuleStatus"@,
        fields: seq![
            FieldV { name: "message"@, convention: ConvV::Rename("message"@), ty: ModelV::Primitive(PrimitiveKind::Text), required: true },
            FieldV { name: "deployed"@, convention: ConvV::Rename("deployed"@), ty: ModelV::Primitive(PrimitiveKind::Text), required: true },
            FieldV { name: "enabled"@, convention: ConvV::Rename("enabled"@), ty: ModelV::Primitive(PrimitiveKind::Text), required: true },
        ],
    }
}


pub fn automation_rule_status_model() -> (r: TypeModel)
    ensures
        r@ == automation_rule_status_model_v(),
{
    let mut fs: Vec<FieldDef> = Vec::new();
    fs.push(fd_verbatim("message", TypeModel::Primitive(PrimitiveKind::Text), true));
    fs.push(fd_verbatim("deployed", TypeModel::Primitive(PrimitiveKind::Text), true));
    fs.push(fd_verbatim("enabled", TypeModel::Primitive(PrimitiveKind::Text), true));
    let ghost gf = fs@;
    let r = struct_model("MicrosoftSentinelAutomationRuleStatus", fs);
    proof {
        assert(fview_seq(gf) =~= seq![
            FieldV { name: "message"@, convention: ConvV::Rename("message"@), ty: ModelV::Primitive(PrimitiveKind::Text), required: true },
            FieldV { name: "deployed"@, convention: ConvV::Rename("deployed"@), ty: ModelV::Primitive(PrimitiveKind::Text), required: true },
            FieldV { name: "enabled"@, convention: ConvV::Rename("enabled"@), ty: ModelV::Primitive(PrimitiveKind::Text), required: true },
        ]);
        assert(r@ == automation_rule_status_model_v());
    }
    r
}

pub open spec fn automation_rule_crd_spec_model_v() -> ModelV {
    ModelV::Struct {
        name: "MicrosoftSentinelAutomationRuleCRDSpec"@,
        fields: seq![
            FieldV { name: "additional_fields"@, convention: ConvV::Camel, ty: ModelV::PassThrough, required: false },
        ],
    }
}


pub fn automation_rule_crd_spec_model() -> (r: TypeModel)
    ensures
        r@ == automation_rule_crd_spec_model_v(),
{
    let mut fs: Vec<FieldDef> = Vec::new();
    fs.push(fd_camel("additional_fields", TypeModel::PassThrough, false));
    let ghost gf = fs@;
    let r = struct_model("MicrosoftSentinelAutomationRuleCRDSpec", fs);
    proof {
        assert(fview_seq(gf) =~= seq![
            FieldV { name: "additional_fields"@, convention: ConvV::Camel, ty: ModelV::PassThrough, required: false },
        ]);
        assert(r@ == automation_rule_crd_spec_model_v());
    }
    r
}

pub open spec fn automation_rule_descriptor_v() -> DescV {
    DescV {
        group: "buildrlabs.io"@,
        version: "v1"@,
        kind: "MicrosoftSentinelAutomationRule"@,
        plural: "microsoftsentinelautomationrules"@,
        singular: "microsoftsentinelautomationrule"@,
        namespaced: true,
        short_names: seq!["msautomation"@, "msautomations"@, "msautomationrule"@, "msautomationrules"@],
        printer_columns: seq![
            PrinterColumnV { name: "Status"@, col_type: "string"@, description: "Checks if the Automation Rule is deployed to Microsoft Sentinel"@, json_path: ".status.create_automation_rule.deployed"@ },
            PrinterColumnV { name: "Enabled"@, col_type: "string"@, description: "Checks if the Automation Rule is enabled in Microsoft Sentinel"@, json_path: ".status.create_automation_rule.enabled"@ },
            PrinterColumnV { name: "Message"@, col_type: "string"@, description: "Additional information about the deployment status"@, json_path: ".status.create_automation_rule.message"@ },
        ],
        status_subresource: true,
    }
}

pub fn automation_rule_descriptor() -> (r: CrdDescriptor)
    ensures
        r@ == automation_rule_descriptor_v(),
{
    let mut sn: Vec<String> = Vec::new();
    sn.push(text("msautomation"));
    sn.push(text("msautomations"));
    sn.push(text("msautomationrule"));
    sn.push(text("msautomationrules"));
    let mut pc: Vec<PrinterColumn> = Vec::new();
    pc.push(PrinterColumn {
        name: text("Status"),
        col_type: text("string"),
        description: text("Checks if the Automation Rule is deployed to Microsoft Sentinel"),
        json_path: text(".status.create_automation_rule.deployed"),
    });
    pc.push(PrinterColumn {
        name: text("Enabled"),
        col_type: text("string"),
        description: text("Checks if the Automation Rule is enabled in Microsoft Sentinel"),
        json_path: text(".status.create_automation_rule.enabled"),
    });
    pc.push(PrinterColumn {
        name: text("Message"),
        col_type: text("string"),
        description: text("Additional information about the deployment status"),
        json_path: text(".status.create_automation_rule.message"),
    });
    let ghost gs = sn@;
    let ghost gp = pc@;
    let r = CrdDescriptor {
        group: text("buildrlabs.io"),
        version: text("v1"),
        kind: text("MicrosoftSentinelAutomationRule"),
        plural: text("microsoftsentinelautomationrules"),
        singular: text("microsoftsentinelautomationrule"),
        namespaced: true,
        short_names: sn,
        printer_columns: pc,
        status_subresource: true,
    };
    proof {
        assert(r@.short_names =~= automation_rule_descriptor_v().short_names);
        assert(r@.printer_columns =~= automation_rule_descriptor_v().printer_columns);
        assert(r@ == automation_rule_descriptor_v());
    }
    r
}

/// This resource's finished artifacts, in a fixed order. Each artifact
/// is produced independently; the first failure is reported.
pub fn artifacts() -> (r: Result<Vec<Artifact>, BuildError>)
    ensures
        r matches Ok(arts) ==> {
            &&& arts@.len() == 3
            &&& (crd_doc(automation_rule_descriptor_v(), automation_rule_crd_spec_model_v(), Some(automation_rule_status_model_v())) matches Ok(man)
                && arts@[0]@ == (ArtifactV {
                group: "crds"@,
                name: "MicrosoftSentinelAutomationRule"@,
                contents: yaml_text(man),
            }))
            &&& (synth(automation_rule_spec_model_v()) matches Ok(w) && arts@[1]@
                == (ArtifactV {
                group: "jsonschema"@,
                name: "MicrosoftSentinelAutomationRule"@,
                contents: json_pretty_text(w),
            }))
            &&& (synth(automation_rule_crd_model_v()) matches Ok(w) && arts@[2]@
                == (ArtifactV {
                group: "jsonschema"@,
                name: "MicrosoftSentinelAutomationRuleCRD"@,
                contents: json_pretty_text(w),
            }))
        },
        ({
            let doc = crd_doc(automation_rule_descriptor_v(), automation_rule_crd_spec_model_v(), Some(automation_rule_status_model_v()));
            &&& (({
                &&& doc matches Ok(man)
                &&& yaml_renders(man)
                &&& (synth(automation_rule_spec_model_v()) matches Ok(w0) && json_renders(w0))
                &&& (synth(automation_rule_crd_model_v()) matches Ok(w1) && json_renders(w1))
            }) ==> r is Ok)
            &&& (r matches Err(e) ==> {
                ||| doc == Err::<JsonV, ErrV>(e@)
                ||| (doc matches Ok(man) && !yaml_renders(man) && e@ is ArtifactWrite)
                ||| synth(automation_rule_spec_model_v()) == Err::<JsonV, ErrV>(e@)
                ||| (synth(automation_rule_spec_model_v()) matches Ok(w0) && !json_renders(w0) && e@ is ArtifactWrite)
                ||| synth(automation_rule_crd_model_v()) == Err::<JsonV, ErrV>(e@)
                ||| (synth(automation_rule_crd_model_v()) matches Ok(w1) && !json_renders(w1) && e@ is ArtifactWrite)
            })
        }),
{
    let d0 = automation_rule_descriptor();
    let sm0 = automation_rule_crd_spec_model();
    let st0 = automation_rule_status_model();
    let a0 = match crd_yaml_artifact("MicrosoftSentinelAutomationRule", &d0, &sm0, Some(&st0)) {
        Ok(a) => a,
        Err(e) => {
            return Err(e);
        },
    };
    let m1 = automation_rule_spec_model();
    let a1 = match schema_json_artifact("MicrosoftSentinelAutomationRule", &m1) {
        Ok(a) => a,
        Err(e) => {
            return Err(e);
        },
    };
    let m2 = automation_rule_crd_model();
    let a2 = match schema_json_artifact("MicrosoftSentinelAutomationRuleCRD", &m2) {
        Ok(a) => a,
        Err(e) => {
            return Err(e);
        },
    };
    let mut out: Vec<Artifact> = Vec::new();
    out.push(a0);
    out.push(a1);
    out.push(a2);
    Ok(out)
}

} // verus!
