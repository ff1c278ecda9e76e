//! Synthesis of Kubernetes custom-resource manifests and JSON Schema
//! documents from a typed model of each resource.
//!
//! A resource's shape is described by a [`model::TypeModel`] value. The
//! synthesizer ([`synth::synthesize`]) lowers it to an OpenAPI-v3-style
//! schema ([`json::Json`]), the assembler ([`crd::assemble`]) wraps that
//! schema into a full custom-resource manifest, and the emitter renders
//! documents as YAML or pretty JSON text. The resource modules hold the
//! definitions that are published, one module per resource kind.
pub mod crd;
pub mod emit;
pub mod errors;
pub mod example_crd_template;
pub mod json;
pub mod laws;
pub mod microsoft_sentinel_analytic_rule;
pub mod microsoft_sentinel_automation_rule;
pub mod microsoft_sentinel_macro;
pub mod microsoft_sentinel_workbook;
pub mod model;
pub mod naming;
pub mod pipeline;
pub mod synth;

pub use crd::CrdDescriptor;
pub use errors::BuildError;
pub use json::Json;
pub use json::JsonV;
pub use model::TypeModel;
pub use pipeline::Artifact;
