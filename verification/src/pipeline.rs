//! One resource's artifacts: the manifest as YAML and standalone
//! schemas as pretty JSON, each produced independently.
use vstd::prelude::*;

use crate::crd::CrdDescriptor;
use crate::crd::assemble;
use crate::crd::assemble_spec;
use crate::crd::lemma_manifest_wf;
use crate::emit::json_pretty_text;
use crate::emit::json_renders;
use crate::emit::render_json_pretty;
use crate::emit::render_yaml;
use crate::emit::yaml_renders;
use crate::emit::yaml_text;
use crate::errors::BuildError;
use crate::errors::ErrV;
use crate::json::JsonV;
use crate::json::jview;
use crate::model::TypeModel;
use crate::model::ModelV;
use crate::model::mview;
use crate::model::text;
use crate::synth::lemma_synth_wf;
use crate::synth::synth;
use crate::synth::synthesize;

verus! {

/// One finished output: an artifact group (a directory name), a logical
/// name (the file stem) and the rendered text.
#[derive(Debug, PartialEq)]
pub struct Artifact {
    pub group: String,
    pub name: String,
    pub contents: String,
}

pub ghost struct ArtifactV {
    pub group: Seq<char>,
    pub name: Seq<char>,
    pub contents: Seq<char>,
}

impl View for Artifact {
    type V = ArtifactV;

    open spec fn view(&self) -> ArtifactV {
        ArtifactV { group: self.group@, name: self.name@, contents: self.contents@ }
    }
}

pub open spec fn opt_mview(m: Option<&TypeModel>) -> Option<ModelV> {
    match m {
        Some(t) => Some(mview(*t)),
        None => None,
    }
}

pub open spec fn opt_synth(m: Option<ModelV>) -> Result<Option<JsonV>, ErrV> {
    match m {
        None => Ok(None),
        Some(x) => match synth(x) {
            Ok(j) => Ok(Some(j)),
            Err(e) => Err(e),
        },
    }
}

/// The manifest document of one resource: its spec schema and optional
/// status schema, assembled under its descriptor.
pub open spec fn crd_doc(d: crate::crd::DescV, spec_m: ModelV, status_m: Option<ModelV>) -> Result<
    JsonV,
    ErrV,
> {
    match synth(spec_m) {
        Err(e) => Err(e),
        Ok(ss) => match opt_synth(status_m) {
            Err(e) => Err(e),
            Ok(st) => assemble_spec(d, ss, st),
        },
    }
}

/// Builds the manifest for one resource and renders it as YAML under
/// the `crds` artifact group. It succeeds exactly when synthesis and
/// assembly succeed and the serializer accepts the manifest; it fails
/// with the synthesis or assembly error, or — reported as an
/// artifact-writing error — exactly when the serializer refuses.
pub fn crd_yaml_artifact(
    name: &str,
    d: &CrdDescriptor,
    spec_m: &TypeModel,
    status_m: Option<&TypeModel>,
) -> (r: Result<Artifact, BuildError>)
    ensures
        ({
            let doc = crd_doc(d@, spec_m@, opt_mview(status_m));
            &&& (r matches Ok(a) ==> (doc matches Ok(man) && yaml_renders(man) && a@
                == (ArtifactV {
                group: "crds"@,
                name: name@,
                contents: yaml_text(man),
            })))
            &&& (r matches Err(e) ==> doc == Err::<JsonV, ErrV>(e@) || (doc matches Ok(
                man,
            ) && !yaml_renders(man) && e@ is ArtifactWrite))
            &&& ((doc matches Ok(man) && yaml_renders(man)) ==> r is Ok)
        }),
{
    let spec_schema = match synthesize(spec_m) {
        Ok(j) => j,
        Err(e) => {
            return Err(e);
        },
    };
    proof {
        lemma_synth_wf(spec_m@);
    }
    let status_schema = match status_m {
        None => None,
        Some(t) => match synthesize(t) {
            Ok(j) => {
                proof {
                    lemma_synth_wf(mview(*t));
                }
                Some(j)
            },
            Err(e) => {
                return Err(e);
            },
        },
    };
    let ghost gstatus = crate::crd::opt_jview(status_schema);
    let doc = match assemble(d, spec_schema, status_schema) {
        Ok(j) => j,
        Err(e) => {
            return Err(e);
        },
    };
    proof {
        lemma_manifest_wf(d@, jview(spec_schema), gstatus);
    }
    match render_yaml(&doc) {
        Ok(s) => Ok(Artifact { group: text("crds"), name: text(name), contents: s }),
        Err(e) => Err(e),
    }
}

/// Synthesizes the schema of one model and renders it as pretty JSON
/// under the `jsonschema` artifact group. It succeeds exactly when
/// synthesis succeeds and the serializer accepts the schema; it fails
/// with the synthesis error, or — reported as an artifact-writing
/// error — exactly when the serializer refuses.
pub fn schema_json_artifact(name: &str, m: &TypeModel) -> (r: Result<Artifact, BuildError>)
    ensures
        (r matches Ok(a) ==> (synth(m@) matches Ok(j) && json_renders(j) && a@
            == (ArtifactV {
            group: "jsonschema"@,
            name: name@,
            contents: json_pretty_text(j),
        }))),
        (r matches Err(e) ==> synth(m@) == Err::<JsonV, ErrV>(e@) || (synth(m@) matches
            Ok(j) && !json_renders(j) && e@ is ArtifactWrite)),
        ((synth(m@) matches Ok(j) && json_renders(j)) ==> r is Ok),
{
    let schema = match synthesize(m) {
        Ok(j) => j,
        Err(e) => {
            return Err(e);
        },
    };
    proof {
        lemma_synth_wf(m@);
    }
    match render_json_pretty(&schema) {
        Ok(s) => Ok(
            Artifact { group: text("jsonschema"), name: text(name), contents: s },
        ),
        Err(e) => Err(e),
    }
}

} // verus!
