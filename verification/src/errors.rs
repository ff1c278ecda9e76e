//! Build-time failures of synthesis and assembly, and the per-artifact
//! rendering failure.
//!
//! Structural errors carry the path of field names (and union branch
//! tags) leading to the offending definition: each enclosing walk adds
//! its field's name to the front as the error travels outward, so the
//! report names both the identifiers at fault and where they stand.
use vstd::prelude::*;
use vstd::string::StringExecFns;

use crate::model::text;

verus! {

/// Why a resource's generation failed.
#[derive(Debug, PartialEq)]
pub enum BuildError {
    /// Two identifiers of one struct (or of one union branch) map to the
    /// same serialized key. `path` locates the struct: the field names
    /// leading to it from the synthesized root.
    NamingCollision { path: Vec<String>, first: String, second: String },
    /// Two variants of one tagged union carry the same discriminator
    /// value; `path` locates the union.
    DuplicateDiscriminatorTag { path: Vec<String>, tag: String },
    /// A short name occurs twice in a descriptor.
    DuplicateShortName { name: String },
    /// A short name is empty or not lowercase.
    InvalidShortName { name: String },
    /// A finished document could not be rendered or persisted.
    ArtifactWrite { message: String },
}

pub ghost enum ErrV {
    NamingCollision { path: Seq<Seq<char>>, first: Seq<char>, second: Seq<char> },
    DuplicateDiscriminatorTag { path: Seq<Seq<char>>, tag: Seq<char> },
    DuplicateShortName { name: Seq<char> },
    InvalidShortName { name: Seq<char> },
    ArtifactWrite { message: Seq<char> },
}

impl View for BuildError {
    type V = ErrV;

    open spec fn view(&self) -> ErrV {
        match self {
            BuildError::NamingCollision { path, first, second } => ErrV::NamingCollision {
                path: path.deep_view(),
                first: first@,
                second: second@,
            },
            BuildError::DuplicateDiscriminatorTag { path, tag } => ErrV::DuplicateDiscriminatorTag {
                path: path.deep_view(),
                tag: tag@,
            },
            BuildError::DuplicateShortName { name } => ErrV::DuplicateShortName { name: name@ },
            BuildError::InvalidShortName { name } => ErrV::InvalidShortName { name: name@ },
            BuildError::ArtifactWrite { message } => ErrV::ArtifactWrite { message: message@ },
        }
    }
}

/// The same failure, seen one level further out: a structural error
/// gains the enclosing field name (or union branch tag) at the front of
/// its path; the other failures are unchanged.
pub open spec fn err_push_name(name: Seq<char>, e: ErrV) -> ErrV {
    match e {
        ErrV::NamingCollision { path, first, second } => ErrV::NamingCollision {
            path: seq![name] + path,
            first,
            second,
        },
        ErrV::DuplicateDiscriminatorTag { path, tag } => ErrV::DuplicateDiscriminatorTag {
            path: seq![name] + path,
            tag,
        },
        _ => e,
    }
}

/// Reports `e` from within the field (or branch) called `name`.
pub fn err_in_field(name: &str, e: BuildError) -> (r: BuildError)
    ensures
        r@ == err_push_name(name@, e@),
{
    match e {
        BuildError::NamingCollision { path, first, second } => {
            let ghost gp = path.deep_view();
            let mut p = path;
            p.insert(0, text(name));
            proof {
                assert(p.deep_view() =~= seq![name@] + gp);
            }
            BuildError::NamingCollision { path: p, first, second }
        },
        BuildError::DuplicateDiscriminatorTag { path, tag } => {
            let ghost gp = path.deep_view();
            let mut p = path;
            p.insert(0, text(name));
            proof {
                assert(p.deep_view() =~= seq![name@] + gp);
            }
            BuildError::DuplicateDiscriminatorTag { path: p, tag }
        },
        other => other,
    }
}

/// The dotted rendering of a field path, in order.
pub open spec fn path_text(p: Seq<Seq<char>>) -> Seq<char>
    decreases p,
{
    if p.len() == 0 {
        Seq::empty()
    } else if p.len() == 1 {
        p[0]
    } else {
        path_text(p.drop_last()) + "."@ + p.last()
    }
}

/// Where a structural error stands, or nothing when it arose at the
/// synthesized root.
pub open spec fn location_text(p: Seq<Seq<char>>) -> Seq<char> {
    if p.len() == 0 {
        Seq::empty()
    } else {
        " at `"@ + path_text(p) + "`"@
    }
}

/// The report of a failure: its kind, the identifiers at fault, and —
/// for structural errors — the path to the offending definition.
pub open spec fn describe_text(e: ErrV) -> Seq<char> {
    match e {
        ErrV::NamingCollision { path, first, second } => "naming collision between `"@
            + first + "` and `"@ + second + "`"@ + location_text(path),
        ErrV::DuplicateDiscriminatorTag { path, tag } => "duplicate discriminator tag `"@
            + tag + "`"@ + location_text(path),
        ErrV::DuplicateShortName { name } => "duplicate short name `"@ + name + "`"@,
        ErrV::InvalidShortName { name } => "short name must be lowercase and non-empty, got `"@
            + name + "`"@,
        ErrV::ArtifactWrite { message } => "artifact could not be written: "@ + message,
    }
}

fn path_string(p: &Vec<String>) -> (r: String)
    ensures
        r@ == path_text(p.deep_view()),
{
    let ghost dv = p.deep_view();
    let mut out = String::new();
    let mut i: usize = 0;
    while i < p.len()
        invariant
            0 <= i <= p@.len(),
            dv == p.deep_view(),
            dv.len() == p@.len(),
            out@ == path_text(dv.take(i as int)),
        decreases p@.len() - i,
    {
        proof {
            assert(dv.take(i + 1).drop_last() =~= dv.take(i as int));
            assert(dv.take(i + 1).last() == dv[i as int]);
        }
        if i > 0 {
            out.append(".");
        }
        out.append(p[i].as_str());
        proof {
            if i == 0 {
                assert(out@ =~= path_text(dv.take(1)));
            } else {
                assert(out@ =~= path_text(dv.take(i + 1)));
            }
        }
        i = i + 1;
    }
    proof {
        assert(dv.take(p@.len() as int) =~= dv);
    }
    out
}

fn location_string(p: &Vec<String>) -> (r: String)
    ensures
        r@ == location_text(p.deep_view()),
{
    let mut out = String::new();
    if p.len() > 0 {
        out.append(" at `");
        let ps = path_string(p);
        out.append(ps.as_str());
        out.append("`");
        proof {
            assert(out@ =~= location_text(p.deep_view()));
        }
    }
    out
}

impl BuildError {
    /// The failure's report, exactly as [`describe_text`] states it.
    pub fn describe(&self) -> (r: String)
        ensures
            r@ == describe_text(self@),
    {
        let mut out = String::new();
        match self {
            BuildError::NamingCollision { path, first, second } => {
                out.append("naming collision between `");
                out.append(first.as_str());
                out.append("` and `");
                out.append(second.as_str());
                out.append("`");
                let loc = location_string(path);
                out.append(loc.as_str());
            },
            BuildError::DuplicateDiscriminatorTag { path, tag } => {
                out.append("duplicate discriminator tag `");
                out.append(tag.as_str());
                out.append("`");
                let loc = location_string(path);
                out.append(loc.as_str());
            },
            BuildError::DuplicateShortName { name } => {
                out.append("duplicate short name `");
                out.append(name.as_str());
                out.append("`");
            },
            BuildError::InvalidShortName { name } => {
                out.append("short name must be lowercase and non-empty, got `");
                out.append(name.as_str());
                out.append("`");
            },
            BuildError::ArtifactWrite { message } => {
                out.append("artifact could not be written: ");
                out.append(message.as_str());
            },
        }
        proof {
            assert(out@ =~= describe_text(self@));
        }
        out
    }
}

} // verus!
