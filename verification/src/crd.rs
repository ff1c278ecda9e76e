//! The manifest assembler: wrapping synthesized schemas into a complete
//! custom-resource definition document.
use vstd::prelude::*;
use vstd::string::StringExecFns;

use crate::errors::BuildError;
use crate::errors::ErrV;
use crate::json::Json;
use crate::json::JsonV;
use crate::json::jview;
use crate::json::jview_pairs;
use crate::json::jview_seq;
use crate::model::text;
use crate::json::distinct_keys;
use crate::json::keys_of;
use crate::json::lemma_wf_json_pairs;
use crate::json::lemma_wf_json_seq;
use crate::json::wf_json;
use crate::json::wf_json_pairs;
use crate::json::wf_json_seq;
use crate::synth::find_in;
use crate::synth::jstr;
use crate::synth::lemma_wf_flat_obj;
use crate::synth::lemma_wf_str_arr;
use crate::synth::lemma_find_in;
use crate::synth::obj1;
use crate::synth::res_view;
use crate::synth::str_arr;
use crate::synth::str_array;

verus! {

broadcast use
    vstd::string::group_string_axioms,
    vstd::seq::axiom_seq_index_decreases,
    vstd::std_specs::vec::axiom_vec_index_decreases,
    vstd::std_specs::vec::axiom_vec_decreases_to_view,
    crate::json::lemma_jview_pairs,
    crate::json::lemma_jview_seq,
    crate::json::lemma_wf_json_pairs,
    crate::json::lemma_wf_json_seq;

/// One printer column of a resource listing: a name, a column type, a
/// description and the JSON path projected into each listed object.
#[derive(Debug, PartialEq)]
pub struct PrinterColumn {
    pub name: String,
    pub col_type: String,
    pub description: String,
    pub json_path: String,
}

pub ghost struct PrinterColumnV {
    pub name: Seq<char>,
    pub col_type: Seq<char>,
    pub description: Seq<char>,
    pub json_path: Seq<char>,
}

impl View for PrinterColumn {
    type V = PrinterColumnV;

    open spec fn view(&self) -> PrinterColumnV {
        PrinterColumnV {
            name: self.name@,
            col_type: self.col_type@,
            description: self.description@,
            json_path: self.json_path@,
        }
    }
}

impl DeepView for PrinterColumn {
    type V = PrinterColumnV;

    open spec fn deep_view(&self) -> PrinterColumnV {
        self.view()
    }
}

/// The immutable metadata of one resource kind.
#[derive(Debug, PartialEq)]
pub struct CrdDescriptor {
    pub group: String,
    pub version: String,
    pub kind: String,
    pub plural: String,
    pub singular: String,
    pub namespaced: bool,
    pub short_names: Vec<String>,
    pub printer_columns: Vec<PrinterColumn>,
    pub status_subresource: bool,
}

pub ghost struct DescV {
    pub group: Seq<char>,
    pub version: Seq<char>,
    pub kind: Seq<char>,
    pub plural: Seq<char>,
    pub singular: Seq<char>,
    pub namespaced: bool,
    pub short_names: Seq<Seq<char>>,
    pub printer_columns: Seq<PrinterColumnV>,
    pub status_subresource: bool,
}

impl View for CrdDescriptor {
    type V = DescV;

    open spec fn view(&self) -> DescV {
        DescV {
            group: self.group@,
            version: self.version@,
            kind: self.kind@,
            plural: self.plural@,
            singular: self.singular@,
            namespaced: self.namespaced,
            short_names: self.short_names.deep_view(),
            printer_columns: self.printer_columns.deep_view(),
            status_subresource: self.status_subresource,
        }
    }
}

/// A valid short name: non-empty and free of ASCII uppercase letters.
pub open spec fn is_lower_name(s: Seq<char>) -> bool {
    s.len() > 0 && forall|i: int| 0 <= i < s.len() ==> !('A' <= s[i] && s[i] <= 'Z')
}

/// The first failure among the short names, walking them in order: an
/// invalid name is reported before a duplicate of the same position.
pub open spec fn short_names_err(ns: Seq<Seq<char>>) -> Option<ErrV>
    decreases ns,
{
    if ns.len() == 0 {
        None
    } else {
        match short_names_err(ns.drop_last()) {
            Some(e) => Some(e),
            None => {
                let n = ns.last();
                if !is_lower_name(n) {
                    Some(ErrV::InvalidShortName { name: n })
                } else if find_in(ns.drop_last(), n) is Some {
                    Some(ErrV::DuplicateShortName { name: n })
                } else {
                    None
                }
            },
        }
    }
}

/// Once a prefix of the short names has failed, the whole walk fails
/// the same way.
pub proof fn lemma_short_names_prefix_err(ns: Seq<Seq<char>>, i: int)
    requires
        0 <= i <= ns.len(),
        short_names_err(ns.take(i)) is Some,
    ensures
        short_names_err(ns) == short_names_err(ns.take(i)),
    decreases ns.len() - i,
{
    if i < ns.len() {
        assert(ns.take(i + 1).drop_last() =~= ns.take(i));
        assert(short_names_err(ns.take(i + 1)) == short_names_err(ns.take(i)));
        lemma_short_names_prefix_err(ns, i + 1);
    } else {
        assert(ns.take(i) =~= ns);
    }
}

pub open spec fn col_schema(c: PrinterColumnV) -> JsonV {
    JsonV::Obj(
        seq![
            ("name"@, JsonV::Str(c.name)),
            ("type"@, JsonV::Str(c.col_type)),
            ("description"@, JsonV::Str(c.description)),
            ("jsonPath"@, JsonV::Str(c.json_path)),
        ],
    )
}

pub open spec fn cols_arr(cs: Seq<PrinterColumnV>) -> Seq<JsonV> {
    cs.map_values(|c: PrinterColumnV| col_schema(c))
}

/// The `spec.names` object. Short names are listed only when there are
/// any.
pub open spec fn names_obj(d: DescV) -> JsonV {
    JsonV::Obj(
        seq![
            ("kind"@, JsonV::Str(d.kind)),
            ("plural"@, JsonV::Str(d.plural)),
            ("singular"@, JsonV::Str(d.singular)),
        ] + (if d.short_names.len() > 0 {
            seq![("shortNames"@, JsonV::Arr(str_arr(d.short_names)))]
        } else {
            Seq::empty()
        }),
    )
}

/// The document root of the embedded validation schema: an object whose
/// `spec` property carries the spec schema, whose optional `status`
/// property carries the status schema, and which always requires `spec`.
pub open spec fn root_schema(spec_schema: JsonV, status: Option<JsonV>) -> JsonV {
    JsonV::Obj(
        seq![
            ("type"@, JsonV::Str("object"@)),
            (
                "properties"@,
                JsonV::Obj(
                    seq![("spec"@, spec_schema)] + (match status {
                        Some(st) => seq![("status"@, st)],
                        None => Seq::empty(),
                    }),
                ),
            ),
            ("required"@, JsonV::Arr(seq![JsonV::Str("spec"@)])),
        ],
    )
}

/// The single served and stored version entry. Printer columns are
/// listed only when there are any; the status subresource appears only
/// when the descriptor asks for it.
pub open spec fn version_obj(d: DescV, spec_schema: JsonV, status: Option<JsonV>) -> JsonV {
    JsonV::Obj(
        seq![
            ("name"@, JsonV::Str(d.version)),
            ("served"@, JsonV::Bool(true)),
            ("storage"@, JsonV::Bool(true)),
            ("schema"@, JsonV::Obj(seq![("openAPIV3Schema"@, root_schema(spec_schema, status))])),
        ] + (if d.printer_columns.len() > 0 {
            seq![("additionalPrinterColumns"@, JsonV::Arr(cols_arr(d.printer_columns)))]
        } else {
            Seq::empty()
        }) + (if d.status_subresource {
            seq![("subresources"@, JsonV::Obj(seq![("status"@, JsonV::Obj(Seq::empty()))]))]
        } else {
            Seq::empty()
        }),
    )
}

/// The complete manifest document: the fixed API header, the object
/// name `<plural>.<group>`, and the spec block with group, names, scope
/// and the single version.
pub open spec fn manifest(d: DescV, spec_schema: JsonV, status: Option<JsonV>) -> JsonV {
    JsonV::Obj(
        seq![
            ("apiVersion"@, JsonV::Str("apiextensions.k8s.io/v1"@)),
            ("kind"@, JsonV::Str("CustomResourceDefinition"@)),
            ("metadata"@, JsonV::Obj(seq![("name"@, JsonV::Str(d.plural + "."@ + d.group))])),
            (
                "spec"@,
                JsonV::Obj(
                    seq![
                        ("group"@, JsonV::Str(d.group)),
                        ("names"@, names_obj(d)),
                        (
                            "scope"@,
                            JsonV::Str(
                                if d.namespaced {
                                    "Namespaced"@
                                } else {
                                    "Cluster"@
                                },
                            ),
                        ),
                        ("versions"@, JsonV::Arr(seq![version_obj(d, spec_schema, status)])),
                    ],
                ),
            ),
        ],
    )
}

/// What the assembler produces: the manifest, unless a short name is
/// invalid or duplicated.
pub open spec fn assemble_spec(d: DescV, spec_schema: JsonV, status: Option<JsonV>) -> Result<
    JsonV,
    ErrV,
> {
    match short_names_err(d.short_names) {
        Some(e) => Err(e),
        None => Ok(manifest(d, spec_schema, status)),
    }
}

pub open spec fn opt_jview(o: Option<Json>) -> Option<JsonV> {
    match o {
        Some(j) => Some(jview(j)),
        None => None,
    }
}

fn is_lower_exec(s: &String) -> (r: bool)
    ensures
        r == is_lower_name(s@),
{
    let st = s.as_str();
    let n = st.unicode_len();
    if n == 0 {
        return false;
    }
    let mut i: usize = 0;
    while i < n
        invariant
            0 <= i <= n,
            n == st@.len(),
            st@ == s@,
            forall|j: int| 0 <= j < i ==> !('A' <= s@[j] && s@[j] <= 'Z'),
        decreases n - i,
    {
        let c = st.get_char(i);
        if 'A' <= c && c <= 'Z' {
            return false;
        }
        i = i + 1;
    }
    true
}

/// Checks the short names in order, and reports the first invalid or
/// duplicated one.
fn check_short_names(ns: &Vec<String>) -> (r: Option<BuildError>)
    ensures
        match r {
            Some(e) => short_names_err(ns.deep_view()) == Some(e@),
            None => short_names_err(ns.deep_view()) is None,
        },
{
    let ghost sn = ns.deep_view();
    let mut i: usize = 0;
    while i < ns.len()
        invariant
            0 <= i <= ns@.len(),
            sn == ns.deep_view(),
            sn.len() == ns@.len(),
            short_names_err(sn.take(i as int)) is None,
        decreases ns@.len() - i,
    {
        proof {
            assert(sn.take(i + 1).drop_last() =~= sn.take(i as int));
        }
        let n = &ns[i];
        if !is_lower_exec(n) {
            let e = BuildError::InvalidShortName { name: n.clone() };
            proof {
                assert(short_names_err(sn.take(i + 1)) == Some(e@));
                lemma_short_names_prefix_err(sn, i + 1);
            }
            return Some(e);
        }
        let mut j: usize = 0;
        while j < i
            invariant
                0 <= j <= i < ns@.len(),
                sn == ns.deep_view(),
                sn.len() == ns@.len(),
                *n == ns@[i as int],
                is_lower_name(n@),
                short_names_err(sn.take(i as int)) is None,
                forall|k: int| 0 <= k < j ==> sn.take(i as int)[k] != n@,
            decreases i - j,
        {
            let cand = &ns[j];
            if cand.eq(n) {
                let e = BuildError::DuplicateShortName { name: n.clone() };
                proof {
                    lemma_find_in(sn.take(i as int), n@);
                    assert(sn.take(i as int)[j as int] == n@);
                    assert(sn.take(i + 1).drop_last() =~= sn.take(i as int));
                    assert(short_names_err(sn.take(i + 1)) == Some(e@));
                    lemma_short_names_prefix_err(sn, i + 1);
                }
                return Some(e);
            }
            j = j + 1;
        }
        proof {
            lemma_find_in(sn.take(i as int), n@);
        }
        i = i + 1;
    }
    proof {
        assert(sn.take(ns@.len() as int) =~= sn);
    }
    None
}



fn col_exec(c: &PrinterColumn) -> (r: Json)
    ensures
        r@ == col_schema(c@),
{
    let mut ps: Vec<(String, Json)> = Vec::new();
    ps.push((text("name"), Json::Str(c.name.clone())));
    ps.push((text("type"), Json::Str(c.col_type.clone())));
    ps.push((text("description"), Json::Str(c.description.clone())));
    ps.push((text("jsonPath"), Json::Str(c.json_path.clone())));
    proof {
        assert(col_schema(c@) matches JsonV::Obj(s) && jview_pairs(ps@) =~= s);
    }
    Json::Obj(ps)
}

/// Assembles the manifest for descriptor `d`, embedding the synthesized
/// spec schema and, when given, the status schema. Returns exactly what
/// [`assemble_spec`] states: the only failures are an invalid short name
/// and a duplicated short name.
pub fn assemble(d: &CrdDescriptor, spec_schema: Json, status: Option<Json>) -> (r: Result<
    Json,
    BuildError,
>)
    ensures
        res_view(r) == assemble_spec(d@, spec_schema@, opt_jview(status)),
{
    let ghost gspec = jview(spec_schema);
    let ghost gstatus = opt_jview(status);
    if let Some(e) = check_short_names(&d.short_names) {
        return Err(e);
    }
    // spec.names
    let mut names: Vec<(String, Json)> = Vec::new();
    names.push((text("kind"), Json::Str(d.kind.clone())));
    names.push((text("plural"), Json::Str(d.plural.clone())));
    names.push((text("singular"), Json::Str(d.singular.clone())));
    if d.short_names.len() > 0 {
        names.push((text("shortNames"), str_array(&d.short_names)));
    }
    let names_doc = Json::Obj(names);
    proof {
        assert(names_obj(d@) matches JsonV::Obj(s) && jview_pairs(names_doc->Obj_0@) =~= s);
        assert(names_doc@ == names_obj(d@));
    }
    // the embedded schema root
    let mut rprops: Vec<(String, Json)> = Vec::new();
    rprops.push((text("spec"), spec_schema));
    match status {
        Some(st) => {
            rprops.push((text("status"), st));
        },
        None => {},
    }
    let rprops_doc = Json::Obj(rprops);
    proof {
        assert(root_schema(gspec, gstatus) matches JsonV::Obj(rs) && rs[1].1 matches JsonV::Obj(
            ps,
        ) && jview_pairs(rprops_doc->Obj_0@) =~= ps);
    }
    let mut reqspec: Vec<Json> = Vec::new();
    reqspec.push(jstr("spec"));
    let reqspec_doc = Json::Arr(reqspec);
    proof {
        assert(jview_seq(reqspec_doc->Arr_0@) =~= seq![JsonV::Str("spec"@)]);
    }
    let mut root: Vec<(String, Json)> = Vec::new();
    root.push((text("type"), jstr("object")));
    root.push((text("properties"), rprops_doc));
    root.push((text("required"), reqspec_doc));
    let root_doc = Json::Obj(root);
    proof {
        assert(root_schema(gspec, gstatus) matches JsonV::Obj(rs) && jview_pairs(
            root_doc->Obj_0@,
        ) =~= rs);
        assert(root_doc@ == root_schema(gspec, gstatus));
    }
    // the single version entry
    let mut ver: Vec<(String, Json)> = Vec::new();
    ver.push((text("name"), Json::Str(d.version.clone())));
    ver.push((text("served"), Json::Bool(true)));
    ver.push((text("storage"), Json::Bool(true)));
    ver.push((text("schema"), obj1("openAPIV3Schema", root_doc)));
    if d.printer_columns.len() > 0 {
        let mut colv: Vec<Json> = Vec::new();
        let mut i: usize = 0;
        while i < d.printer_columns.len()
            invariant
                0 <= i <= d.printer_columns@.len(),
                colv@.len() == i,
                forall|j: int|
                    0 <= j < i ==> jview(colv@[j]) == col_schema(
                        d.printer_columns.deep_view()[j],
                    ),
            decreases d.printer_columns@.len() - i,
        {
            colv.push(col_exec(&d.printer_columns[i]));
            i = i + 1;
        }
        proof {
            assert(jview_seq(colv@) =~= cols_arr(d@.printer_columns));
        }
        ver.push((text("additionalPrinterColumns"), Json::Arr(colv)));
    }
    if d.status_subresource {
        let none: Vec<(String, Json)> = Vec::new();
        ver.push((text("subresources"), obj1("status", Json::Obj(none))));
    }
    let ver_doc = Json::Obj(ver);
    proof {
        assert(version_obj(d@, gspec, gstatus) matches JsonV::Obj(vs) && jview_pairs(
            ver_doc->Obj_0@,
        ) =~= vs);
        assert(ver_doc@ == version_obj(d@, gspec, gstatus));
    }
    // the spec block
    let mut vers: Vec<Json> = Vec::new();
    vers.push(ver_doc);
    let vers_doc = Json::Arr(vers);
    proof {
        assert(jview_seq(vers_doc->Arr_0@) =~= seq![version_obj(d@, gspec, gstatus)]);
    }
    let mut specb: Vec<(String, Json)> = Vec::new();
    specb.push((text("group"), Json::Str(d.group.clone())));
    specb.push((text("names"), names_doc));
    specb.push((
        text("scope"),
        if d.namespaced {
            jstr("Namespaced")
        } else {
            jstr("Cluster")
        },
    ));
    specb.push((text("versions"), vers_doc));
    let spec_doc = Json::Obj(specb);
    // metadata and the whole document
    let mname = d.plural.clone().concat(".").concat(d.group.as_str());
    let meta_doc = obj1("name", Json::Str(mname));
    let mut top: Vec<(String, Json)> = Vec::new();
    top.push((text("apiVersion"), jstr("apiextensions.k8s.io/v1")));
    top.push((text("kind"), jstr("CustomResourceDefinition")));
    top.push((text("metadata"), meta_doc));
    top.push((text("spec"), spec_doc));
    let out = Json::Obj(top);
    proof {
        assert(manifest(d@, gspec, gstatus) matches JsonV::Obj(ms) && ms[3].1 matches JsonV::Obj(
            ss,
        ) && jview_pairs(spec_doc->Obj_0@) =~= ss);
        assert(manifest(d@, gspec, gstatus) matches JsonV::Obj(ms) && jview_pairs(
            out->Obj_0@,
        ) =~= ms);
        assert(out@ == manifest(d@, gspec, gstatus));
    }
    Ok(out)
}


/// The key literals of the manifest document are pairwise distinct
/// within each object that uses them together.
pub proof fn lemma_crd_literals_distinct()
    ensures
        "kind"@ != "plural"@ && "kind"@ != "singular"@ && "kind"@ != "shortNames"@,
        "plural"@ != "singular"@ && "plural"@ != "shortNames"@,
        "singular"@ != "shortNames"@,
        "spec"@ != "status"@,
        "name"@ != "type"@ && "name"@ != "description"@ && "name"@ != "jsonPath"@,
        "type"@ != "description"@ && "type"@ != "jsonPath"@,
        "description"@ != "jsonPath"@,
        "name"@ != "served"@ && "name"@ != "storage"@ && "name"@ != "schema"@,
        "name"@ != "additionalPrinterColumns"@ && "name"@ != "subresources"@,
        "served"@ != "storage"@ && "served"@ != "schema"@,
        "served"@ != "additionalPrinterColumns"@ && "served"@ != "subresources"@,
        "storage"@ != "schema"@ && "storage"@ != "additionalPrinterColumns"@,
        "storage"@ != "subresources"@,
        "schema"@ != "additionalPrinterColumns"@ && "schema"@ != "subresources"@,
        "additionalPrinterColumns"@ != "subresources"@,
        "group"@ != "names"@ && "group"@ != "scope"@ && "group"@ != "versions"@,
        "names"@ != "scope"@ && "names"@ != "versions"@,
        "scope"@ != "versions"@,
        "apiVersion"@ != "kind"@ && "apiVersion"@ != "metadata"@,
        "apiVersion"@ != "spec"@,
        "kind"@ != "metadata"@ && "kind"@ != "spec"@,
        "metadata"@ != "spec"@,
        "type"@ != "properties"@ && "type"@ != "required"@,
        "properties"@ != "required"@,
{
    reveal_strlit("kind");
    reveal_strlit("plural");
    reveal_strlit("singular");
    reveal_strlit("shortNames");
    reveal_strlit("spec");
    reveal_strlit("status");
    reveal_strlit("name");
    reveal_strlit("type");
    reveal_strlit("description");
    reveal_strlit("jsonPath");
    reveal_strlit("served");
    reveal_strlit("storage");
    reveal_strlit("schema");
    reveal_strlit("additionalPrinterColumns");
    reveal_strlit("subresources");
    reveal_strlit("group");
    reveal_strlit("names");
    reveal_strlit("scope");
    reveal_strlit("versions");
    reveal_strlit("apiVersion");
    reveal_strlit("metadata");
    reveal_strlit("properties");
    reveal_strlit("required");
    assert("kind"@.len() == 4);
    assert("plural"@.len() == 6);
    assert("singular"@.len() == 8);
    assert("shortNames"@.len() == 10);
    assert("spec"@.len() == 4);
    assert("status"@.len() == 6);
    assert("name"@.len() == 4);
    assert("type"@.len() == 4);
    assert("description"@.len() == 11);
    assert("jsonPath"@.len() == 8);
    assert("served"@.len() == 6);
    assert("storage"@.len() == 7);
    assert("schema"@.len() == 6);
    assert("additionalPrinterColumns"@.len() == 24);
    assert("subresources"@.len() == 12);
    assert("group"@.len() == 5);
    assert("names"@.len() == 5);
    assert("scope"@.len() == 5);
    assert("versions"@.len() == 8);
    assert("apiVersion"@.len() == 10);
    assert("metadata"@.len() == 8);
    assert("properties"@.len() == 10);
    assert("required"@.len() == 8);
    assert("kind"@[0] == 'k' && "spec"@[0] == 's' && "name"@[0] == 'n' && "type"@[0]
        == 't');
    assert("served"@[1] == 'e' && "schema"@[1] == 'c');
    assert("group"@[0] == 'g' && "names"@[0] == 'n' && "scope"@[0] == 's');
    assert("status"@[1] == 't' && "served"@[0] == 's');
}

/// The names object of a descriptor is well formed.
pub proof fn lemma_wf_names_obj(d: DescV)
    ensures
        wf_json(names_obj(d)),
{
    lemma_crd_literals_distinct();
    lemma_wf_str_arr(d.short_names);
    let base = seq![
        ("kind"@, JsonV::Str(d.kind)),
        ("plural"@, JsonV::Str(d.plural)),
        ("singular"@, JsonV::Str(d.singular)),
    ];
    let snpart: Seq<(Seq<char>, JsonV)> = if d.short_names.len() > 0 {
        seq![("shortNames"@, JsonV::Arr(str_arr(d.short_names)))]
    } else {
        Seq::empty()
    };
    let all = base + snpart;
    assert forall|i: int, j: int| 0 <= i < j < keys_of(all).len() implies keys_of(all)[i]
        != keys_of(all)[j] by {
        assert(keys_of(all)[i] == all[i].0);
        assert(keys_of(all)[j] == all[j].0);
    }
    assert(distinct_keys(keys_of(all)));
    assert forall|i: int| 0 <= i < all.len() implies wf_json(all[i].1) by {
        assert(wf_json(JsonV::Str(d.kind)));
        assert(wf_json(JsonV::Str(d.plural)));
        assert(wf_json(JsonV::Str(d.singular)));
    }
    assert(wf_json_pairs(all));
    lemma_wf_flat_obj(all);
}

/// The embedded schema root is well formed when the spec and status
/// schemas are.
pub proof fn lemma_wf_root_schema(spec_schema: JsonV, status: Option<JsonV>)
    requires
        wf_json(spec_schema),
        status matches Some(st) ==> wf_json(st),
    ensures
        wf_json(root_schema(spec_schema, status)),
{
    lemma_crd_literals_distinct();
    let props = seq![("spec"@, spec_schema)] + (match status {
        Some(st) => seq![("status"@, st)],
        None => Seq::<(Seq<char>, JsonV)>::empty(),
    });
    assert forall|i: int, j: int| 0 <= i < j < keys_of(props).len() implies keys_of(
        props,
    )[i] != keys_of(props)[j] by {
        assert(keys_of(props)[i] == props[i].0);
        assert(keys_of(props)[j] == props[j].0);
    }
    assert(distinct_keys(keys_of(props)));
    assert forall|i: int| 0 <= i < props.len() implies wf_json(props[i].1) by {}
    assert(wf_json_pairs(props));
    lemma_wf_flat_obj(props);
    assert(wf_json(JsonV::Str("spec"@)));
    assert(wf_json_seq(seq![JsonV::Str("spec"@)]));
    assert(wf_json(JsonV::Arr(seq![JsonV::Str("spec"@)])));
    assert(wf_json(JsonV::Str("object"@)));
    let all = seq![
        ("type"@, JsonV::Str("object"@)),
        ("properties"@, JsonV::Obj(props)),
        ("required"@, JsonV::Arr(seq![JsonV::Str("spec"@)])),
    ];
    assert(keys_of(all) =~= seq!["type"@, "properties"@, "required"@]);
    assert(distinct_keys(keys_of(all)));
    assert(wf_json_pairs(all));
    lemma_wf_flat_obj(all);
    assert(root_schema(spec_schema, status) matches JsonV::Obj(x) && x =~= all);
}

/// A printer column's schema is well formed.
pub proof fn lemma_wf_col_schema(c: PrinterColumnV)
    ensures
        wf_json(col_schema(c)),
{
    lemma_crd_literals_distinct();
    let ps = seq![
        ("name"@, JsonV::Str(c.name)),
        ("type"@, JsonV::Str(c.col_type)),
        ("description"@, JsonV::Str(c.description)),
        ("jsonPath"@, JsonV::Str(c.json_path)),
    ];
    assert(keys_of(ps) =~= seq!["name"@, "type"@, "description"@, "jsonPath"@]);
    assert(distinct_keys(keys_of(ps)));
    assert forall|i: int| 0 <= i < ps.len() implies wf_json(ps[i].1) by {
        assert(wf_json(JsonV::Str(c.name)));
        assert(wf_json(JsonV::Str(c.col_type)));
        assert(wf_json(JsonV::Str(c.description)));
        assert(wf_json(JsonV::Str(c.json_path)));
    }
    assert(wf_json_pairs(ps));
    lemma_wf_flat_obj(ps);
}

/// The version entry is well formed when the embedded schemas are.
pub proof fn lemma_wf_version_obj(d: DescV, spec_schema: JsonV, status: Option<JsonV>)
    requires
        wf_json(spec_schema),
        status matches Some(st) ==> wf_json(st),
    ensures
        wf_json(version_obj(d, spec_schema, status)),
{
    lemma_crd_literals_distinct();
    lemma_wf_root_schema(spec_schema, status);
    let schema_obj = JsonV::Obj(seq![("openAPIV3Schema"@, root_schema(spec_schema, status))]);
    assert(keys_of(seq![("openAPIV3Schema"@, root_schema(spec_schema, status))]) =~= seq![
        "openAPIV3Schema"@,
    ]);
    assert(distinct_keys(keys_of(seq![("openAPIV3Schema"@, root_schema(spec_schema, status))])));
    assert(wf_json_pairs(seq![("openAPIV3Schema"@, root_schema(spec_schema, status))]));
    lemma_wf_flat_obj(seq![("openAPIV3Schema"@, root_schema(spec_schema, status))]);
    assert forall|i: int| 0 <= i < cols_arr(d.printer_columns).len() implies wf_json(
        cols_arr(d.printer_columns)[i],
    ) by {
        lemma_wf_col_schema(d.printer_columns[i]);
        assert(cols_arr(d.printer_columns)[i] == col_schema(d.printer_columns[i]));
    }
    assert(wf_json_seq(cols_arr(d.printer_columns)));
    assert(wf_json(JsonV::Arr(cols_arr(d.printer_columns))));
    let subs_inner: Seq<(Seq<char>, JsonV)> = seq![("status"@, JsonV::Obj(Seq::empty()))];
    assert(keys_of(Seq::<(Seq<char>, JsonV)>::empty()) =~= Seq::<Seq<char>>::empty());
    assert(wf_json_pairs(Seq::<(Seq<char>, JsonV)>::empty()));
    lemma_wf_flat_obj(Seq::<(Seq<char>, JsonV)>::empty());
    assert(keys_of(subs_inner) =~= seq!["status"@]);
    assert(wf_json_pairs(subs_inner));
    lemma_wf_flat_obj(subs_inner);
    let base = seq![
        ("name"@, JsonV::Str(d.version)),
        ("served"@, JsonV::Bool(true)),
        ("storage"@, JsonV::Bool(true)),
        ("schema"@, schema_obj),
    ];
    let colpart: Seq<(Seq<char>, JsonV)> = if d.printer_columns.len() > 0 {
        seq![("additionalPrinterColumns"@, JsonV::Arr(cols_arr(d.printer_columns)))]
    } else {
        Seq::empty()
    };
    let subpart: Seq<(Seq<char>, JsonV)> = if d.status_subresource {
        seq![("subresources"@, JsonV::Obj(subs_inner))]
    } else {
        Seq::empty()
    };
    let all = base + colpart + subpart;
    assert forall|i: int, j: int| 0 <= i < j < keys_of(all).len() implies keys_of(all)[i]
        != keys_of(all)[j] by {
        assert(keys_of(all)[i] == all[i].0);
        assert(keys_of(all)[j] == all[j].0);
    }
    assert(distinct_keys(keys_of(all)));
    assert forall|i: int| 0 <= i < all.len() implies wf_json(all[i].1) by {
        assert(wf_json(JsonV::Str(d.version)));
        assert(wf_json(JsonV::Bool(true)));
    }
    assert(wf_json_pairs(all));
    lemma_wf_flat_obj(all);
}

/// The assembled manifest is well formed whenever the embedded schemas
/// are: every object level of the document has pairwise distinct keys.
pub proof fn lemma_manifest_wf(d: DescV, spec_schema: JsonV, status: Option<JsonV>)
    requires
        wf_json(spec_schema),
        status matches Some(st) ==> wf_json(st),
    ensures
        wf_json(manifest(d, spec_schema, status)),
{
    lemma_crd_literals_distinct();
    lemma_wf_names_obj(d);
    lemma_wf_version_obj(d, spec_schema, status);
    let meta_inner = seq![("name"@, JsonV::Str(d.plural + "."@ + d.group))];
    assert(keys_of(meta_inner) =~= seq!["name"@]);
    assert(wf_json(JsonV::Str(d.plural + "."@ + d.group)));
    assert(wf_json_pairs(meta_inner));
    lemma_wf_flat_obj(meta_inner);
    let vers = seq![version_obj(d, spec_schema, status)];
    assert(wf_json_seq(vers));
    assert(wf_json(JsonV::Arr(vers)));
    let specb = seq![
        ("group"@, JsonV::Str(d.group)),
        ("names"@, names_obj(d)),
        (
            "scope"@,
            JsonV::Str(
                if d.namespaced {
                    "Namespaced"@
                } else {
                    "Cluster"@
                },
            ),
        ),
        ("versions"@, JsonV::Arr(vers)),
    ];
    assert(keys_of(specb) =~= seq!["group"@, "names"@, "scope"@, "versions"@]);
    assert(distinct_keys(keys_of(specb)));
    assert forall|i: int| 0 <= i < specb.len() implies wf_json(specb[i].1) by {
        assert(wf_json(JsonV::Str(d.group)));
        assert(wf_json(JsonV::Str(
            if d.namespaced {
                "Namespaced"@
            } else {
                "Cluster"@
            },
        )));
    }
    assert(wf_json_pairs(specb));
    lemma_wf_flat_obj(specb);
    let top = seq![
        ("apiVersion"@, JsonV::Str("apiextensions.k8s.io/v1"@)),
        ("kind"@, JsonV::Str("CustomResourceDefinition"@)),
        ("metadata"@, JsonV::Obj(meta_inner)),
        ("spec"@, JsonV::Obj(specb)),
    ];
    assert(keys_of(top) =~= seq!["apiVersion"@, "kind"@, "metadata"@, "spec"@]);
    assert(distinct_keys(keys_of(top)));
    assert forall|i: int| 0 <= i < top.len() implies wf_json(top[i].1) by {
        assert(wf_json(JsonV::Str("apiextensions.k8s.io/v1"@)));
        assert(wf_json(JsonV::Str("CustomResourceDefinition"@)));
    }
    assert(wf_json_pairs(top));
    lemma_wf_flat_obj(top);
}

} // verus!
