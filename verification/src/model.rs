//! The type model: an in-memory description of a resource's shape.
//!
//! A model is a finite tree. Because nodes own their children outright,
//! a model cannot refer back to itself, so synthesis always terminates
//! and no cyclic-schema failure can arise.
use vstd::prelude::*;
use vstd::string::StringExecFns;

use crate::naming::ConvV;
use crate::naming::NamingConvention;

verus! {

broadcast use
    vstd::seq::axiom_seq_index_decreases,
    vstd::std_specs::vec::axiom_vec_index_decreases,
    vstd::std_specs::vec::axiom_vec_decreases_to_view;

/// The kind of a primitive node. `FreeForm` places no constraint at all
/// on the value.
#[derive(Debug, Clone, Copy, PartialEq, Eq, Structural)]
pub enum PrimitiveKind {
    Text,
    Integer,
    Boolean,
    FreeForm,
}

/// One struct field: its declared identifier, the convention that turns
/// the identifier into a serialized key, its type, and whether a value
/// is required.
#[derive(Debug, PartialEq)]
pub struct FieldDef {
    pub name: String,
    pub convention: NamingConvention,
    pub ty: TypeModel,
    pub required: bool,
}

/// One enum variant: its declared identifier and the convention that
/// turns the identifier into the serialized value.
#[derive(Debug, PartialEq)]
pub struct VariantDef {
    pub name: String,
    pub convention: NamingConvention,
}

/// One tagged-union variant: the discriminator value selecting it, the
/// name of its payload field, and the payload's type. A `Struct` payload
/// stands for the variant's own field set and is merged beside the
/// discriminator; any other payload appears as the single field
/// `payload_field`.
#[derive(Debug, PartialEq)]
pub struct UnionVariant {
    pub tag: String,
    pub payload_field: String,
    pub payload_convention: NamingConvention,
    pub payload: TypeModel,
}

/// A node of the type model.
#[derive(Debug, PartialEq)]
pub enum TypeModel {
    Primitive(PrimitiveKind),
    Enum { name: String, variants: Vec<VariantDef> },
    Struct { name: String, fields: Vec<FieldDef> },
    List(Box<TypeModel>),
    Dict(Box<TypeModel>),
    TaggedUnion { discriminator: String, variants: Vec<UnionVariant> },
    PassThrough,
}

pub ghost struct FieldV {
    pub name: Seq<char>,
    pub convention: ConvV,
    pub ty: ModelV,
    pub required: bool,
}

pub ghost struct VariantV {
    pub name: Seq<char>,
    pub convention: ConvV,
}

pub ghost struct UnionVariantV {
    pub tag: Seq<char>,
    pub payload_field: Seq<char>,
    pub payload_convention: ConvV,
    pub payload: ModelV,
}

/// The mathematical value of a type model. `List` and `Dict` carry their
/// single element type as a one-element sequence.
pub ghost enum ModelV {
    Primitive(PrimitiveKind),
    Enum { name: Seq<char>, variants: Seq<VariantV> },
    Struct { name: Seq<char>, fields: Seq<FieldV> },
    List(Seq<ModelV>),
    Dict(Seq<ModelV>),
    TaggedUnion { discriminator: Seq<char>, variants: Seq<UnionVariantV> },
    PassThrough,
}

pub open spec fn vview(v: VariantDef) -> VariantV {
    VariantV { name: v.name@, convention: v.convention@ }
}

pub open spec fn mview(m: TypeModel) -> ModelV
    decreases m,
{
    match m {
        TypeModel::Primitive(k) => ModelV::Primitive(k),
        TypeModel::Enum { name, variants } => ModelV::Enum {
            name: name@,
            variants: variants@.map_values(|v: VariantDef| vview(v)),
        },
        TypeModel::Struct { name, fields } => ModelV::Struct {
            name: name@,
            fields: fview_seq(fields@),
        },
        TypeModel::List(b) => ModelV::List(seq![mview(*b)]),
        TypeModel::Dict(b) => ModelV::Dict(seq![mview(*b)]),
        TypeModel::TaggedUnion { discriminator, variants } => ModelV::TaggedUnion {
            discriminator: discriminator@,
            variants: uview_seq(variants@),
        },
        TypeModel::PassThrough => ModelV::PassThrough,
    }
}

pub open spec fn fview_seq(s: Seq<FieldDef>) -> Seq<FieldV>
    decreases s,
{
    if s.len() == 0 {
        Seq::empty()
    } else {
        fview_seq(s.drop_last()).push(
            FieldV {
                name: s.last().name@,
                convention: s.last().convention@,
                ty: mview(s.last().ty),
                required: s.last().required,
            },
        )
    }
}

pub open spec fn uview_seq(s: Seq<UnionVariant>) -> Seq<UnionVariantV>
    decreases s,
{
    if s.len() == 0 {
        Seq::empty()
    } else {
        uview_seq(s.drop_last()).push(
            UnionVariantV {
                tag: s.last().tag@,
                payload_field: s.last().payload_field@,
                payload_convention: s.last().payload_convention@,
                payload: mview(s.last().payload),
            },
        )
    }
}

impl View for TypeModel {
    type V = ModelV;

    open spec fn view(&self) -> ModelV {
        mview(*self)
    }
}

impl View for FieldDef {
    type V = FieldV;

    open spec fn view(&self) -> FieldV {
        FieldV {
            name: self.name@,
            convention: self.convention@,
            ty: mview(self.ty),
            required: self.required,
        }
    }
}

impl View for UnionVariant {
    type V = UnionVariantV;

    open spec fn view(&self) -> UnionVariantV {
        UnionVariantV {
            tag: self.tag@,
            payload_field: self.payload_field@,
            payload_convention: self.payload_convention@,
            payload: mview(self.payload),
        }
    }
}

impl View for VariantDef {
    type V = VariantV;

    open spec fn view(&self) -> VariantV {
        vview(*self)
    }
}

pub broadcast proof fn lemma_fview_seq(s: Seq<FieldDef>)
    ensures
        (#[trigger] fview_seq(s)).len() == s.len(),
        forall|i: int| 0 <= i < s.len() ==> fview_seq(s)[i] == s[i]@,
    decreases s,
{
    if s.len() > 0 {
        lemma_fview_seq(s.drop_last());
        assert(forall|i: int| 0 <= i < s.len() - 1 ==> s.drop_last()[i] == s[i]);
    }
}

pub broadcast proof fn lemma_uview_seq(s: Seq<UnionVariant>)
    ensures
        (#[trigger] uview_seq(s)).len() == s.len(),
        forall|i: int| 0 <= i < s.len() ==> uview_seq(s)[i] == s[i]@,
    decreases s,
{
    if s.len() > 0 {
        lemma_uview_seq(s.drop_last());
        assert(forall|i: int| 0 <= i < s.len() - 1 ==> s.drop_last()[i] == s[i]);
    }
}

/// An owned copy of a string literal.
pub fn text(x: &str) -> (r: String)
    ensures
        r@ == x@,
{
    String::from_str(x)
}

/// A field serialized under the camelCase convention.
pub fn fd_camel(name: &str, ty: TypeModel, required: bool) -> (r: FieldDef)
    ensures
        r@ == (FieldV {
            name: name@,
            convention: ConvV::Camel,
            ty: ty@,
            required,
        }),
{
    FieldDef { name: text(name), convention: NamingConvention::CamelCase, ty, required }
}

/// A field serialized under its declared identifier, unchanged.
pub fn fd_verbatim(name: &str, ty: TypeModel, required: bool) -> (r: FieldDef)
    ensures
        r@ == (FieldV {
            name: name@,
            convention: ConvV::Rename(name@),
            ty: ty@,
            required,
        }),
{
    FieldDef {
        name: text(name),
        convention: NamingConvention::Rename(text(name)),
        ty,
        required,
    }
}

/// An enum variant serialized under the PascalCase convention.
pub fn vd_pascal(name: &str) -> (r: VariantDef)
    ensures
        r@ == (VariantV { name: name@, convention: ConvV::Pascal }),
{
    VariantDef { name: text(name), convention: NamingConvention::PascalCase }
}

/// An enum variant serialized under its declared identifier, unchanged.
pub fn vd_verbatim(name: &str) -> (r: VariantDef)
    ensures
        r@ == (VariantV { name: name@, convention: ConvV::Rename(name@) }),
{
    VariantDef { name: text(name), convention: NamingConvention::Rename(text(name)) }
}

/// An enum variant serialized in lowercase.
pub fn vd_lower(name: &str) -> (r: VariantDef)
    ensures
        r@ == (VariantV { name: name@, convention: ConvV::Lower }),
{
    VariantDef { name: text(name), convention: NamingConvention::Lowercase }
}

/// An enum variant serialized as the given literal.
pub fn vd_renamed(name: &str, literal: &str) -> (r: VariantDef)
    ensures
        r@ == (VariantV { name: name@, convention: ConvV::Rename(literal@) }),
{
    VariantDef { name: text(name), convention: NamingConvention::Rename(text(literal)) }
}


/// A struct node with the given fields.
pub fn struct_model(name: &str, fields: Vec<FieldDef>) -> (r: TypeModel)
    ensures
        r@ == (ModelV::Struct { name: name@, fields: fview_seq(fields@) }),
{
    TypeModel::Struct { name: text(name), fields }
}

/// An enum node with the given variants.
pub fn enum_model(name: &str, variants: Vec<VariantDef>) -> (r: TypeModel)
    ensures
        r@ == (ModelV::Enum {
            name: name@,
            variants: variants@.map_values(|v: VariantDef| vview(v)),
        }),
{
    TypeModel::Enum { name: text(name), variants }
}

/// A tagged-union node with the given discriminator key and variants.
pub fn union_model(discriminator: &str, variants: Vec<UnionVariant>) -> (r: TypeModel)
    ensures
        r@ == (ModelV::TaggedUnion {
            discriminator: discriminator@,
            variants: uview_seq(variants@),
        }),
{
    TypeModel::TaggedUnion { discriminator: text(discriminator), variants }
}

/// A homogeneous list of the given element type.
pub fn list_of(elem: TypeModel) -> (r: TypeModel)
    ensures
        r@ == ModelV::List(seq![elem@]),
{
    TypeModel::List(Box::new(elem))
}

/// A string-keyed map whose values have the given type.
pub fn dict_of(elem: TypeModel) -> (r: TypeModel)
    ensures
        r@ == ModelV::Dict(seq![elem@]),
{
    TypeModel::Dict(Box::new(elem))
}

/// A tagged-union variant whose payload struct's fields are merged into
/// the branch.
pub fn uv_struct(tag: &str, payload: TypeModel) -> (r: UnionVariant)
    ensures
        r@ == (UnionVariantV {
            tag: tag@,
            payload_field: "value"@,
            payload_convention: ConvV::Camel,
            payload: payload@,
        }),
{
    UnionVariant {
        tag: text(tag),
        payload_field: text("value"),
        payload_convention: NamingConvention::CamelCase,
        payload,
    }
}

} // verus!
