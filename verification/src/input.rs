//! The record declaration handed to the engine.
//!
//! These types hold, as plain values, exactly what the engine reads of a type
//! declaration: the record's name and shape, and for each field its name, the
//! outline of its declared type and the meta items of its attributes. Source
//! text that the engine only passes through (a visibility, a type as written)
//! is kept as a string.
//!
//! Every type has a view that replaces strings and vectors by sequences; all
//! contracts of the crate are stated over these views.

use crate::seqs::views;
use vstd::prelude::*;

verus! {

/// A literal in attribute position. Only string literals carry a value the
/// engine reads; every other kind of literal is `Other`.
#[derive(Clone, Debug, PartialEq, Eq)]
pub enum Lit {
    Str(String),
    Other,
}

pub enum LitView {
    Str(Seq<char>),
    Other,
}

impl View for Lit {
    type V = LitView;

    open spec fn view(&self) -> LitView {
        match self {
            Lit::Str(s) => LitView::Str(s@),
            Lit::Other => LitView::Other,
        }
    }
}

/// One entry between the parentheses of a list attribute such as
/// `#[builder(each = "arg")]`. A key is the entry's path as written, its
/// segments joined by `::`.
#[derive(Clone, Debug, PartialEq, Eq)]
pub enum NestedMeta {
    /// `key = value`
    NameValue { key: String, value: Lit },
    /// A bare `key` with no value.
    Path { key: String },
    /// A nested list `key(...)`; its contents are never inspected.
    List { key: String },
    /// A literal standing alone.
    Lit(Lit),
}

pub enum NestedMetaView {
    NameValue { key: Seq<char>, value: LitView },
    Path { key: Seq<char> },
    List { key: Seq<char> },
    Lit(LitView),
}

impl View for NestedMeta {
    type V = NestedMetaView;

    open spec fn view(&self) -> NestedMetaView {
        match self {
            NestedMeta::NameValue { key, value } => NestedMetaView::NameValue {
                key: key@,
                value: value@,
            },
            NestedMeta::Path { key } => NestedMetaView::Path { key: key@ },
            NestedMeta::List { key } => NestedMetaView::List { key: key@ },
            NestedMeta::Lit(lit) => NestedMetaView::Lit(lit@),
        }
    }
}

/// What follows the tag of an attribute.
#[derive(Clone, Debug, PartialEq, Eq)]
pub enum Meta {
    /// Nothing: `#[tag]`.
    Path,
    /// `#[tag = value]`
    NameValue(Lit),
    /// `#[tag(entry, ...)]`
    List(Vec<NestedMeta>),
    /// Tokens that do not form a meta item, such as `#[tag(each = arg)]`.
    Malformed,
}

pub enum MetaView {
    Path,
    NameValue(LitView),
    List(Seq<NestedMetaView>),
    Malformed,
}

impl View for Meta {
    type V = MetaView;

    open spec fn view(&self) -> MetaView {
        match self {
            Meta::Path => MetaView::Path,
            Meta::NameValue(lit) => MetaView::NameValue(lit@),
            Meta::List(nested) => MetaView::List(views(nested@)),
            Meta::Malformed => MetaView::Malformed,
        }
    }
}

/// One attribute attached to a field. `tag` is the first segment of the
/// attribute's path, the namespace the attribute belongs to.
#[derive(Clone, Debug, PartialEq, Eq)]
pub struct Attribute {
    pub tag: String,
    pub meta: Meta,
}

pub struct AttributeView {
    pub tag: Seq<char>,
    pub meta: MetaView,
}

impl View for Attribute {
    type V = AttributeView;

    open spec fn view(&self) -> AttributeView {
        AttributeView { tag: self.tag@, meta: self.meta@ }
    }
}

/// One argument between the angle brackets of a path segment.
#[derive(Clone, Debug, PartialEq, Eq)]
pub enum GenericArgument {
    /// A type, as written.
    Type(String),
    /// A lifetime, a constant, a binding or a constraint.
    Other,
}

pub enum GenericArgumentView {
    Type(Seq<char>),
    Other,
}

impl View for GenericArgument {
    type V = GenericArgumentView;

    open spec fn view(&self) -> GenericArgumentView {
        match self {
            GenericArgument::Type(text) => GenericArgumentView::Type(text@),
            GenericArgument::Other => GenericArgumentView::Other,
        }
    }
}

/// The arguments of a path segment.
#[derive(Clone, Debug, PartialEq, Eq)]
pub enum PathArguments {
    /// `Name`
    Bare,
    /// `Name<A, B>`
    AngleBracketed(Vec<GenericArgument>),
    /// `Name(A, B) -> C`
    Parenthesized,
}

pub enum PathArgumentsView {
    Bare,
    AngleBracketed(Seq<GenericArgumentView>),
    Parenthesized,
}

impl View for PathArguments {
    type V = PathArgumentsView;

    open spec fn view(&self) -> PathArgumentsView {
        match self {
            PathArguments::Bare => PathArgumentsView::Bare,
            PathArguments::AngleBracketed(args) => PathArgumentsView::AngleBracketed(views(args@)),
            PathArguments::Parenthesized => PathArgumentsView::Parenthesized,
        }
    }
}

/// The type that a path names: the identifier and the arguments of the
/// path's last segment, and before them the identifiers of the segments that
/// lead there. `std::option::Option<String>` has the qualifier `std`,
/// `option`, the identifier `Option` and one argument; `Option<String>` has
/// the same identifier and argument and an empty qualifier.
#[derive(Clone, Debug, PartialEq, Eq)]
pub struct TypePath {
    pub qualifier: Vec<String>,
    pub ident: String,
    pub arguments: PathArguments,
}

pub struct TypePathView {
    pub qualifier: Seq<Seq<char>>,
    pub ident: Seq<char>,
    pub arguments: PathArgumentsView,
}

impl View for TypePath {
    type V = TypePathView;

    open spec fn view(&self) -> TypePathView {
        TypePathView {
            qualifier: views(self.qualifier@),
            ident: self.ident@,
            arguments: self.arguments@,
        }
    }
}

/// A field's declared type: its source text, and its outline where it is a
/// path type. References, tuples, arrays and the like have no outline.
#[derive(Clone, Debug, PartialEq, Eq)]
pub struct Type {
    pub text: String,
    pub path: Option<TypePath>,
}

pub struct TypeView {
    pub text: Seq<char>,
    pub path: Option<TypePathView>,
}

impl View for Type {
    type V = TypeView;

    open spec fn view(&self) -> TypeView {
        TypeView {
            text: self.text@,
            path: match self.path {
                Some(p) => Some(p@),
                None => None,
            },
        }
    }
}

/// One named field of a record.
#[derive(Clone, Debug, PartialEq, Eq)]
pub struct Field {
    pub ident: String,
    pub ty: Type,
    pub attrs: Vec<Attribute>,
}

pub struct FieldView {
    pub ident: Seq<char>,
    pub ty: TypeView,
    pub attrs: Seq<AttributeView>,
}

impl View for Field {
    type V = FieldView;

    open spec fn view(&self) -> FieldView {
        FieldView {
            ident: self.ident@,
            ty: self.ty@,
            attrs: views(self.attrs@),
        }
    }
}

/// The shape of the declaration that carries the derive.
#[derive(Clone, Debug, PartialEq, Eq)]
pub enum Data {
    /// A struct with named fields, in declaration order.
    Struct(Vec<Field>),
    /// A struct with positional fields.
    TupleStruct,
    /// A struct without fields and without braces.
    UnitStruct,
    Enum,
    Union,
}

pub enum DataView {
    Struct(Seq<FieldView>),
    TupleStruct,
    UnitStruct,
    Enum,
    Union,
}

impl View for Data {
    type V = DataView;

    open spec fn view(&self) -> DataView {
        match self {
            Data::Struct(fields) => DataView::Struct(views(fields@)),
            Data::TupleStruct => DataView::TupleStruct,
            Data::UnitStruct => DataView::UnitStruct,
            Data::Enum => DataView::Enum,
            Data::Union => DataView::Union,
        }
    }
}

/// A type declaration: one unit of work for the engine.
#[derive(Clone, Debug, PartialEq, Eq)]
pub struct DeriveInput {
    /// The declaration's visibility as written; empty for a private item.
    pub vis: String,
    pub ident: String,
    pub data: Data,
}

pub struct DeriveInputView {
    pub vis: Seq<char>,
    pub ident: Seq<char>,
    pub data: DataView,
}

impl View for DeriveInput {
    type V = DeriveInputView;

    open spec fn view(&self) -> DeriveInputView {
        DeriveInputView { vis: self.vis@, ident: self.ident@, data: self.data@ }
    }
}

} // verus!
