//! Field descriptors: the extractor that reads one field, and the resolver
//! that assigns every field its construction policy.

use crate::error::{ExpandError, ExpandErrorView};
use crate::input::{
    Field, FieldView, GenericArgument, GenericArgumentView, PathArguments, PathArgumentsView, Type,
    TypeView,
};
use crate::metadata::{each_name, extract_name, field_directives, parse_metadata};
use crate::seqs::{collect, lemma_collect_err, lemma_collect_ok, result_view, results_view, views};
use crate::text::{same_text, text_is};
use vstd::prelude::*;

verus! {

/// The name of the standard optional wrapper.
pub open spec fn option_name() -> Seq<char> {
    "Option"@
}

/// Whether a qualifier leads to the standard optional wrapper: the wrapper
/// is written bare, as in the prelude, or under `std::option` or
/// `core::option`.
pub open spec fn leads_to_option(qualifier: Seq<Seq<char>>) -> bool {
    ||| qualifier.len() == 0
    ||| qualifier.len() == 2 && (qualifier[0] == "std"@ || qualifier[0] == "core"@)
        && qualifier[1] == "option"@
}

/// Whether `ty` is the standard optional wrapper, however its path is
/// written.
pub open spec fn is_option(ty: TypeView) -> bool {
    ty.path matches Some(path) && path.ident == option_name() && leads_to_option(path.qualifier)
}

/// The single type argument of the type that `ty` names: present where the
/// last segment of its path has exactly one generic argument and it is a
/// type.
pub open spec fn inner_type(ty: TypeView) -> Option<Seq<char>> {
    match ty.path {
        Some(path) => match path.arguments {
            PathArgumentsView::AngleBracketed(args) => if args.len() == 1 {
                match args[0] {
                    GenericArgumentView::Type(text) => Some(text),
                    GenericArgumentView::Other => None,
                }
            } else {
                None
            },
            _ => None,
        },
        None => None,
    }
}

/// What the extractor reads of one field, before any policy is assigned.
#[derive(Clone, Debug, PartialEq, Eq)]
pub struct Extracted {
    pub name: String,
    /// The declared type as written.
    pub declared_type: String,
    /// Whether the declared type is the optional wrapper.
    pub optional: bool,
    /// The single type argument of the declared type, if it has one.
    pub element_type: Option<String>,
    /// The name asked for by an `each` directive, if the field carries one.
    pub custom_name: Option<String>,
}

pub struct ExtractedView {
    pub name: Seq<char>,
    pub declared_type: Seq<char>,
    pub optional: bool,
    pub element_type: Option<Seq<char>>,
    pub custom_name: Option<Seq<char>>,
}

/// The characters of an optional string.
pub open spec fn option_text(s: Option<String>) -> Option<Seq<char>> {
    match s {
        Some(text) => Some(text@),
        None => None,
    }
}

impl View for Extracted {
    type V = ExtractedView;

    open spec fn view(&self) -> ExtractedView {
        ExtractedView {
            name: self.name@,
            declared_type: self.declared_type@,
            optional: self.optional,
            element_type: option_text(self.element_type),
            custom_name: option_text(self.custom_name),
        }
    }
}

/// The construction policy of a field.
#[derive(Clone, Debug, PartialEq, Eq)]
pub enum Classification {
    /// The field must be set before the record can be built.
    Required,
    /// The field may stay unset; it wraps a value of the given inner type.
    Optional(String),
    /// The field accumulates elements of the given type.
    Repeatable(String),
}

pub enum ClassificationView {
    Required,
    Optional(Seq<char>),
    Repeatable(Seq<char>),
}

impl View for Classification {
    type V = ClassificationView;

    open spec fn view(&self) -> ClassificationView {
        match self {
            Classification::Required => ClassificationView::Required,
            Classification::Optional(inner) => ClassificationView::Optional(inner@),
            Classification::Repeatable(element) => ClassificationView::Repeatable(element@),
        }
    }
}

/// Everything the synthesizers need to know of one field.
#[derive(Clone, Debug, PartialEq, Eq)]
pub struct FieldDescriptor {
    pub name: String,
    /// The declared type as written.
    pub declared_type: String,
    pub classification: Classification,
    /// The name of the field's primary mutating method.
    pub accessor_name: String,
}

pub struct FieldDescriptorView {
    pub name: Seq<char>,
    pub declared_type: Seq<char>,
    pub classification: ClassificationView,
    pub accessor_name: Seq<char>,
}

impl View for FieldDescriptor {
    type V = FieldDescriptorView;

    open spec fn view(&self) -> FieldDescriptorView {
        FieldDescriptorView {
            name: self.name@,
            declared_type: self.declared_type@,
            classification: self.classification@,
            accessor_name: self.accessor_name@,
        }
    }
}

impl FieldDescriptorView {
    /// Whether the primary method bears another name than the field.
    pub open spec fn has_custom_accessor_name(self) -> bool {
        self.accessor_name != self.name
    }

    /// Only a repeatable field may rename its primary method.
    pub open spec fn wf(self) -> bool {
        self.classification is Repeatable || self.accessor_name == self.name
    }
}

impl FieldDescriptor {
    /// Whether the primary method bears another name than the field.
    pub fn has_custom_accessor_name(&self) -> (custom: bool)
        ensures
            custom == self@.has_custom_accessor_name(),
    {
        !same_text(&self.accessor_name, &self.name)
    }
}

/// No two descriptors share a name.
pub open spec fn distinct_names(descriptors: Seq<FieldDescriptorView>) -> bool {
    forall|i: int, j: int|
        0 <= i < j < descriptors.len() ==> descriptors[i].name != descriptors[j].name
}

/// What the extractor makes of one field: its normalized reading, or the
/// rejection of its metadata.
pub open spec fn extracted(field: FieldView) -> Result<ExtractedView, ExpandErrorView> {
    match field_directives(field.attrs) {
        Ok(directives) => Ok(
            ExtractedView {
                name: field.ident,
                declared_type: field.ty.text,
                optional: is_option(field.ty),
                element_type: inner_type(field.ty),
                custom_name: each_name(directives),
            },
        ),
        Err(reason) => Err(ExpandErrorView::InvalidMetadata { field: field.ident, reason }),
    }
}

/// The policy of one field. The shape of the type decides first: a field
/// declared with the optional wrapper is `Optional`, whatever its metadata
/// says. Otherwise an `each` directive makes it `Repeatable`, and it bears the
/// directive's name as its accessor name. Every other field is `Required`.
/// A wrapping or accumulating field without a single type argument breaks the
/// engine's invariant.
pub open spec fn resolved(field: ExtractedView) -> Result<FieldDescriptorView, ExpandErrorView> {
    if field.optional {
        match field.element_type {
            Some(inner) => Ok(
                FieldDescriptorView {
                    name: field.name,
                    declared_type: field.declared_type,
                    classification: ClassificationView::Optional(inner),
                    accessor_name: field.name,
                },
            ),
            None => Err(ExpandErrorView::InternalInvariantViolation { field: field.name }),
        }
    } else {
        match field.custom_name {
            Some(each) => match field.element_type {
                Some(element) => Ok(
                    FieldDescriptorView {
                        name: field.name,
                        declared_type: field.declared_type,
                        classification: ClassificationView::Repeatable(element),
                        accessor_name: each,
                    },
                ),
                None => Err(ExpandErrorView::InternalInvariantViolation { field: field.name }),
            },
            None => Ok(
                FieldDescriptorView {
                    name: field.name,
                    declared_type: field.declared_type,
                    classification: ClassificationView::Required,
                    accessor_name: field.name,
                },
            ),
        }
    }
}

/// The extractor's outcome for each field, in declaration order.
pub open spec fn extraction_outcomes(fields: Seq<FieldView>) -> Seq<
    Result<ExtractedView, ExpandErrorView>,
> {
    Seq::new(fields.len(), |i: int| extracted(fields[i]))
}

/// The resolver's outcome for each extracted field, in declaration order.
pub open spec fn resolution_outcomes(fields: Seq<ExtractedView>) -> Seq<
    Result<FieldDescriptorView, ExpandErrorView>,
> {
    Seq::new(fields.len(), |i: int| resolved(fields[i]))
}

/// The descriptor set of a record's fields. All fields are extracted before
/// any is resolved, so a rejected attribute anywhere is reported before a
/// broken invariant; within each pass the first offending field, in
/// declaration order, decides.
pub open spec fn descriptors(fields: Seq<FieldView>) -> Result<
    Seq<FieldDescriptorView>,
    ExpandErrorView,
> {
    match collect(extraction_outcomes(fields)) {
        Ok(all) => collect(resolution_outcomes(all)),
        Err(e) => Err(e),
    }
}

/// Whether a qualifier leads to the standard optional wrapper.
pub fn qualifies_option(qualifier: &Vec<String>) -> (leads: bool)
    ensures
        leads == leads_to_option(views(qualifier@)),
{
    if qualifier.len() == 0 {
        true
    } else if qualifier.len() == 2 {
        (text_is(&qualifier[0], "std") || text_is(&qualifier[0], "core")) && text_is(
            &qualifier[1],
            "option",
        )
    } else {
        false
    }
}

/// Whether `ty` is the standard optional wrapper, however its path is
/// written.
pub fn get_optional(ty: &Type) -> (optional: bool)
    ensures
        optional == is_option(ty@),
{
    match &ty.path {
        Some(path) => text_is(&path.ident, "Option") && qualifies_option(&path.qualifier),
        None => false,
    }
}

/// The single type argument of the type that `ty` names.
pub fn get_inner_ty(ty: &Type) -> (inner: Option<String>)
    ensures
        option_text(inner) == inner_type(ty@),
{
    match &ty.path {
        Some(path) => match &path.arguments {
            PathArguments::AngleBracketed(args) => {
                if args.len() == 1 {
                    match &args[0] {
                        GenericArgument::Type(text) => Some(text.clone()),
                        GenericArgument::Other => None,
                    }
                } else {
                    None
                }
            },
            _ => None,
        },
        None => None,
    }
}

/// The field descriptor extractor: reads one field's name, declared type and
/// metadata. No policy is assigned yet.
pub fn extract(field: &Field) -> (r: Result<Extracted, ExpandError>)
    ensures
        result_view(r) == extracted(field@),
{
    match parse_metadata(&field.attrs) {
        Ok(directives) => Ok(
            Extracted {
                name: field.ident.clone(),
                declared_type: field.ty.text.clone(),
                optional: get_optional(&field.ty),
                element_type: get_inner_ty(&field.ty),
                custom_name: extract_name(&directives),
            },
        ),
        Err(reason) => Err(ExpandError::InvalidMetadata { field: field.ident.clone(), reason }),
    }
}

/// Assigns one extracted field its policy and accessor name.
pub fn resolve(field: &Extracted) -> (r: Result<FieldDescriptor, ExpandError>)
    ensures
        result_view(r) == resolved(field@),
{
    if field.optional {
        match &field.element_type {
            Some(inner) => Ok(
                FieldDescriptor {
                    name: field.name.clone(),
                    declared_type: field.declared_type.clone(),
                    classification: Classification::Optional(inner.clone()),
                    accessor_name: field.name.clone(),
                },
            ),
            None => Err(ExpandError::InternalInvariantViolation { field: field.name.clone() }),
        }
    } else {
        match &field.custom_name {
            Some(each) => match &field.element_type {
                Some(element) => Ok(
                    FieldDescriptor {
                        name: field.name.clone(),
                        declared_type: field.declared_type.clone(),
                        classification: Classification::Repeatable(element.clone()),
                        accessor_name: each.clone(),
                    },
                ),
                None => Err(ExpandError::InternalInvariantViolation { field: field.name.clone() }),
            },
            None => Ok(
                FieldDescriptor {
                    name: field.name.clone(),
                    declared_type: field.declared_type.clone(),
                    classification: Classification::Required,
                    accessor_name: field.name.clone(),
                },
            ),
        }
    }
}

/// Runs the extractor over every field, in declaration order.
pub fn extract_all(fields: &Vec<Field>) -> (r: Result<Vec<Extracted>, ExpandError>)
    ensures
        results_view(r) == collect(extraction_outcomes(views(fields@))),
{
    let ghost outcomes = extraction_outcomes(views(fields@));
    let mut all: Vec<Extracted> = Vec::new();
    let mut i: usize = 0;
    while i < fields.len()
        invariant
            i <= fields.len(),
            outcomes == extraction_outcomes(views(fields@)),
            all@.len() == i,
            forall|j: int|
                0 <= j < i ==> (#[trigger] outcomes[j]) == Ok::<ExtractedView, ExpandErrorView>(
                    all@[j]@,
                ),
        decreases fields.len() - i,
    {
        match extract(&fields[i]) {
            Ok(field) => {
                all.push(field);
            },
            Err(e) => {
                proof {
                    lemma_collect_err(outcomes, i as int);
                }
                return Err(e);
            },
        }
        i += 1;
    }
    proof {
        lemma_collect_ok(outcomes);
        assert(views(all@) =~= Seq::new(outcomes.len(), |j: int| outcomes[j]->Ok_0));
    }
    Ok(all)
}

/// The classification resolver: assigns every extracted field its policy.
pub fn resolve_all(fields: &Vec<Extracted>) -> (r: Result<Vec<FieldDescriptor>, ExpandError>)
    ensures
        results_view(r) == collect(resolution_outcomes(views(fields@))),
{
    let ghost outcomes = resolution_outcomes(views(fields@));
    let mut all: Vec<FieldDescriptor> = Vec::new();
    let mut i: usize = 0;
    while i < fields.len()
        invariant
            i <= fields.len(),
            outcomes == resolution_outcomes(views(fields@)),
            all@.len() == i,
            forall|j: int|
                0 <= j < i ==> (#[trigger] outcomes[j]) == Ok::<FieldDescriptorView, ExpandErrorView>(
                    all@[j]@,
                ),
        decreases fields.len() - i,
    {
        match resolve(&fields[i]) {
            Ok(descriptor) => {
                all.push(descriptor);
            },
            Err(e) => {
                proof {
                    lemma_collect_err(outcomes, i as int);
                }
                return Err(e);
            },
        }
        i += 1;
    }
    proof {
        lemma_collect_ok(outcomes);
        assert(views(all@) =~= Seq::new(outcomes.len(), |j: int| outcomes[j]->Ok_0));
    }
    Ok(all)
}

/// Constructs the descriptor set of a record's fields.
pub fn describe(fields: &Vec<Field>) -> (r: Result<Vec<FieldDescriptor>, ExpandError>)
    ensures
        results_view(r) == descriptors(views(fields@)),
{
    match extract_all(fields) {
        Ok(all) => resolve_all(&all),
        Err(e) => Err(e),
    }
}

} // verus!
