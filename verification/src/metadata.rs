//! The metadata parser: from the attributes attached to a field to the
//! directives they carry.
//!
//! Only attributes tagged `builder` are inspected. Such an attribute must be a
//! non-empty list in which every entry reads `each = "<identifier>"`; any
//! other shape is an error, never a silent default.

use crate::ident::{identifier, is_identifier};
use crate::input::{
    Attribute, AttributeView, Lit, LitView, Meta, MetaView, NestedMeta, NestedMetaView,
};
use crate::seqs::{collect, lemma_collect_err, lemma_collect_ok, result_view, results_view, views};
use crate::text::{joined, text_is};
use vstd::prelude::*;
use vstd::string::*;

verus! {

/// One recognised instruction from a field's attributes.
#[derive(Clone, Debug, PartialEq, Eq)]
pub enum MetadataDirective {
    /// The field accumulates elements, and the method that appends a single
    /// element bears this name.
    EachElementNamed(String),
}

pub enum DirectiveView {
    EachElementNamed(Seq<char>),
}

impl View for MetadataDirective {
    type V = DirectiveView;

    open spec fn view(&self) -> DirectiveView {
        match self {
            MetadataDirective::EachElementNamed(name) => DirectiveView::EachElementNamed(name@),
        }
    }
}

/// Why a `builder` attribute was rejected.
#[derive(Clone, Debug, PartialEq, Eq)]
pub enum MetadataError {
    /// The attribute is `#[builder]` or `#[builder = ...]`, not a list.
    NotAList,
    /// The attribute's tokens do not form a meta item.
    Malformed,
    /// The list has no entry: `#[builder()]`.
    Empty,
    /// An entry `key = value` whose key is not `each`.
    UnknownKey(String),
    /// `each = value` where the value is not a string literal.
    NonStringValue,
    /// `each = "name"` where the name is no identifier.
    NotAnIdentifier(String),
    /// An entry that is a bare key without a value.
    MissingValue(String),
    /// An entry that is itself a list.
    NestedList(String),
    /// An entry that is a literal standing alone.
    BareLiteral,
}

pub enum MetadataErrorView {
    NotAList,
    Malformed,
    Empty,
    UnknownKey(Seq<char>),
    NonStringValue,
    NotAnIdentifier(Seq<char>),
    MissingValue(Seq<char>),
    NestedList(Seq<char>),
    BareLiteral,
}

impl View for MetadataError {
    type V = MetadataErrorView;

    open spec fn view(&self) -> MetadataErrorView {
        match self {
            MetadataError::NotAList => MetadataErrorView::NotAList,
            MetadataError::Malformed => MetadataErrorView::Malformed,
            MetadataError::Empty => MetadataErrorView::Empty,
            MetadataError::UnknownKey(key) => MetadataErrorView::UnknownKey(key@),
            MetadataError::NonStringValue => MetadataErrorView::NonStringValue,
            MetadataError::NotAnIdentifier(name) => MetadataErrorView::NotAnIdentifier(name@),
            MetadataError::MissingValue(key) => MetadataErrorView::MissingValue(key@),
            MetadataError::NestedList(key) => MetadataErrorView::NestedList(key@),
            MetadataError::BareLiteral => MetadataErrorView::BareLiteral,
        }
    }
}

/// The tag of the attributes this engine reads.
pub open spec fn namespace() -> Seq<char> {
    "builder"@
}

/// The one key a `builder` attribute may hold.
pub open spec fn each_key() -> Seq<char> {
    "each"@
}

/// What one entry of a `builder` list means: `each = "<identifier>"` is a
/// directive, everything else an error.
pub open spec fn entry_directive(entry: NestedMetaView) -> Result<DirectiveView, MetadataErrorView> {
    match entry {
        NestedMetaView::NameValue { key, value } => if key == each_key() {
            match value {
                LitView::Str(name) => if identifier(name) {
                    Ok(DirectiveView::EachElementNamed(name))
                } else {
                    Err(MetadataErrorView::NotAnIdentifier(name))
                },
                LitView::Other => Err(MetadataErrorView::NonStringValue),
            }
        } else {
            Err(MetadataErrorView::UnknownKey(key))
        },
        NestedMetaView::Path { key } => Err(MetadataErrorView::MissingValue(key)),
        NestedMetaView::List { key } => Err(MetadataErrorView::NestedList(key)),
        NestedMetaView::Lit(_) => Err(MetadataErrorView::BareLiteral),
    }
}

/// The meaning of each entry of a list, in order.
pub open spec fn entry_directives(entries: Seq<NestedMetaView>) -> Seq<
    Result<DirectiveView, MetadataErrorView>,
> {
    Seq::new(entries.len(), |i: int| entry_directive(entries[i]))
}

/// The directives of one attribute. An attribute of another namespace has
/// none; a `builder` attribute yields one directive per entry, or the error of
/// its first offending entry.
pub open spec fn attribute_directives(attr: AttributeView) -> Result<
    Seq<DirectiveView>,
    MetadataErrorView,
> {
    if attr.tag != namespace() {
        Ok(Seq::empty())
    } else {
        match attr.meta {
            MetaView::Path => Err(MetadataErrorView::NotAList),
            MetaView::NameValue(_) => Err(MetadataErrorView::NotAList),
            MetaView::Malformed => Err(MetadataErrorView::Malformed),
            MetaView::List(entries) => if entries.len() == 0 {
                Err(MetadataErrorView::Empty)
            } else {
                collect(entry_directives(entries))
            },
        }
    }
}

/// The outcome of each attribute of a field, in order.
pub open spec fn attribute_outcomes(attrs: Seq<AttributeView>) -> Seq<
    Result<Seq<DirectiveView>, MetadataErrorView>,
> {
    Seq::new(attrs.len(), |i: int| attribute_directives(attrs[i]))
}

/// The directives of a field: those of all its attributes, in the order
/// written, or the error of the first attribute that is rejected.
pub open spec fn field_directives(attrs: Seq<AttributeView>) -> Result<
    Seq<DirectiveView>,
    MetadataErrorView,
> {
    match collect(attribute_outcomes(attrs)) {
        Ok(groups) => Ok(groups.flatten()),
        Err(e) => Err(e),
    }
}

/// The name that the directives give to the single-element method: that of
/// the last `each`, if there is any.
pub open spec fn each_name(directives: Seq<DirectiveView>) -> Option<Seq<char>> {
    if directives.len() == 0 {
        None
    } else {
        match directives.last() {
            DirectiveView::EachElementNamed(name) => Some(name),
        }
    }
}

/// Reads one entry of a `builder` list.
pub fn parse_entry(entry: &NestedMeta) -> (r: Result<MetadataDirective, MetadataError>)
    ensures
        result_view(r) == entry_directive(entry@),
{
    match entry {
        NestedMeta::NameValue { key, value } => {
            if text_is(key, "each") {
                match value {
                    Lit::Str(name) => {
                        if is_identifier(name.as_str()) {
                            Ok(MetadataDirective::EachElementNamed(name.clone()))
                        } else {
                            Err(MetadataError::NotAnIdentifier(name.clone()))
                        }
                    },
                    Lit::Other => Err(MetadataError::NonStringValue),
                }
            } else {
                Err(MetadataError::UnknownKey(key.clone()))
            }
        },
        NestedMeta::Path { key } => Err(MetadataError::MissingValue(key.clone())),
        NestedMeta::List { key } => Err(MetadataError::NestedList(key.clone())),
        NestedMeta::Lit(_) => Err(MetadataError::BareLiteral),
    }
}

/// Reads one attribute.
pub fn parse_attribute(attr: &Attribute) -> (r: Result<Vec<MetadataDirective>, MetadataError>)
    ensures
        results_view(r) == attribute_directives(attr@),
{
    if !text_is(&attr.tag, "builder") {
        let none: Vec<MetadataDirective> = Vec::new();
        assert(views(none@) =~= Seq::empty());
        return Ok(none);
    }
    match &attr.meta {
        Meta::Path => Err(MetadataError::NotAList),
        Meta::NameValue(_) => Err(MetadataError::NotAList),
        Meta::Malformed => Err(MetadataError::Malformed),
        Meta::List(entries) => {
            if entries.len() == 0 {
                return Err(MetadataError::Empty);
            }
            let ghost outcomes = entry_directives(views(entries@));
            let mut found: Vec<MetadataDirective> = Vec::new();
            let mut i: usize = 0;
            while i < entries.len()
                invariant
                    i <= entries.len(),
                    attribute_directives(attr@) == collect(outcomes),
                    outcomes == entry_directives(views(entries@)),
                    found@.len() == i,
                    forall|j: int|
                        0 <= j < i ==> (#[trigger] outcomes[j]) == Ok::<
                            DirectiveView,
                            MetadataErrorView,
                        >(found@[j]@),
                decreases entries.len() - i,
            {
                match parse_entry(&entries[i]) {
                    Ok(directive) => {
                        found.push(directive);
                    },
                    Err(e) => {
                        proof {
                            lemma_collect_err(outcomes, i as int);
                        }
                        return Err(e);
                    },
                }
                i += 1;
            }
            proof {
                lemma_collect_ok(outcomes);
                assert(views(found@) =~= Seq::new(outcomes.len(), |j: int| outcomes[j]->Ok_0));
            }
            Ok(found)
        },
    }
}

/// Reads all attributes of a field and gathers their directives.
pub fn parse_metadata(attrs: &Vec<Attribute>) -> (r: Result<Vec<MetadataDirective>, MetadataError>)
    ensures
        results_view(r) == field_directives(views(attrs@)),
{
    let ghost outcomes = attribute_outcomes(views(attrs@));
    let mut found: Vec<MetadataDirective> = Vec::new();
    let mut i: usize = 0;
    while i < attrs.len()
        invariant
            i <= attrs.len(),
            outcomes == attribute_outcomes(views(attrs@)),
            forall|j: int| 0 <= j < i ==> (#[trigger] outcomes[j]) is Ok,
            views(found@) == Seq::new(i as nat, |j: int| outcomes[j]->Ok_0).flatten(),
        decreases attrs.len() - i,
    {
        match parse_attribute(&attrs[i]) {
            Ok(mut group) => {
                let ghost before = Seq::new(i as nat, |j: int| outcomes[j]->Ok_0);
                let ghost added = views(group@);
                found.append(&mut group);
                proof {
                    assert(Seq::new((i + 1) as nat, |j: int| outcomes[j]->Ok_0) =~= before.push(
                        added,
                    ));
                    before.lemma_flatten_push(added);
                }
            },
            Err(e) => {
                proof {
                    lemma_collect_err(outcomes, i as int);
                }
                return Err(e);
            },
        }
        i += 1;
    }
    proof {
        lemma_collect_ok(outcomes);
    }
    Ok(found)
}

/// The name of the single-element method that the directives ask for, if
/// they ask for one. Where several do, the last one decides.
pub fn extract_name(directives: &Vec<MetadataDirective>) -> (name: Option<String>)
    ensures
        match name {
            Some(n) => each_name(views(directives@)) == Some(n@),
            None => each_name(views(directives@)) is None,
        },
{
    if directives.len() == 0 {
        None
    } else {
        match &directives[directives.len() - 1] {
            MetadataDirective::EachElementNamed(name) => Some(name.clone()),
        }
    }
}

/// What a rejection says of the attribute, for the diagnostic.
pub open spec fn reason_text(e: MetadataErrorView) -> Seq<char> {
    match e {
        MetadataErrorView::NotAList => "expected `builder(each = \"...\")`"@,
        MetadataErrorView::Malformed => "the `builder` attribute is no list of `key = \"value\"` pairs"@,
        MetadataErrorView::Empty => "the `builder` attribute is empty"@,
        MetadataErrorView::UnknownKey(key) => "unsupported key `"@ + key + "`, expected `each`"@,
        MetadataErrorView::NonStringValue => "the value of `each` must be a string literal"@,
        MetadataErrorView::NotAnIdentifier(name) => "`"@ + name + "` is no identifier"@,
        MetadataErrorView::MissingValue(key) => "`"@ + key + "` has no value"@,
        MetadataErrorView::NestedList(key) => "`"@ + key + "` must not be a list"@,
        MetadataErrorView::BareLiteral => "expected `each = \"...\"`, found a literal"@,
    }
}

impl MetadataError {
    /// The text of the rejection, for the diagnostic.
    pub fn describe(&self) -> (text: String)
        ensures
            text@ == reason_text(self@),
    {
        match self {
            MetadataError::NotAList => String::from_str("expected `builder(each = \"...\")`"),
            MetadataError::Malformed => String::from_str(
                "the `builder` attribute is no list of `key = \"value\"` pairs",
            ),
            MetadataError::Empty => String::from_str("the `builder` attribute is empty"),
            MetadataError::UnknownKey(key) => {
                let head = joined(&String::from_str("unsupported key `"), key.as_str());
                joined(&head, "`, expected `each`")
            },
            MetadataError::NonStringValue => String::from_str(
                "the value of `each` must be a string literal",
            ),
            MetadataError::NotAnIdentifier(name) => {
                let head = joined(&String::from_str("`"), name.as_str());
                joined(&head, "` is no identifier")
            },
            MetadataError::MissingValue(key) => {
                let head = joined(&String::from_str("`"), key.as_str());
                joined(&head, "` has no value")
            },
            MetadataError::NestedList(key) => {
                let head = joined(&String::from_str("`"), key.as_str());
                joined(&head, "` must not be a list")
            },
            MetadataError::BareLiteral => String::from_str(
                "expected `each = \"...\"`, found a literal",
            ),
        }
    }
}

} // verus!
