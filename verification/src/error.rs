//! Why an expansion was abandoned.

use crate::metadata::{reason_text, MetadataError, MetadataErrorView};
use crate::text::joined;
use vstd::prelude::*;
use vstd::string::*;

verus! {

/// A failure found while the descriptor set of a record is constructed. Any of
/// them ends the expansion: there is no partial output.
#[derive(Clone, Debug, PartialEq, Eq)]
pub enum ExpandError {
    /// The declaration is not a struct with named fields.
    UnsupportedShape,
    /// A `builder` attribute of the named field was rejected.
    InvalidMetadata { field: String, reason: MetadataError },
    /// The named field wraps or accumulates values, but its declared type is
    /// no generic type with a single type argument.
    InternalInvariantViolation { field: String },
}

pub enum ExpandErrorView {
    UnsupportedShape,
    InvalidMetadata { field: Seq<char>, reason: MetadataErrorView },
    InternalInvariantViolation { field: Seq<char> },
}

impl View for ExpandError {
    type V = ExpandErrorView;

    open spec fn view(&self) -> ExpandErrorView {
        match self {
            ExpandError::UnsupportedShape => ExpandErrorView::UnsupportedShape,
            ExpandError::InvalidMetadata { field, reason } => ExpandErrorView::InvalidMetadata {
                field: field@,
                reason: reason@,
            },
            ExpandError::InternalInvariantViolation { field } => {
                ExpandErrorView::InternalInvariantViolation { field: field@ }
            },
        }
    }
}

/// The text of the diagnostic for a failure.
pub open spec fn message(e: ExpandErrorView) -> Seq<char> {
    match e {
        ExpandErrorView::UnsupportedShape => "a builder can only be derived for a struct with named fields"@,
        ExpandErrorView::InvalidMetadata { field, reason } => "field `"@ + field + "`: "@
            + reason_text(reason),
        ExpandErrorView::InternalInvariantViolation { field } => "field `"@ + field
            + "`: the declared type must be a generic type with a single type argument"@,
    }
}

impl ExpandError {
    /// The text of the diagnostic: it names the offending field and says
    /// what was wrong with it.
    pub fn describe(&self) -> (text: String)
        ensures
            text@ == message(self@),
    {
        match self {
            ExpandError::UnsupportedShape => String::from_str(
                "a builder can only be derived for a struct with named fields",
            ),
            ExpandError::InvalidMetadata { field, reason } => {
                let head = joined(&String::from_str("field `"), field.as_str());
                let head = joined(&head, "`: ");
                let reason = reason.describe();
                joined(&head, reason.as_str())
            },
            ExpandError::InternalInvariantViolation { field } => {
                let head = joined(&String::from_str("field `"), field.as_str());
                joined(
                    &head,
                    "`: the declared type must be a generic type with a single type argument",
                )
            },
        }
    }
}

} // verus!
