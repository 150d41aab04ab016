//! A builder-deriving engine.
//!
//! Given the description of a record (a struct with named fields), the engine
//! synthesizes the companion builder: one storage slot per field, a
//! constructor, chainable setters, and a `build` operation that validates and
//! assembles the record.
//!
//! The work flows leaf first: [`metadata`] reads the `builder` attributes of a
//! field (with [`ident`] deciding which names are identifiers),
//! [`descriptor`] extracts every field and resolves its construction policy,
//! [`synth`] emits the members described in [`plan`], and [`derive`] puts the
//! passes together on a declaration given as [`input`]. [`semantics`] says
//! what the emitted members mean, [`runtime`] executes them on values, and
//! [`laws`] states what holds of every builder that the engine emits.

pub mod descriptor;
pub mod error;
pub mod ident;
pub mod input;
pub mod laws;
pub mod metadata;
pub mod plan;
pub mod runtime;
pub mod semantics;
pub mod seqs;
pub mod synth;
pub mod text;

use crate::descriptor::{describe, descriptors};
use crate::error::{ExpandError, ExpandErrorView};
use crate::input::{Data, DataView, DeriveInput, DeriveInputView};
use crate::plan::{Expansion, ExpansionView};
use crate::seqs::result_view;
use crate::synth::{synthesize, synthesized};
use vstd::prelude::*;

verus! {

/// The expansion of a declaration. Only a struct with named fields has one;
/// its descriptor set is constructed first, and any failure there leaves
/// nothing emitted.
pub open spec fn expansion(input: DeriveInputView) -> Result<ExpansionView, ExpandErrorView> {
    match input.data {
        DataView::Struct(fields) => match descriptors(fields) {
            Ok(ds) => Ok(synthesized(input.vis, input.ident, ds)),
            Err(e) => Err(e),
        },
        _ => Err(ExpandErrorView::UnsupportedShape),
    }
}

/// Expands one record declaration into the members of its builder.
pub fn derive(input: &DeriveInput) -> (r: Result<Expansion, ExpandError>)
    ensures
        result_view(r) == expansion(input@),
{
    match &input.data {
        Data::Struct(fields) => match describe(fields) {
            Ok(ds) => Ok(synthesize(&input.vis, &input.ident, &ds)),
            Err(e) => Err(e),
        },
        _ => Err(ExpandError::UnsupportedShape),
    }
}

} // verus!
