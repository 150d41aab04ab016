//! The members that the engine emits for a record: the builder's storage
//! slots, their initial values, the mutating methods, and the steps of
//! `build`. Together they form the expansion that is handed back for
//! rendering.

use crate::seqs::views;
use vstd::prelude::*;

verus! {

/// The type of a storage slot of the builder.
#[derive(Clone, Debug, PartialEq, Eq)]
pub enum SlotType {
    /// Optional of the given type: absent until set.
    Wrapped(String),
    /// Exactly the given type, which is optional already.
    Declared(String),
    /// An appendable ordered sequence of elements of the given type.
    Sequence(String),
}

pub enum SlotTypeView {
    Wrapped(Seq<char>),
    Declared(Seq<char>),
    Sequence(Seq<char>),
}

impl View for SlotType {
    type V = SlotTypeView;

    open spec fn view(&self) -> SlotTypeView {
        match self {
            SlotType::Wrapped(ty) => SlotTypeView::Wrapped(ty@),
            SlotType::Declared(ty) => SlotTypeView::Declared(ty@),
            SlotType::Sequence(ty) => SlotTypeView::Sequence(ty@),
        }
    }
}

/// One storage slot of the builder type.
#[derive(Clone, Debug, PartialEq, Eq)]
pub struct SlotDecl {
    pub name: String,
    pub ty: SlotType,
}

pub struct SlotDeclView {
    pub name: Seq<char>,
    pub ty: SlotTypeView,
}

impl View for SlotDecl {
    type V = SlotDeclView;

    open spec fn view(&self) -> SlotDeclView {
        SlotDeclView { name: self.name@, ty: self.ty@ }
    }
}

/// The value a slot holds in a new builder.
#[derive(Clone, Copy, Debug, PartialEq, Eq)]
pub enum EmptyValue {
    /// No value.
    Absent,
    /// A sequence without elements.
    EmptySequence,
}

/// The initializer of one slot in the builder's constructor.
#[derive(Clone, Debug, PartialEq, Eq)]
pub struct SlotInit {
    pub name: String,
    pub value: EmptyValue,
}

pub struct SlotInitView {
    pub name: Seq<char>,
    pub value: EmptyValue,
}

impl View for SlotInit {
    type V = SlotInitView;

    open spec fn view(&self) -> SlotInitView {
        SlotInitView { name: self.name@, value: self.value }
    }
}

/// What a mutating method does to its slot.
#[derive(Clone, Copy, Debug, PartialEq, Eq)]
pub enum Action {
    /// Stores its argument as the slot's value, replacing any earlier one.
    Store,
    /// Appends its argument to the slot's sequence.
    Push,
    /// Moves every element of the sequence it is handed to the end of the
    /// slot's sequence.
    Extend,
}

/// One mutating method of the builder. It takes the builder by exclusive
/// reference and returns that reference, so that calls can be chained.
#[derive(Clone, Debug, PartialEq, Eq)]
pub struct Accessor {
    /// The method's name.
    pub name: String,
    /// The position of the slot it writes.
    pub slot: usize,
    /// The name of the slot it writes.
    pub field: String,
    pub action: Action,
    /// `Store` and `Push` take one value of this type; `Extend` takes an
    /// exclusive reference to a sequence of values of this type.
    pub item_type: String,
}

pub struct AccessorView {
    pub name: Seq<char>,
    pub slot: int,
    pub field: Seq<char>,
    pub action: Action,
    pub item_type: Seq<char>,
}

impl View for Accessor {
    type V = AccessorView;

    open spec fn view(&self) -> AccessorView {
        AccessorView {
            name: self.name@,
            slot: self.slot as int,
            field: self.field@,
            action: self.action,
            item_type: self.item_type@,
        }
    }
}

/// How `build` obtains a field of the record from its slot.
#[derive(Clone, Debug, PartialEq, Eq)]
pub enum Extraction {
    /// Fails with the message where the slot is absent; otherwise moves the
    /// held value out.
    Require { message: String },
    /// Moves out whatever the slot holds; absent is a valid value.
    Take,
    /// Moves out the accumulated sequence, in the order of the appends.
    Drain,
}

pub enum ExtractionView {
    Require { message: Seq<char> },
    Take,
    Drain,
}

impl View for Extraction {
    type V = ExtractionView;

    open spec fn view(&self) -> ExtractionView {
        match self {
            Extraction::Require { message } => ExtractionView::Require { message: message@ },
            Extraction::Take => ExtractionView::Take,
            Extraction::Drain => ExtractionView::Drain,
        }
    }
}

/// The step of `build` for one field. Steps stand in declaration order.
#[derive(Clone, Debug, PartialEq, Eq)]
pub struct BuildStep {
    pub field: String,
    pub extraction: Extraction,
}

pub struct BuildStepView {
    pub field: Seq<char>,
    pub extraction: ExtractionView,
}

impl View for BuildStep {
    type V = BuildStepView;

    open spec fn view(&self) -> BuildStepView {
        BuildStepView { field: self.field@, extraction: self.extraction@ }
    }
}

/// Everything emitted for one record declaration.
#[derive(Clone, Debug, PartialEq, Eq)]
pub struct Expansion {
    /// The visibility of the builder type and of its constructor.
    pub vis: String,
    /// The name of the record type.
    pub record: String,
    /// The name of the builder type.
    pub builder: String,
    /// The builder's storage layout.
    pub slots: Vec<SlotDecl>,
    /// The constructor: one initializer per slot.
    pub inits: Vec<SlotInit>,
    /// The mutating methods.
    pub accessors: Vec<Accessor>,
    /// The steps of `build`, one per field.
    pub steps: Vec<BuildStep>,
}

pub struct ExpansionView {
    pub vis: Seq<char>,
    pub record: Seq<char>,
    pub builder: Seq<char>,
    pub slots: Seq<SlotDeclView>,
    pub inits: Seq<SlotInitView>,
    pub accessors: Seq<AccessorView>,
    pub steps: Seq<BuildStepView>,
}

impl View for Expansion {
    type V = ExpansionView;

    open spec fn view(&self) -> ExpansionView {
        ExpansionView {
            vis: self.vis@,
            record: self.record@,
            builder: self.builder@,
            slots: views(self.slots@),
            inits: views(self.inits@),
            accessors: views(self.accessors@),
            steps: views(self.steps@),
        }
    }
}

} // verus!
