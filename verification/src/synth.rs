//! The synthesizers: from a resolved descriptor set to the members of the
//! builder.

use crate::descriptor::{Classification, ClassificationView, FieldDescriptor, FieldDescriptorView};
use crate::plan::{
    Accessor, AccessorView, Action, BuildStep, BuildStepView, EmptyValue, Expansion, ExpansionView,
    Extraction, ExtractionView, SlotDecl, SlotDeclView, SlotInit, SlotInitView, SlotType,
    SlotTypeView,
};
use crate::seqs::views;
use crate::text::joined;
use vstd::prelude::*;

verus! {

/// The storage slot of a field. It bears the field's name. A required field
/// is held as an optional of its declared type, an optional field as declared,
/// a repeatable field as a sequence of its elements.
pub open spec fn slot_decl(d: FieldDescriptorView) -> SlotDeclView {
    SlotDeclView {
        name: d.name,
        ty: match d.classification {
            ClassificationView::Required => SlotTypeView::Wrapped(d.declared_type),
            ClassificationView::Optional(_) => SlotTypeView::Declared(d.declared_type),
            ClassificationView::Repeatable(element) => SlotTypeView::Sequence(element),
        },
    }
}

/// The builder's storage layout: one slot per field, in declaration order.
pub open spec fn slot_decls(ds: Seq<FieldDescriptorView>) -> Seq<SlotDeclView> {
    Seq::new(ds.len(), |i: int| slot_decl(ds[i]))
}

/// The initial value of a field's slot: an empty sequence for a repeatable
/// field, absent for every other.
pub open spec fn slot_init(d: FieldDescriptorView) -> SlotInitView {
    SlotInitView {
        name: d.name,
        value: match d.classification {
            ClassificationView::Repeatable(_) => EmptyValue::EmptySequence,
            _ => EmptyValue::Absent,
        },
    }
}

/// The constructor's initializers: one per field, in declaration order.
pub open spec fn slot_inits(ds: Seq<FieldDescriptorView>) -> Seq<SlotInitView> {
    Seq::new(ds.len(), |i: int| slot_init(ds[i]))
}

/// The methods of the field at position `slot`.
///
/// A required field has one method under its own name that stores a value of
/// the declared type; an optional field one that stores a value of the inner
/// type. A repeatable field has a method under its accessor name that appends
/// one element; where that name differs from the field's, a bulk method under
/// the field's name precedes it.
pub open spec fn field_accessors(d: FieldDescriptorView, slot: int) -> Seq<AccessorView> {
    match d.classification {
        ClassificationView::Required => seq![
            AccessorView {
                name: d.name,
                slot,
                field: d.name,
                action: Action::Store,
                item_type: d.declared_type,
            },
        ],
        ClassificationView::Optional(inner) => seq![
            AccessorView { name: d.name, slot, field: d.name, action: Action::Store, item_type: inner },
        ],
        ClassificationView::Repeatable(element) => {
            let single = AccessorView {
                name: d.accessor_name,
                slot,
                field: d.name,
                action: Action::Push,
                item_type: element,
            };
            if d.has_custom_accessor_name() {
                seq![
                    AccessorView {
                        name: d.name,
                        slot,
                        field: d.name,
                        action: Action::Extend,
                        item_type: element,
                    },
                    single,
                ]
            } else {
                seq![single]
            }
        },
    }
}

/// The methods of each field, in declaration order.
pub open spec fn accessor_groups(ds: Seq<FieldDescriptorView>) -> Seq<Seq<AccessorView>> {
    Seq::new(ds.len(), |i: int| field_accessors(ds[i], i))
}

/// All mutating methods of the builder.
pub open spec fn accessors(ds: Seq<FieldDescriptorView>) -> Seq<AccessorView> {
    accessor_groups(ds).flatten()
}

/// The failure reported by `build` for a required field that was never set.
pub open spec fn missing_message(record: Seq<char>, field: Seq<char>) -> Seq<char> {
    record + " Value not set for field: "@ + field
}

/// The step of `build` for one field.
pub open spec fn build_step(record: Seq<char>, d: FieldDescriptorView) -> BuildStepView {
    BuildStepView {
        field: d.name,
        extraction: match d.classification {
            ClassificationView::Required => ExtractionView::Require {
                message: missing_message(record, d.name),
            },
            ClassificationView::Optional(_) => ExtractionView::Take,
            ClassificationView::Repeatable(_) => ExtractionView::Drain,
        },
    }
}

/// The steps of `build`: one per field, in declaration order.
pub open spec fn build_steps(record: Seq<char>, ds: Seq<FieldDescriptorView>) -> Seq<
    BuildStepView,
> {
    Seq::new(ds.len(), |i: int| build_step(record, ds[i]))
}

/// The name of the builder type of a record.
pub open spec fn builder_name(record: Seq<char>) -> Seq<char> {
    record + "Builder"@
}

/// Everything emitted for a record with the given descriptor set.
pub open spec fn synthesized(
    vis: Seq<char>,
    record: Seq<char>,
    ds: Seq<FieldDescriptorView>,
) -> ExpansionView {
    ExpansionView {
        vis,
        record,
        builder: builder_name(record),
        slots: slot_decls(ds),
        inits: slot_inits(ds),
        accessors: accessors(ds),
        steps: build_steps(record, ds),
    }
}

/// The builder type synthesizer.
pub fn create_builder_fields(descriptors: &Vec<FieldDescriptor>) -> (slots: Vec<SlotDecl>)
    ensures
        views(slots@) == slot_decls(views(descriptors@)),
{
    let mut slots: Vec<SlotDecl> = Vec::new();
    let mut i: usize = 0;
    while i < descriptors.len()
        invariant
            i <= descriptors.len(),
            slots@.len() == i,
            forall|j: int| 0 <= j < i ==> (#[trigger] slots@[j])@ == slot_decl(descriptors@[j]@),
        decreases descriptors.len() - i,
    {
        let d = &descriptors[i];
        let ty = match &d.classification {
            Classification::Required => SlotType::Wrapped(d.declared_type.clone()),
            Classification::Optional(_) => SlotType::Declared(d.declared_type.clone()),
            Classification::Repeatable(element) => SlotType::Sequence(element.clone()),
        };
        slots.push(SlotDecl { name: d.name.clone(), ty });
        i += 1;
    }
    slots
}

/// The constructor synthesizer.
pub fn create_builder_init(descriptors: &Vec<FieldDescriptor>) -> (inits: Vec<SlotInit>)
    ensures
        views(inits@) == slot_inits(views(descriptors@)),
{
    let mut inits: Vec<SlotInit> = Vec::new();
    let mut i: usize = 0;
    while i < descriptors.len()
        invariant
            i <= descriptors.len(),
            inits@.len() == i,
            forall|j: int| 0 <= j < i ==> (#[trigger] inits@[j])@ == slot_init(descriptors@[j]@),
        decreases descriptors.len() - i,
    {
        let d = &descriptors[i];
        let value = match &d.classification {
            Classification::Repeatable(_) => EmptyValue::EmptySequence,
            _ => EmptyValue::Absent,
        };
        inits.push(SlotInit { name: d.name.clone(), value });
        i += 1;
    }
    inits
}

/// The accessor synthesizer.
pub fn create_builder_setters(descriptors: &Vec<FieldDescriptor>) -> (methods: Vec<Accessor>)
    ensures
        views(methods@) == accessors(views(descriptors@)),
{
    let ghost groups = accessor_groups(views(descriptors@));
    let mut methods: Vec<Accessor> = Vec::new();
    let mut i: usize = 0;
    while i < descriptors.len()
        invariant
            i <= descriptors.len(),
            groups == accessor_groups(views(descriptors@)),
            views(methods@) == groups.take(i as int).flatten(),
        decreases descriptors.len() - i,
    {
        let d = &descriptors[i];
        match &d.classification {
            Classification::Required => {
                methods.push(
                    Accessor {
                        name: d.name.clone(),
                        slot: i,
                        field: d.name.clone(),
                        action: Action::Store,
                        item_type: d.declared_type.clone(),
                    },
                );
            },
            Classification::Optional(inner) => {
                methods.push(
                    Accessor {
                        name: d.name.clone(),
                        slot: i,
                        field: d.name.clone(),
                        action: Action::Store,
                        item_type: inner.clone(),
                    },
                );
            },
            Classification::Repeatable(element) => {
                if d.has_custom_accessor_name() {
                    methods.push(
                        Accessor {
                            name: d.name.clone(),
                            slot: i,
                            field: d.name.clone(),
                            action: Action::Extend,
                            item_type: element.clone(),
                        },
                    );
                }
                methods.push(
                    Accessor {
                        name: d.accessor_name.clone(),
                        slot: i,
                        field: d.name.clone(),
                        action: Action::Push,
                        item_type: element.clone(),
                    },
                );
            },
        }
        proof {
            let group = groups[i as int];
            assert(groups.take(i + 1) =~= groups.take(i as int).push(group));
            groups.take(i as int).lemma_flatten_push(group);
        }
        i += 1;
    }
    assert(groups.take(descriptors.len() as int) =~= groups);
    methods
}

/// The finalizer synthesizer.
pub fn create_builder_build(record: &String, descriptors: &Vec<FieldDescriptor>) -> (steps: Vec<
    BuildStep,
>)
    ensures
        views(steps@) == build_steps(record@, views(descriptors@)),
{
    let mut steps: Vec<BuildStep> = Vec::new();
    let mut i: usize = 0;
    while i < descriptors.len()
        invariant
            i <= descriptors.len(),
            steps@.len() == i,
            forall|j: int|
                0 <= j < i ==> (#[trigger] steps@[j])@ == build_step(record@, descriptors@[j]@),
        decreases descriptors.len() - i,
    {
        let d = &descriptors[i];
        let extraction = match &d.classification {
            Classification::Required => {
                let prefix = joined(record, " Value not set for field: ");
                Extraction::Require { message: joined(&prefix, d.name.as_str()) }
            },
            Classification::Optional(_) => Extraction::Take,
            Classification::Repeatable(_) => Extraction::Drain,
        };
        steps.push(BuildStep { field: d.name.clone(), extraction });
        i += 1;
    }
    steps
}

/// Runs the four synthesizers and assembles what they emit.
pub fn synthesize(vis: &String, record: &String, descriptors: &Vec<FieldDescriptor>) -> (e:
    Expansion)
    ensures
        e@ == synthesized(vis@, record@, views(descriptors@)),
{
    Expansion {
        vis: vis.clone(),
        record: record.clone(),
        builder: joined(record, "Builder"),
        slots: create_builder_fields(descriptors),
        inits: create_builder_init(descriptors),
        accessors: create_builder_setters(descriptors),
        steps: create_builder_build(record, descriptors),
    }
}

} // verus!
