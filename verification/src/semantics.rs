//! What the emitted members mean: the state of a builder, the effect of a
//! method call on it, and the outcome of `build`.
//!
//! Values are of an arbitrary type `T`; the engine never looks into them.

use crate::plan::{
    AccessorView, Action, BuildStepView, EmptyValue, ExpansionView, ExtractionView, SlotInitView,
};
use crate::seqs::{collect, first_true};
use vstd::prelude::*;

verus! {

/// What a storage slot holds.
pub enum SlotState<T> {
    /// At most one value.
    Single(Option<T>),
    /// The elements appended so far, oldest first.
    Many(Seq<T>),
}

/// What a caller hands to a method.
pub enum Supplied<T> {
    /// One value.
    One(T),
    /// A whole sequence of values.
    Many(Seq<T>),
}

/// Why a call of a method had no effect.
#[derive(Clone, Copy, Debug, PartialEq, Eq)]
pub enum CallError {
    /// The builder has no method of that name.
    UnknownMethod,
    /// The method takes one value and was handed a sequence, or the reverse.
    WrongArgument,
    /// The method's slot does not exist or is of the wrong kind: the
    /// expansion was not emitted by the engine.
    BrokenExpansion,
}

/// The value of a field of a built record.
pub enum FieldValueView<T> {
    /// The value of a required field.
    Plain(T),
    /// The value of an optional field.
    Maybe(Option<T>),
    /// The elements of a repeatable field.
    Many(Seq<T>),
}

pub struct RecordFieldView<T> {
    pub name: Seq<char>,
    pub value: FieldValueView<T>,
}

pub struct RecordView<T> {
    pub name: Seq<char>,
    pub fields: Seq<RecordFieldView<T>>,
}

pub enum BuildErrorView {
    Missing { field: Seq<char>, message: Seq<char> },
    BrokenExpansion,
}

/// The state of a builder: the expansion it belongs to and its slots.
pub struct BuilderView<T> {
    pub plan: ExpansionView,
    pub slots: Seq<SlotState<T>>,
}

/// The slot that an initializer produces.
pub open spec fn empty_slot<T>(value: EmptyValue) -> SlotState<T> {
    match value {
        EmptyValue::Absent => SlotState::Single(None),
        EmptyValue::EmptySequence => SlotState::Many(Seq::empty()),
    }
}

/// The slots of a new builder.
pub open spec fn new_slots<T>(inits: Seq<SlotInitView>) -> Seq<SlotState<T>> {
    Seq::new(inits.len(), |i: int| empty_slot(inits[i].value))
}

/// The builder that the constructor returns.
pub open spec fn new_builder<T>(plan: ExpansionView) -> BuilderView<T> {
    BuilderView { plan, slots: new_slots(plan.inits) }
}

/// For each method, whether it bears the given name.
pub open spec fn named(accessors: Seq<AccessorView>, name: Seq<char>) -> Seq<bool> {
    Seq::new(accessors.len(), |i: int| accessors[i].name == name)
}

/// The method that a call by name reaches: the first of that name.
pub open spec fn method_named(accessors: Seq<AccessorView>, name: Seq<char>) -> Option<int> {
    first_true(named(accessors, name))
}

/// Whether the argument is of the kind that the action takes.
pub open spec fn fits<T>(action: Action, arg: Supplied<T>) -> bool {
    match action {
        Action::Store => arg is One,
        Action::Push => arg is One,
        Action::Extend => arg is Many,
    }
}

/// The slot after the action, where the action applies to a slot of this kind.
pub open spec fn written<T>(action: Action, slot: SlotState<T>, arg: Supplied<T>) -> Option<
    SlotState<T>,
> {
    match (action, slot, arg) {
        (Action::Store, SlotState::Single(_), Supplied::One(v)) => Some(
            SlotState::Single(Some(v)),
        ),
        (Action::Push, SlotState::Many(held), Supplied::One(v)) => Some(
            SlotState::Many(held.push(v)),
        ),
        (Action::Extend, SlotState::Many(held), Supplied::Many(vs)) => Some(
            SlotState::Many(held + vs),
        ),
        _ => None,
    }
}

/// The slots after one method ran on the argument. Only the method's own slot
/// changes.
pub open spec fn invoked<T>(method: AccessorView, slots: Seq<SlotState<T>>, arg: Supplied<T>) -> Result<
    Seq<SlotState<T>>,
    CallError,
> {
    if !fits(method.action, arg) {
        Err(CallError::WrongArgument)
    } else if !(0 <= method.slot < slots.len()) {
        Err(CallError::BrokenExpansion)
    } else {
        match written(method.action, slots[method.slot], arg) {
            Some(slot) => Ok(slots.update(method.slot, slot)),
            None => Err(CallError::BrokenExpansion),
        }
    }
}

/// The slots after a call by name.
pub open spec fn called<T>(
    plan: ExpansionView,
    slots: Seq<SlotState<T>>,
    name: Seq<char>,
    arg: Supplied<T>,
) -> Result<Seq<SlotState<T>>, CallError> {
    match method_named(plan.accessors, name) {
        Some(m) => invoked(plan.accessors[m], slots, arg),
        None => Err(CallError::UnknownMethod),
    }
}

/// What one step of `build` yields from its slot.
pub open spec fn step_result<T>(step: BuildStepView, slot: SlotState<T>) -> Result<
    RecordFieldView<T>,
    BuildErrorView,
> {
    match (step.extraction, slot) {
        (ExtractionView::Require { message }, SlotState::Single(Some(v))) => Ok(
            RecordFieldView { name: step.field, value: FieldValueView::Plain(v) },
        ),
        (ExtractionView::Require { message }, SlotState::Single(None)) => Err(
            BuildErrorView::Missing { field: step.field, message },
        ),
        (ExtractionView::Take, SlotState::Single(held)) => Ok(
            RecordFieldView { name: step.field, value: FieldValueView::Maybe(held) },
        ),
        (ExtractionView::Drain, SlotState::Many(held)) => Ok(
            RecordFieldView { name: step.field, value: FieldValueView::Many(held) },
        ),
        _ => Err(BuildErrorView::BrokenExpansion),
    }
}

/// What each step yields, in declaration order.
pub open spec fn step_results<T>(steps: Seq<BuildStepView>, slots: Seq<SlotState<T>>) -> Seq<
    Result<RecordFieldView<T>, BuildErrorView>,
> {
    Seq::new(steps.len(), |i: int| step_result(steps[i], slots[i]))
}

/// The outcome of `build`: the record assembled from every slot, or the
/// failure of the first step that fails.
pub open spec fn built<T>(plan: ExpansionView, slots: Seq<SlotState<T>>) -> Result<
    RecordView<T>,
    BuildErrorView,
> {
    if plan.steps.len() != slots.len() {
        Err(BuildErrorView::BrokenExpansion)
    } else {
        match collect(step_results(plan.steps, slots)) {
            Ok(fields) => Ok(RecordView { name: plan.record, fields }),
            Err(e) => Err(e),
        }
    }
}

/// A slot after its value was moved out.
pub open spec fn emptied<T>(slot: SlotState<T>) -> SlotState<T> {
    match slot {
        SlotState::Single(_) => SlotState::Single(None),
        SlotState::Many(_) => SlotState::Many(Seq::empty()),
    }
}

/// The slots of a builder after a successful `build`.
pub open spec fn all_emptied<T>(slots: Seq<SlotState<T>>) -> Seq<SlotState<T>> {
    Seq::new(slots.len(), |i: int| emptied(slots[i]))
}

/// One call of a method, picked by its position among the accessors.
pub struct Call<T> {
    pub method: int,
    pub arg: Supplied<T>,
}

/// Whether the call names a method of the expansion and hands it the kind of
/// argument that the method takes.
pub open spec fn accepted<T>(plan: ExpansionView, call: Call<T>) -> bool {
    &&& 0 <= call.method < plan.accessors.len()
    &&& fits(plan.accessors[call.method].action, call.arg)
}

/// Whether the call is accepted and its method writes the slot at `slot`.
pub open spec fn targets<T>(plan: ExpansionView, call: Call<T>, slot: int) -> bool {
    accepted(plan, call) && plan.accessors[call.method].slot == slot
}

/// The slots after one call. A call that fails changes nothing.
pub open spec fn after_call<T>(plan: ExpansionView, slots: Seq<SlotState<T>>, call: Call<T>) -> Seq<
    SlotState<T>,
> {
    if 0 <= call.method < plan.accessors.len() {
        match invoked(plan.accessors[call.method], slots, call.arg) {
            Ok(next) => next,
            Err(_) => slots,
        }
    } else {
        slots
    }
}

/// The slots after a chain of calls, made from left to right.
pub open spec fn after_calls<T>(
    plan: ExpansionView,
    slots: Seq<SlotState<T>>,
    calls: Seq<Call<T>>,
) -> Seq<SlotState<T>>
    decreases calls.len(),
{
    if calls.len() == 0 {
        slots
    } else {
        after_call(plan, after_calls(plan, slots, calls.drop_last()), calls.last())
    }
}

/// The values that a call hands over.
pub open spec fn values_of<T>(arg: Supplied<T>) -> Seq<T> {
    match arg {
        Supplied::One(v) => seq![v],
        Supplied::Many(vs) => vs,
    }
}

/// The values that a call supplies to the slot at `slot`: those it hands
/// over where it targets the slot, none otherwise.
pub open spec fn supplied_to<T>(plan: ExpansionView, call: Call<T>, slot: int) -> Seq<T> {
    if targets(plan, call, slot) {
        values_of(call.arg)
    } else {
        Seq::empty()
    }
}

/// Everything that a chain of calls supplies to the slot at `slot`, in call
/// order.
pub open spec fn history<T>(plan: ExpansionView, calls: Seq<Call<T>>, slot: int) -> Seq<T>
    decreases calls.len(),
{
    if calls.len() == 0 {
        Seq::empty()
    } else {
        history(plan, calls.drop_last(), slot) + supplied_to(plan, calls.last(), slot)
    }
}

/// Whether some call of the chain targets the slot at `slot`.
pub open spec fn touched<T>(plan: ExpansionView, calls: Seq<Call<T>>, slot: int) -> bool {
    exists|k: int| 0 <= k < calls.len() && targets(plan, #[trigger] calls[k], slot)
}

} // verus!
