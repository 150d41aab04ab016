//! The emitted builder, executed on values: a constructor, calls of its
//! methods by name, and `build`.

use crate::plan::{Accessor, Action, EmptyValue, Expansion, Extraction};
use crate::semantics::{
    all_emptied, built, called, emptied, empty_slot, method_named, named, new_builder, new_slots,
    step_results, written, BuildErrorView, BuilderView, CallError, FieldValueView,
    RecordFieldView, RecordView, SlotState, Supplied,
};
use crate::seqs::{
    first_true, lemma_collect_err, lemma_collect_ok, lemma_first_true,
    lemma_first_true_at, views,
};
use crate::text::text_is;
use vstd::pervasive::unreached;
use vstd::prelude::*;

verus! {

/// A storage slot of a builder.
#[derive(Debug, PartialEq, Eq)]
pub enum Slot<T> {
    Single(Option<T>),
    Many(Vec<T>),
}

impl<T> View for Slot<T> {
    type V = SlotState<T>;

    open spec fn view(&self) -> SlotState<T> {
        match self {
            Slot::Single(held) => SlotState::Single(*held),
            Slot::Many(held) => SlotState::Many(held@),
        }
    }
}

/// The value of one field of a built record.
#[derive(Debug, PartialEq, Eq)]
pub enum FieldValue<T> {
    /// The value of a required field.
    Plain(T),
    /// The value of an optional field.
    Maybe(Option<T>),
    /// The elements of a repeatable field, in the order they were appended.
    Many(Vec<T>),
}

impl<T> View for FieldValue<T> {
    type V = FieldValueView<T>;

    open spec fn view(&self) -> FieldValueView<T> {
        match self {
            FieldValue::Plain(v) => FieldValueView::Plain(*v),
            FieldValue::Maybe(v) => FieldValueView::Maybe(*v),
            FieldValue::Many(vs) => FieldValueView::Many(vs@),
        }
    }
}

/// One field of a built record.
#[derive(Debug, PartialEq, Eq)]
pub struct RecordField<T> {
    pub name: String,
    pub value: FieldValue<T>,
}

impl<T> View for RecordField<T> {
    type V = RecordFieldView<T>;

    open spec fn view(&self) -> RecordFieldView<T> {
        RecordFieldView { name: self.name@, value: self.value@ }
    }
}

/// A built record: its type's name and its fields in declaration order.
#[derive(Debug, PartialEq, Eq)]
pub struct Record<T> {
    pub name: String,
    pub fields: Vec<RecordField<T>>,
}

impl<T> View for Record<T> {
    type V = RecordView<T>;

    open spec fn view(&self) -> RecordView<T> {
        RecordView { name: self.name@, fields: views(self.fields@) }
    }
}

/// Why `build` returned no record.
#[derive(Clone, Debug, PartialEq, Eq)]
pub enum BuildError {
    /// A required field was never set.
    Missing { field: String, message: String },
    /// A slot is missing or of the wrong kind: the expansion was not emitted
    /// by the engine.
    BrokenExpansion,
}

impl View for BuildError {
    type V = BuildErrorView;

    open spec fn view(&self) -> BuildErrorView {
        match self {
            BuildError::Missing { field, message } => BuildErrorView::Missing {
                field: field@,
                message: message@,
            },
            BuildError::BrokenExpansion => BuildErrorView::BrokenExpansion,
        }
    }
}

/// A builder in the making: the slots of one expansion, filled by calls.
pub struct Builder<'a, T> {
    plan: &'a Expansion,
    slots: Vec<Slot<T>>,
}

impl<'a, T> View for Builder<'a, T> {
    type V = BuilderView<T>;

    closed spec fn view(&self) -> BuilderView<T> {
        BuilderView { plan: self.plan@, slots: views(self.slots@) }
    }
}

/// The position of the first method of the given name.
pub fn find_method(accessors: &Vec<Accessor>, name: &str) -> (found: Option<usize>)
    ensures
        match found {
            Some(m) => method_named(views(accessors@), name@) == Some(m as int),
            None => method_named(views(accessors@), name@) is None,
        },
{
    let ghost flags = named(views(accessors@), name@);
    let mut i: usize = 0;
    while i < accessors.len()
        invariant
            i <= accessors.len(),
            flags == named(views(accessors@), name@),
            forall|j: int| 0 <= j < i ==> !flags[j],
        decreases accessors.len() - i,
    {
        if text_is(&accessors[i].name, name) {
            proof {
                lemma_first_true_at(flags, i as int);
            }
            return Some(i);
        }
        i += 1;
    }
    proof {
        lemma_first_true(flags);
    }
    None
}

impl<'a, T> Builder<'a, T> {
    /// The constructor: a builder with every slot at its empty value.
    pub fn new(plan: &'a Expansion) -> (b: Self)
        ensures
            b@ == new_builder::<T>(plan@),
    {
        let mut slots: Vec<Slot<T>> = Vec::new();
        let mut i: usize = 0;
        while i < plan.inits.len()
            invariant
                i <= plan.inits.len(),
                slots@.len() == i,
                forall|j: int|
                    0 <= j < i ==> (#[trigger] slots@[j])@ == empty_slot::<T>(
                        plan.inits@[j].value,
                    ),
            decreases plan.inits.len() - i,
        {
            match plan.inits[i].value {
                EmptyValue::Absent => {
                    slots.push(Slot::Single(None));
                },
                EmptyValue::EmptySequence => {
                    slots.push(Slot::Many(Vec::new()));
                },
            }
            i += 1;
        }
        assert(views(slots@) =~= new_slots::<T>(plan@.inits));
        Builder { plan, slots }
    }

    /// Calls the method of the given name with one value. Where the call
    /// succeeds it hands the builder back, so that calls can be chained.
    pub fn set(&mut self, method: &str, value: T) -> (r: Result<&mut Self, CallError>)
        ensures
            match r {
                Ok(next) => called(
                    old(self)@.plan,
                    old(self)@.slots,
                    method@,
                    Supplied::One(value),
                ) == Ok::<Seq<SlotState<T>>, CallError>(next@.slots) && next@.plan == old(
                    self,
                )@.plan && *final(self) == *final(next),
                Err(e) => called(old(self)@.plan, old(self)@.slots, method@, Supplied::One(value))
                    == Err::<Seq<SlotState<T>>, CallError>(e) && final(self)@ == old(self)@,
            },
    {
        let plan = self.plan;
        let m = match find_method(&plan.accessors, method) {
            Some(m) => m,
            None => {
                return Err(CallError::UnknownMethod);
            },
        };
        let accessor = &plan.accessors[m];
        match accessor.action {
            Action::Extend => {
                return Err(CallError::WrongArgument);
            },
            _ => {},
        }
        let slot = accessor.slot;
        if slot >= self.slots.len() {
            return Err(CallError::BrokenExpansion);
        }
        let applies = match (accessor.action, &self.slots[slot]) {
            (Action::Store, Slot::Single(_)) => true,
            (Action::Push, Slot::Many(_)) => true,
            _ => false,
        };
        if !applies {
            return Err(CallError::BrokenExpansion);
        }
        let ghost before = views(self.slots@);
        match &mut self.slots[slot] {
            Slot::Single(held) => {
                *held = Some(value);
            },
            Slot::Many(held) => {
                held.push(value);
            },
        }
        assert(views(self.slots@) =~= before.update(
            slot as int,
            written(accessor@.action, before[slot as int], Supplied::One(value))->Some_0,
        ));
        Ok(self)
    }

    /// Calls the method of the given name with a whole sequence, which is
    /// left empty where the call succeeds. A successful call hands the
    /// builder back, so that calls can be chained.
    pub fn extend(&mut self, method: &str, values: &mut Vec<T>) -> (r: Result<
        &mut Self,
        CallError,
    >)
        ensures
            match r {
                Ok(next) => called(
                    old(self)@.plan,
                    old(self)@.slots,
                    method@,
                    Supplied::Many(old(values)@),
                ) == Ok::<Seq<SlotState<T>>, CallError>(next@.slots) && next@.plan == old(
                    self,
                )@.plan && *final(self) == *final(next) && final(values)@ == Seq::<T>::empty(),
                Err(e) => called(
                    old(self)@.plan,
                    old(self)@.slots,
                    method@,
                    Supplied::Many(old(values)@),
                ) == Err::<Seq<SlotState<T>>, CallError>(e) && final(self)@ == old(self)@
                    && final(values)@ == old(values)@,
            },
    {
        let plan = self.plan;
        let m = match find_method(&plan.accessors, method) {
            Some(m) => m,
            None => {
                return Err(CallError::UnknownMethod);
            },
        };
        let accessor = &plan.accessors[m];
        match accessor.action {
            Action::Extend => {},
            _ => {
                return Err(CallError::WrongArgument);
            },
        }
        let slot = accessor.slot;
        if slot >= self.slots.len() {
            return Err(CallError::BrokenExpansion);
        }
        let applies = match &self.slots[slot] {
            Slot::Many(_) => true,
            Slot::Single(_) => false,
        };
        if !applies {
            return Err(CallError::BrokenExpansion);
        }
        let ghost before = views(self.slots@);
        match &mut self.slots[slot] {
            Slot::Many(held) => {
                held.append(values);
            },
            Slot::Single(_) => {},
        }
        assert(views(self.slots@) =~= before.update(
            slot as int,
            written(
                accessor@.action,
                before[slot as int],
                Supplied::Many(old(values)@),
            )->Some_0,
        ));
        Ok(self)
    }

    /// Validates every slot and assembles the record. Where it succeeds the
    /// values have moved into the record and the builder is empty again;
    /// where it fails the builder is as it was.
    pub fn build(&mut self) -> (r: Result<Record<T>, BuildError>)
        ensures
            final(self)@.plan == old(self)@.plan,
            match r {
                Ok(record) => built(old(self)@.plan, old(self)@.slots) == Ok::<
                    RecordView<T>,
                    BuildErrorView,
                >(record@) && final(self)@.slots == all_emptied(old(self)@.slots),
                Err(e) => built(old(self)@.plan, old(self)@.slots) == Err::<
                    RecordView<T>,
                    BuildErrorView,
                >(e@) && final(self)@ == old(self)@,
            },
    {
        let plan = self.plan;
        let count = plan.steps.len();
        if self.slots.len() != count {
            return Err(BuildError::BrokenExpansion);
        }
        let ghost before = views(self.slots@);
        let ghost outcomes = step_results(views(plan.steps@), before);
        let mut i: usize = 0;
        while i < count
            invariant
                i <= count,
                count == plan.steps.len(),
                count == self.slots.len(),
                plan == self.plan,
                before == views(self.slots@),
                outcomes == step_results(views(plan.steps@), before),
                forall|j: int| 0 <= j < i ==> (#[trigger] outcomes[j]) is Ok,
            decreases count - i,
        {
            let step = &plan.steps[i];
            match (&step.extraction, &self.slots[i]) {
                (Extraction::Require { message }, Slot::Single(None)) => {
                    let e = BuildError::Missing {
                        field: step.field.clone(),
                        message: message.clone(),
                    };
                    proof {
                        lemma_collect_err(outcomes, i as int);
                    }
                    return Err(e);
                },
                (Extraction::Require { .. }, Slot::Single(Some(_))) => {},
                (Extraction::Take, Slot::Single(_)) => {},
                (Extraction::Drain, Slot::Many(_)) => {},
                _ => {
                    proof {
                        lemma_collect_err(outcomes, i as int);
                    }
                    return Err(BuildError::BrokenExpansion);
                },
            }
            i += 1;
        }
        let mut taken: Vec<Slot<T>> = Vec::new();
        core::mem::swap(&mut taken, &mut self.slots);
        let mut fields: Vec<RecordField<T>> = Vec::new();
        for slot in it: taken
            invariant
                it.seq() == taken@,
                views(taken@) == before,
                plan == self.plan,
                count == plan.steps.len(),
                count == taken@.len(),
                outcomes == step_results(views(plan.steps@), before),
                forall|j: int| 0 <= j < count ==> (#[trigger] outcomes[j]) is Ok,
                fields@.len() == it.index(),
                self.slots@.len() == it.index(),
                forall|j: int|
                    0 <= j < it.index() ==> outcomes[j] == Ok::<RecordFieldView<T>, BuildErrorView>(
                        (#[trigger] fields@[j])@,
                    ),
                forall|j: int|
                    0 <= j < it.index() ==> (#[trigger] self.slots@[j])@ == emptied(
                        before[j],
                    ),
        {
            let ghost at = it.index();
            assert(outcomes[at] is Ok);
            let k = fields.len();
            let step = &plan.steps[k];
            match (&step.extraction, slot) {
                (Extraction::Require { .. }, Slot::Single(Some(v))) => {
                    fields.push(RecordField { name: step.field.clone(), value: FieldValue::Plain(v) });
                    self.slots.push(Slot::Single(None));
                },
                (Extraction::Take, Slot::Single(held)) => {
                    fields.push(
                        RecordField { name: step.field.clone(), value: FieldValue::Maybe(held) },
                    );
                    self.slots.push(Slot::Single(None));
                },
                (Extraction::Drain, Slot::Many(held)) => {
                    fields.push(
                        RecordField { name: step.field.clone(), value: FieldValue::Many(held) },
                    );
                    self.slots.push(Slot::Many(Vec::new()));
                },
                _ => {
                    unreached::<()>();
                },
            }
        }
        proof {
            lemma_collect_ok(outcomes);
            assert(views(fields@) =~= Seq::new(outcomes.len(), |j: int| outcomes[j]->Ok_0));
        }
        Ok(Record { name: plan.record.clone(), fields })
    }
}

impl<'a, T> Builder<'a, T> {
    /// The expansion that this builder belongs to.
    pub fn plan(&self) -> (plan: &'a Expansion)
        ensures
            plan@ == self@.plan,
    {
        self.plan
    }

    /// The slots as they stand, in declaration order.
    pub fn slots(&self) -> (slots: &Vec<Slot<T>>)
        ensures
            views(slots@) == self@.slots,
    {
        &self.slots
    }
}

/// For each field of a record, whether it bears the given name.
pub open spec fn fields_named<T>(fields: Seq<RecordFieldView<T>>, name: Seq<char>) -> Seq<bool> {
    Seq::new(fields.len(), |i: int| fields[i].name == name)
}

impl<T> Record<T> {
    /// The value of the first field of the given name.
    pub fn get(&self, name: &str) -> (value: Option<&FieldValue<T>>)
        ensures
            match value {
                Some(v) => first_true(fields_named(self@.fields, name@)) matches Some(i)
                    && v@ == self@.fields[i].value,
                None => first_true(fields_named(self@.fields, name@)) is None,
            },
    {
        let ghost flags = fields_named(self@.fields, name@);
        let mut i: usize = 0;
        while i < self.fields.len()
            invariant
                i <= self.fields.len(),
                flags == fields_named(self@.fields, name@),
                forall|j: int| 0 <= j < i ==> !flags[j],
            decreases self.fields.len() - i,
        {
            if text_is(&self.fields[i].name, name) {
                proof {
                    lemma_first_true_at(flags, i as int);
                }
                return Some(&self.fields[i].value);
            }
            i += 1;
        }
        proof {
            lemma_first_true(flags);
        }
        None
    }
}

} // verus!
