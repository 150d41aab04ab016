//! What holds of every builder that the engine emits.
//!
//! The laws speak of an arbitrary descriptor set `ds`, of the expansion
//! synthesized from it, and of an arbitrary chain of calls made on a new
//! builder. Calls pick their method by position; `law_call_by_name` ties the
//! positions to the names by which callers reach them.

use crate::descriptor::{
    descriptors, distinct_names, extracted, extraction_outcomes, inner_type, is_option, resolved,
    resolution_outcomes, ClassificationView, ExtractedView, FieldDescriptorView,
};
use crate::error::ExpandErrorView;
use crate::expansion;
use crate::input::{DeriveInputView, FieldView, NestedMetaView};
use crate::metadata::{
    attribute_outcomes, each_key, each_name, entry_directives, field_directives, namespace,
};
use crate::plan::{AccessorView, Action, ExpansionView};
use crate::semantics::{
    accepted, after_call, after_calls, built, called, history, invoked, method_named, named,
    new_slots, step_results, targets, touched, values_of, BuildErrorView, Call,
    CallError, FieldValueView, RecordFieldView, RecordView, SlotState, Supplied,
};
use crate::seqs::{
    collect, first_true, is_first_true, items_before, lemma_collect,
    lemma_collect_err, lemma_collect_fails, lemma_collect_ok, lemma_first_true,
    lemma_first_true_at, lemma_flatten_origin,
};
use crate::synth::{accessor_groups, accessors, field_accessors, missing_message, synthesized};
use vstd::prelude::*;

verus! {

/// Whether a method belongs to the field it writes: it names that field's
/// slot, stores where the field holds one value, and appends where the field
/// accumulates.
pub open spec fn proper(ds: Seq<FieldDescriptorView>, a: AccessorView) -> bool {
    &&& 0 <= a.slot < ds.len()
    &&& a.field == ds[a.slot].name
    &&& (ds[a.slot].classification is Repeatable) == (a.action != Action::Store)
}

/// Every emitted method belongs to the field it writes.
pub proof fn lemma_accessors_proper(ds: Seq<FieldDescriptorView>, m: int)
    requires
        0 <= m < accessors(ds).len(),
    ensures
        proper(ds, accessors(ds)[m]),
{
    lemma_flatten_origin(accessor_groups(ds), m);
}

/// What a slot holds after its field was supplied with `supplied`, oldest
/// value first: a repeatable field holds everything, any other field the
/// latest value.
pub open spec fn summary<T>(d: FieldDescriptorView, supplied: Seq<T>) -> SlotState<T> {
    if d.classification is Repeatable {
        SlotState::Many(supplied)
    } else if supplied.len() == 0 {
        SlotState::Single(None)
    } else {
        SlotState::Single(Some(supplied.last()))
    }
}

/// The slots of a builder after any chain of calls: one per field, each
/// holding the summary of what the chain supplied to it.
pub proof fn law_slots_after_calls<T>(
    vis: Seq<char>,
    record: Seq<char>,
    ds: Seq<FieldDescriptorView>,
    calls: Seq<Call<T>>,
)
    ensures
        ({
            let plan = synthesized(vis, record, ds);
            let slots = after_calls(plan, new_slots::<T>(plan.inits), calls);
            &&& slots.len() == ds.len()
            &&& forall|i: int|
                0 <= i < ds.len() ==> #[trigger] slots[i] == summary(
                    ds[i],
                    history(plan, calls, i),
                )
        }),
    decreases calls.len(),
{
    let plan = synthesized(vis, record, ds);
    if calls.len() > 0 {
        let earlier = calls.drop_last();
        let call = calls.last();
        law_slots_after_calls(vis, record, ds, earlier);
        if 0 <= call.method < plan.accessors.len() {
            lemma_accessors_proper(ds, call.method);
        }
        let after = after_calls(plan, new_slots::<T>(plan.inits), calls);
        assert forall|i: int| 0 <= i < ds.len() implies #[trigger] after[i] == summary(
            ds[i],
            history(plan, calls, i),
        ) by {
            // A single value is appended by `push`, a history grows by `+`.
            if let Supplied::One(v) = call.arg {
                let h = history(plan, earlier, i);
                assert(h + seq![v] =~= h.push(v));
            }
        }
    }
}

/// The value that `build` gives a field that was supplied with `supplied`.
pub open spec fn field_value<T>(d: FieldDescriptorView, supplied: Seq<T>) -> FieldValueView<T> {
    match d.classification {
        ClassificationView::Required => FieldValueView::Plain(supplied.last()),
        ClassificationView::Optional(_) => FieldValueView::Maybe(
            if supplied.len() == 0 {
                None
            } else {
                Some(supplied.last())
            },
        ),
        ClassificationView::Repeatable(_) => FieldValueView::Many(supplied),
    }
}

/// The record that `build` assembles after a chain of calls.
pub open spec fn record_after<T>(
    plan: ExpansionView,
    record: Seq<char>,
    ds: Seq<FieldDescriptorView>,
    calls: Seq<Call<T>>,
) -> RecordView<T> {
    RecordView {
        name: record,
        fields: Seq::new(
            ds.len(),
            |i: int|
                RecordFieldView {
                    name: ds[i].name,
                    value: field_value(ds[i], history(plan, calls, i)),
                },
        ),
    }
}

/// For each field, whether it is required and no call of the chain set it.
pub open spec fn unset_required<T>(
    plan: ExpansionView,
    ds: Seq<FieldDescriptorView>,
    calls: Seq<Call<T>>,
) -> Seq<bool> {
    Seq::new(ds.len(), |i: int| ds[i].classification is Required && !touched(plan, calls, i))
}

/// A field that holds one value was supplied with something exactly when
/// some call set it.
pub proof fn lemma_supplied_iff_touched<T>(
    vis: Seq<char>,
    record: Seq<char>,
    ds: Seq<FieldDescriptorView>,
    calls: Seq<Call<T>>,
    i: int,
)
    requires
        0 <= i < ds.len(),
        !(ds[i].classification is Repeatable),
    ensures
        history(synthesized(vis, record, ds), calls, i).len() > 0 <==> touched(
            synthesized(vis, record, ds),
            calls,
            i,
        ),
    decreases calls.len(),
{
    let plan = synthesized(vis, record, ds);
    if calls.len() > 0 {
        let earlier = calls.drop_last();
        let call = calls.last();
        lemma_supplied_iff_touched(vis, record, ds, earlier, i);
        if targets(plan, call, i) {
            lemma_accessors_proper(ds, call.method);
        } else if touched(plan, calls, i) {
            // The call that set the field is one of the earlier ones.
            let k = choose|k: int| 0 <= k < calls.len() && targets(plan, #[trigger] calls[k], i);
            assert(targets(plan, earlier[k], i));
        }
    }
}

/// The outcome of `build` after any chain of calls. Where some required
/// field was never set, `build` fails and names the first such field in
/// declaration order. Otherwise it succeeds, and every field of the record
/// has the value of what the chain supplied to it.
pub proof fn law_build_outcome<T>(
    vis: Seq<char>,
    record: Seq<char>,
    ds: Seq<FieldDescriptorView>,
    calls: Seq<Call<T>>,
)
    ensures
        ({
            let plan = synthesized(vis, record, ds);
            let slots = after_calls(plan, new_slots::<T>(plan.inits), calls);
            match first_true(unset_required(plan, ds, calls)) {
                Some(i) => is_first_true(unset_required(plan, ds, calls), i) && built(plan, slots)
                    == Err::<RecordView<T>, BuildErrorView>(
                    BuildErrorView::Missing {
                        field: ds[i].name,
                        message: missing_message(record, ds[i].name),
                    },
                ),
                None => built(plan, slots) == Ok::<RecordView<T>, BuildErrorView>(
                    record_after(plan, record, ds, calls),
                ),
            }
        }),
{
    let plan = synthesized(vis, record, ds);
    let slots = after_calls(plan, new_slots::<T>(plan.inits), calls);
    let unset = unset_required(plan, ds, calls);
    let outcomes = step_results(plan.steps, slots);
    law_slots_after_calls(vis, record, ds, calls);
    lemma_first_true(unset);
    assert forall|i: int| 0 <= i < ds.len() implies (#[trigger] outcomes[i]) == (if unset[i] {
        Err::<RecordFieldView<T>, BuildErrorView>(
            BuildErrorView::Missing {
                field: ds[i].name,
                message: missing_message(record, ds[i].name),
            },
        )
    } else {
        Ok::<RecordFieldView<T>, BuildErrorView>(
            RecordFieldView {
                name: ds[i].name,
                value: field_value(ds[i], history(plan, calls, i)),
            },
        )
    }) by {
        if !(ds[i].classification is Repeatable) {
            lemma_supplied_iff_touched(vis, record, ds, calls, i);
        }
    }
    match first_true(unset) {
        Some(i) => {
            lemma_collect_err(outcomes, i);
        },
        None => {
            lemma_collect_ok(outcomes);
            assert(Seq::new(outcomes.len(), |j: int| outcomes[j]->Ok_0) =~= record_after(
                plan,
                record,
                ds,
                calls,
            ).fields);
        },
    }
}

/// For each field, whether no call of the chain set it.
pub open spec fn untouched<T>(plan: ExpansionView, count: nat, calls: Seq<Call<T>>) -> Seq<bool> {
    Seq::new(count, |i: int| !touched(plan, calls, i))
}

/// A record with only required fields builds exactly when every field was set
/// at least once. Where fields were left out, the failure names the first of
/// them in declaration order.
pub proof fn law_required_fields<T>(
    vis: Seq<char>,
    record: Seq<char>,
    ds: Seq<FieldDescriptorView>,
    calls: Seq<Call<T>>,
)
    requires
        forall|i: int| 0 <= i < ds.len() ==> (#[trigger] ds[i]).classification is Required,
    ensures
        ({
            let plan = synthesized(vis, record, ds);
            let slots = after_calls(plan, new_slots::<T>(plan.inits), calls);
            &&& built(plan, slots) is Ok <==> forall|i: int|
                0 <= i < ds.len() ==> touched(plan, calls, i)
            &&& forall|i: int|
                is_first_true(untouched(plan, ds.len(), calls), i) ==> built(plan, slots) == Err::<
                    RecordView<T>,
                    BuildErrorView,
                >(
                    BuildErrorView::Missing {
                        field: ds[i].name,
                        message: missing_message(record, ds[i].name),
                    },
                )
        }),
{
    let plan = synthesized(vis, record, ds);
    let slots = after_calls(plan, new_slots::<T>(plan.inits), calls);
    let unset = unset_required(plan, ds, calls);
    law_build_outcome(vis, record, ds, calls);
    lemma_first_true(unset);
    assert(unset =~= untouched(plan, ds.len(), calls));
    if built(plan, slots) is Ok {
        assert forall|i: int| 0 <= i < ds.len() implies touched(plan, calls, i) by {
            assert(!unset[i]);
        }
    }
    assert forall|i: int| is_first_true(untouched(plan, ds.len(), calls), i) implies built(
        plan,
        slots,
    ) == Err::<RecordView<T>, BuildErrorView>(
        BuildErrorView::Missing {
            field: ds[i].name,
            message: missing_message(record, ds[i].name),
        },
    ) by {
        lemma_first_true_at(unset, i);
    }
}

/// An optional field never keeps `build` from succeeding: success depends on
/// the required fields alone. In the record, the field is absent exactly when
/// no call set it; otherwise it holds the value set last.
pub proof fn law_optional_field<T>(
    vis: Seq<char>,
    record: Seq<char>,
    ds: Seq<FieldDescriptorView>,
    calls: Seq<Call<T>>,
    field: int,
)
    requires
        0 <= field < ds.len(),
        ds[field].classification is Optional,
    ensures
        ({
            let plan = synthesized(vis, record, ds);
            let slots = after_calls(plan, new_slots::<T>(plan.inits), calls);
            &&& built(plan, slots) is Ok <==> forall|i: int|
                0 <= i < ds.len() && ds[i].classification is Required ==> touched(plan, calls, i)
            &&& built(plan, slots) matches Ok(r) ==> {
                &&& r.fields.len() == ds.len()
                &&& r.fields[field].name == ds[field].name
                &&& r.fields[field].value matches FieldValueView::Maybe(held)
                &&& held is None <==> !touched(plan, calls, field)
                &&& held matches Some(v) ==> v == history(plan, calls, field).last()
            }
        }),
{
    let plan = synthesized(vis, record, ds);
    let slots = after_calls(plan, new_slots::<T>(plan.inits), calls);
    let unset = unset_required(plan, ds, calls);
    law_build_outcome(vis, record, ds, calls);
    lemma_first_true(unset);
    lemma_supplied_iff_touched(vis, record, ds, calls, field);
    if built(plan, slots) is Ok {
        assert forall|i: int|
            0 <= i < ds.len() && ds[i].classification is Required implies touched(
            plan,
            calls,
            i,
        ) by {
            assert(!unset[i]);
        }
    }
}

/// A repeatable field never keeps `build` from succeeding, and in the record
/// it holds everything that the chain supplied to it, single elements and
/// whole sequences alike, in call order.
pub proof fn law_repeatable_field<T>(
    vis: Seq<char>,
    record: Seq<char>,
    ds: Seq<FieldDescriptorView>,
    calls: Seq<Call<T>>,
    field: int,
)
    requires
        0 <= field < ds.len(),
        ds[field].classification is Repeatable,
    ensures
        ({
            let plan = synthesized(vis, record, ds);
            let slots = after_calls(plan, new_slots::<T>(plan.inits), calls);
            &&& slots[field] == SlotState::Many(history(plan, calls, field))
            &&& built(plan, slots) matches Ok(r) ==> {
                &&& r.fields.len() == ds.len()
                &&& r.fields[field].name == ds[field].name
                &&& r.fields[field].value == FieldValueView::Many(history(plan, calls, field))
            }
        }),
{
    law_slots_after_calls(vis, record, ds, calls);
    law_build_outcome(vis, record, ds, calls);
    let plan = synthesized(vis, record, ds);
    lemma_first_true(unset_required(plan, ds, calls));
}

/// The chain in which the method at `method` is called once with each of
/// `values`, in order.
pub open spec fn singles<T>(method: int, values: Seq<T>) -> Seq<Call<T>> {
    Seq::new(values.len(), |k: int| Call { method, arg: Supplied::One(values[k]) })
}

/// Calling the method that appends one element N times in sequence leaves
/// exactly those N elements in the field, in call order.
pub proof fn law_singular_appends<T>(
    vis: Seq<char>,
    record: Seq<char>,
    ds: Seq<FieldDescriptorView>,
    method: int,
    values: Seq<T>,
)
    requires
        0 <= method < accessors(ds).len(),
        accessors(ds)[method].action == Action::Push,
    ensures
        ({
            let plan = synthesized(vis, record, ds);
            let field = accessors(ds)[method].slot;
            let slots = after_calls(plan, new_slots::<T>(plan.inits), singles(method, values));
            &&& 0 <= field < ds.len()
            &&& ds[field].classification is Repeatable
            &&& slots[field] == SlotState::Many(values)
            &&& built(plan, slots) matches Ok(r) ==> r.fields[field].value == FieldValueView::Many(
                values,
            )
        }),
{
    lemma_accessors_proper(ds, method);
    lemma_history_of_singles(synthesized(vis, record, ds), method, values);
    law_repeatable_field(vis, record, ds, singles(method, values), accessors(ds)[method].slot);
}

/// What a chain of single-value calls of one method supplies to its slot.
proof fn lemma_history_of_singles<T>(plan: ExpansionView, method: int, values: Seq<T>)
    requires
        0 <= method < plan.accessors.len(),
        plan.accessors[method].action != Action::Extend,
    ensures
        history(plan, singles(method, values), plan.accessors[method].slot) == values,
    decreases values.len(),
{
    if values.len() > 0 {
        lemma_history_of_singles(plan, method, values.drop_last());
        assert(singles(method, values).drop_last() =~= singles(method, values.drop_last()));
    }
}

/// What one accepted call does to the slots of an emitted builder: it never
/// fails, and it writes only the slot of its method. A store replaces
/// whatever the slot held; an append adds to the end of what the slot held
/// and loses nothing.
pub proof fn law_call_effect<T>(
    vis: Seq<char>,
    record: Seq<char>,
    ds: Seq<FieldDescriptorView>,
    calls: Seq<Call<T>>,
    call: Call<T>,
)
    requires
        accepted(synthesized(vis, record, ds), call),
    ensures
        ({
            let plan = synthesized(vis, record, ds);
            let field = plan.accessors[call.method].slot;
            let before = after_calls(plan, new_slots::<T>(plan.inits), calls);
            let after = after_call(plan, before, call);
            &&& 0 <= field < ds.len()
            &&& invoked(plan.accessors[call.method], before, call.arg) == Ok::<
                Seq<SlotState<T>>,
                CallError,
            >(after)
            &&& after == after_calls(plan, new_slots::<T>(plan.inits), calls.push(call))
            &&& after.len() == before.len()
            &&& forall|i: int| 0 <= i < before.len() && i != field ==> after[i] == before[i]
            &&& match call.arg {
                Supplied::One(v) => if ds[field].classification is Repeatable {
                    before[field] matches SlotState::Many(held) && after[field] == SlotState::Many(
                        held.push(v),
                    )
                } else {
                    after[field] == SlotState::<T>::Single(Some(v))
                },
                Supplied::Many(vs) => before[field] matches SlotState::Many(held) && after[field]
                    == SlotState::Many(held + vs),
            }
        }),
{
    lemma_accessors_proper(ds, call.method);
    law_slots_after_calls(vis, record, ds, calls);
    assert(calls.push(call).drop_last() =~= calls);
}

/// Setting a field that holds one value twice keeps only the last value: the
/// chain ends as if the earlier call had never been made.
pub proof fn law_last_value_wins<T>(
    vis: Seq<char>,
    record: Seq<char>,
    ds: Seq<FieldDescriptorView>,
    calls: Seq<Call<T>>,
    method: int,
    first: T,
    last: T,
)
    requires
        0 <= method < accessors(ds).len(),
        accessors(ds)[method].action == Action::Store,
    ensures
        ({
            let plan = synthesized(vis, record, ds);
            let fresh = new_slots::<T>(plan.inits);
            let earlier = Call { method, arg: Supplied::One(first) };
            let later = Call { method, arg: Supplied::One(last) };
            after_calls(plan, fresh, calls.push(earlier).push(later)) == after_calls(
                plan,
                fresh,
                calls.push(later),
            )
        }),
{
    let earlier = Call { method, arg: Supplied::One(first) };
    let later = Call { method, arg: Supplied::One(last) };
    law_call_effect(vis, record, ds, calls, earlier);
    law_call_effect(vis, record, ds, calls.push(earlier), later);
    law_call_effect(vis, record, ds, calls, later);
}

/// The value of a field that was set by exactly one call handing over `arg`.
pub open spec fn value_set_once<T>(d: FieldDescriptorView, arg: Supplied<T>) -> FieldValueView<T> {
    match d.classification {
        ClassificationView::Required => FieldValueView::Plain(values_of(arg).last()),
        ClassificationView::Optional(_) => FieldValueView::Maybe(Some(values_of(arg).last())),
        ClassificationView::Repeatable(_) => FieldValueView::Many(values_of(arg)),
    }
}

/// What a chain supplies to a slot that exactly one of its calls targets.
proof fn lemma_history_of_one_call<T>(plan: ExpansionView, calls: Seq<Call<T>>, k: int, slot: int)
    requires
        0 <= k < calls.len(),
        targets(plan, calls[k], slot),
        forall|j: int| 0 <= j < calls.len() && j != k ==> !targets(plan, #[trigger] calls[j], slot),
    ensures
        history(plan, calls, slot) == values_of(calls[k].arg),
    decreases calls.len(),
{
    if k == calls.len() - 1 {
        lemma_history_untargeted(plan, calls.drop_last(), slot);
    } else {
        lemma_history_of_one_call(plan, calls.drop_last(), k, slot);
    }
}

/// A chain supplies nothing to a slot that none of its calls targets.
proof fn lemma_history_untargeted<T>(plan: ExpansionView, calls: Seq<Call<T>>, slot: int)
    requires
        forall|j: int| 0 <= j < calls.len() ==> !targets(plan, #[trigger] calls[j], slot),
    ensures
        history(plan, calls, slot) == Seq::<T>::empty(),
    decreases calls.len(),
{
    if calls.len() > 0 {
        lemma_history_untargeted(plan, calls.drop_last(), slot);
    }
}

/// Round trip: where every call is accepted, every field is set, and no field
/// is set twice, `build` succeeds and every field of the record holds exactly
/// what its call handed over.
pub proof fn law_round_trip<T>(
    vis: Seq<char>,
    record: Seq<char>,
    ds: Seq<FieldDescriptorView>,
    calls: Seq<Call<T>>,
)
    requires
        forall|k: int|
            0 <= k < calls.len() ==> accepted(synthesized(vis, record, ds), #[trigger] calls[k]),
        forall|i: int| 0 <= i < ds.len() ==> touched(synthesized(vis, record, ds), calls, i),
        forall|j: int, k: int|
            0 <= j < k < calls.len() ==> synthesized(vis, record, ds).accessors[(
            #[trigger] calls[j]).method].slot != synthesized(vis, record, ds).accessors[(
            #[trigger] calls[k]).method].slot,
    ensures
        ({
            let plan = synthesized(vis, record, ds);
            let slots = after_calls(plan, new_slots::<T>(plan.inits), calls);
            &&& built(plan, slots) matches Ok(r)
            &&& r.name == record
            &&& r.fields.len() == ds.len()
            &&& forall|k: int|
                0 <= k < calls.len() ==> {
                    let field = plan.accessors[(#[trigger] calls[k]).method].slot;
                    &&& 0 <= field < ds.len()
                    &&& r.fields[field].name == ds[field].name
                    &&& r.fields[field].value == value_set_once(ds[field], calls[k].arg)
                }
        }),
{
    let plan = synthesized(vis, record, ds);
    law_build_outcome(vis, record, ds, calls);
    lemma_first_true(unset_required(plan, ds, calls));
    let r = record_after(plan, record, ds, calls);
    assert forall|k: int| 0 <= k < calls.len() implies {
        let field = plan.accessors[(#[trigger] calls[k]).method].slot;
        &&& 0 <= field < ds.len()
        &&& r.fields[field].name == ds[field].name
        &&& r.fields[field].value == value_set_once(ds[field], calls[k].arg)
    } by {
        lemma_accessors_proper(ds, calls[k].method);
        lemma_history_of_one_call(plan, calls, k, plan.accessors[calls[k].method].slot);
    }
}

/// Naming: a repeatable field whose `each` name is its own name has exactly
/// one method, which appends one element. A repeatable field whose `each`
/// name differs has exactly two: the bulk method under the field's name,
/// then the single-element method under the `each` name. Every other field
/// has exactly one method, under its own name.
pub proof fn law_accessor_naming(d: FieldDescriptorView, slot: int)
    ensures
        ({
            let methods = field_accessors(d, slot);
            &&& forall|j: int| 0 <= j < methods.len() ==> (#[trigger] methods[j]).slot == slot
            &&& if d.classification is Repeatable {
                if d.accessor_name == d.name {
                    &&& methods.len() == 1
                    &&& methods[0].name == d.name
                    &&& methods[0].action == Action::Push
                } else {
                    &&& methods.len() == 2
                    &&& methods[0].name == d.name
                    &&& methods[0].action == Action::Extend
                    &&& methods[1].name == d.accessor_name
                    &&& methods[1].action == Action::Push
                    &&& methods[0].name != methods[1].name
                }
            } else {
                &&& methods.len() == 1
                &&& methods[0].name == d.name
                &&& methods[0].action == Action::Store
            }
        }),
{
}

/// No two methods bear the same name.
pub open spec fn distinct_method_names(methods: Seq<AccessorView>) -> bool {
    forall|i: int, j: int|
        0 <= i < j < methods.len() ==> (#[trigger] methods[i]).name != (#[trigger] methods[j]).name
}

/// Where no two methods bear the same name, a call by name reaches the method
/// of that name and does what a call by position does.
pub proof fn law_call_by_name<T>(
    plan: ExpansionView,
    slots: Seq<SlotState<T>>,
    method: int,
    arg: Supplied<T>,
)
    requires
        distinct_method_names(plan.accessors),
        0 <= method < plan.accessors.len(),
    ensures
        method_named(plan.accessors, plan.accessors[method].name) == Some(method),
        called(plan, slots, plan.accessors[method].name, arg) == invoked(
            plan.accessors[method],
            slots,
            arg,
        ),
{
    lemma_first_true_at(named(plan.accessors, plan.accessors[method].name), method);
}

/// Whether an entry of a `builder` list holds a key other than `each`, or a
/// value for `each` that is no string.
pub open spec fn offending(entry: NestedMetaView) -> bool {
    entry matches NestedMetaView::NameValue { key, value } && (key != each_key()
        || value is Other)
}

/// Metadata rejection: a `builder` attribute that holds a key other than
/// `each`, or a value for `each` that is no string, ends the expansion with
/// an error that names a field. Nothing is emitted, and the field is never
/// silently treated as plain.
pub proof fn law_metadata_rejection(input: DeriveInputView, field: int, attr: int, entry: int)
    requires
        input.data is Struct,
        0 <= field < input.data->Struct_0.len(),
        0 <= attr < input.data->Struct_0[field].attrs.len(),
        input.data->Struct_0[field].attrs[attr].tag == namespace(),
        input.data->Struct_0[field].attrs[attr].meta is List,
        0 <= entry < input.data->Struct_0[field].attrs[attr].meta->List_0.len(),
        offending(input.data->Struct_0[field].attrs[attr].meta->List_0[entry]),
    ensures
        expansion(input) is Err,
        expansion(input)->Err_0 is InvalidMetadata,
        exists|i: int|
            0 <= i <= field && expansion(input)->Err_0->InvalidMetadata_field == (
            #[trigger] input.data->Struct_0[i]).ident,
{
    // The failure travels outward: from the entry to its attribute, from the
    // attribute to its field, from the field to the whole record.
    let fields = input.data->Struct_0;
    let attrs = fields[field].attrs;
    lemma_collect_fails(entry_directives(attrs[attr].meta->List_0), entry);
    lemma_collect_fails(attribute_outcomes(attrs), attr);
    lemma_collect_fails(extraction_outcomes(fields), field);
}

/// The descriptor set of a record holds one descriptor per field, in
/// declaration order, under the field's name and with its declared type. The
/// shape of the type decides first: a field declared with the optional
/// wrapper is optional. Otherwise a field that carries an `each` directive is
/// repeatable and takes the directive's name for its accessor. Every other
/// field is required. Only a repeatable field renames its accessor, and where
/// no two fields share a name, no two descriptors do.
pub proof fn law_descriptor_set(fields: Seq<FieldView>)
    requires
        descriptors(fields) is Ok,
    ensures
        ({
            let ds = descriptors(fields)->Ok_0;
            &&& ds.len() == fields.len()
            &&& forall|i: int|
                0 <= i < fields.len() ==> {
                    let d = #[trigger] ds[i];
                    let named = each_name(field_directives(fields[i].attrs)->Ok_0);
                    &&& d.name == fields[i].ident
                    &&& d.declared_type == fields[i].ty.text
                    &&& d.wf()
                    &&& field_directives(fields[i].attrs) is Ok
                    &&& d.classification == if is_option(fields[i].ty) {
                        ClassificationView::Optional(inner_type(fields[i].ty)->Some_0)
                    } else if named is Some {
                        ClassificationView::Repeatable(inner_type(fields[i].ty)->Some_0)
                    } else {
                        ClassificationView::Required
                    }
                    &&& d.accessor_name == if d.classification is Repeatable {
                        named->Some_0
                    } else {
                        fields[i].ident
                    }
                    &&& !(d.classification is Required) ==> inner_type(fields[i].ty) is Some
                }
            &&& (forall|i: int, j: int|
                0 <= i < j < fields.len() ==> fields[i].ident != fields[j].ident)
                ==> distinct_names(ds)
        }),
{
    let extractions = extraction_outcomes(fields);
    lemma_collect(extractions);
    let all = collect(extractions)->Ok_0;
    lemma_collect(resolution_outcomes(all));
    let ds = descriptors(fields)->Ok_0;
    assert forall|i: int| 0 <= i < fields.len() implies {
        &&& extracted(fields[i]) == Ok::<ExtractedView, ExpandErrorView>(all[i])
        &&& resolved(all[i]) == Ok::<FieldDescriptorView, ExpandErrorView>(#[trigger] ds[i])
    } by {}
}

/// Where no name that one field gives to a method is a name that another
/// field gives to one, no two methods of the builder bear the same name.
pub proof fn law_method_names(ds: Seq<FieldDescriptorView>)
    requires
        forall|i: int, j: int|
            #![trigger ds[i], ds[j]]
            0 <= i < ds.len() && 0 <= j < ds.len() && i != j ==> ds[i].name != ds[j].name
                && ds[i].name != ds[j].accessor_name && ds[i].accessor_name
                != ds[j].accessor_name,
    ensures
        distinct_method_names(accessors(ds)),
{
    let groups = accessor_groups(ds);
    let methods = accessors(ds);
    assert forall|m: int, n: int| 0 <= m < n < methods.len() implies (#[trigger] methods[m]).name
        != (#[trigger] methods[n]).name by {
        lemma_flatten_origin(groups, m);
        lemma_flatten_origin(groups, n);
        // Two places in the list are two places in the groups: either in
        // one group, whose names differ, or in the groups of two fields.
        let (g, j) = choose|g: int, j: int|
            0 <= g < groups.len() && 0 <= j < groups[g].len() && m == items_before(groups, g) + j
                && groups.flatten()[m] == #[trigger] groups[g][j];
        let (h, k) = choose|h: int, k: int|
            0 <= h < groups.len() && 0 <= k < groups[h].len() && n == items_before(groups, h) + k
                && groups.flatten()[n] == #[trigger] groups[h][k];
        law_accessor_naming(ds[g], g);
        law_accessor_naming(ds[h], h);
    }
}

} // verus!
