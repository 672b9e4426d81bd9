//! What holds of every builder that follows a plan, whatever the plan and
//! whatever the calls.

use vstd::prelude::*;
use crate::plan::{AccessorStyle, AssemblyStep, DefaultValue, PlannedModel};
use crate::runtime::{
    assemble, assembled_value, cell_after, cells_after_call, default_cell, default_cells,
    first_missing, holds_value, is_missing, lemma_accessor_index, lemma_first_missing, target_of,
    BuildErrorModel, FieldValueModel, StoredModel,
};

verus! {


/// One call of an accessor: the name of the method and its argument.
pub struct CallModel<V> {
    pub method: Seq<char>,
    pub value: V,
}

/// The storage of a new builder after the first `n` of the calls.
pub open spec fn cells_after_calls<V>(
    fields: Seq<PlannedModel>,
    calls: Seq<CallModel<V>>,
    n: int,
) -> Seq<StoredModel<V>>
    decreases n,
{
    if n <= 0 {
        default_cells(fields)
    } else {
        cells_after_call(
            fields,
            cells_after_calls(fields, calls, n - 1),
            calls[n - 1].method,
            calls[n - 1].value,
        )
    }
}

/// The arguments of those among the first `n` calls that reach the field at
/// `i`, in the order of the calls.
pub open spec fn values_given<V>(
    fields: Seq<PlannedModel>,
    calls: Seq<CallModel<V>>,
    i: int,
    n: int,
) -> Seq<V>
    decreases n,
{
    if n <= 0 {
        Seq::empty()
    } else {
        let before = values_given(fields, calls, i, n - 1);
        if target_of(fields, calls[n - 1].method) == Some(i) {
            before.push(calls[n - 1].value)
        } else {
            before
        }
    }
}

/// The storage of a field of which the accessor was called with the values
/// `given`, in that order, since the builder was made.
pub open spec fn cell_of_history<V>(f: PlannedModel, given: Seq<V>) -> StoredModel<V> {
    if f.slot is Repeated {
        StoredModel::Many(Some(given))
    } else if given.len() == 0 {
        StoredModel::Single(None)
    } else {
        StoredModel::Single(Some(given.last()))
    }
}

/// The storage of each field depends on the calls of its own accessor alone:
/// it is what `cell_of_history` makes of their arguments.
pub proof fn lemma_cells_follow_history<V>(
    fields: Seq<PlannedModel>,
    calls: Seq<CallModel<V>>,
    n: int,
)
    requires
        0 <= n <= calls.len(),
    ensures
        cells_after_calls(fields, calls, n).len() == fields.len(),
        forall|i: int|
            0 <= i < fields.len() ==> #[trigger] cells_after_calls(fields, calls, n)[i]
                == cell_of_history(fields[i], values_given(fields, calls, i, n)),
    decreases n,
{
    if n > 0 {
        lemma_cells_follow_history(fields, calls, n - 1);
        let before = cells_after_calls(fields, calls, n - 1);
        let call = calls[n - 1];
        lemma_accessor_index(fields, call.method, fields.len() as int);
        match target_of(fields, call.method) {
            Some(t) => {
                let given = values_given(fields, calls, t, n - 1);
                assert(before[t] == cell_of_history(fields[t], given));
                assert(given.push(call.value).last() == call.value);
            },
            None => {},
        }
    }
}

/// Whether assembly fails, and at which field, depends only on which fields
/// fail: two storages that agree on that agree on the first failing field.
pub proof fn lemma_first_missing_agrees<V>(
    fields: Seq<PlannedModel>,
    a: Seq<StoredModel<V>>,
    b: Seq<StoredModel<V>>,
    n: int,
)
    requires
        forall|j: int|
            0 <= j < n ==> is_missing(#[trigger] fields[j], a[j]) == is_missing(fields[j], b[j]),
    ensures
        first_missing(fields, a, n) == first_missing(fields, b, n),
    decreases n,
{
    if n > 0 {
        lemma_first_missing_agrees(fields, a, b, n - 1);
    }
}

/// The storage of a new builder after all the calls.
pub open spec fn cells_after_all<V>(
    fields: Seq<PlannedModel>,
    calls: Seq<CallModel<V>>,
) -> Seq<StoredModel<V>> {
    cells_after_calls(fields, calls, calls.len() as int)
}

/// The arguments with which the accessor of the field at `i` was called, in the
/// order of the calls.
pub open spec fn all_values_given<V>(
    fields: Seq<PlannedModel>,
    calls: Seq<CallModel<V>>,
    i: int,
) -> Seq<V> {
    values_given(fields, calls, i, calls.len() as int)
}

/// An optional field never decides whether assembly succeeds: the outcome is
/// the same whatever is stored for the field. Where assembly succeeds, the
/// field is unset if its accessor was never called, and has the argument of
/// the last call otherwise.
pub proof fn law_optional_field<V>(
    fields: Seq<PlannedModel>,
    calls: Seq<CallModel<V>>,
    i: int,
    other: StoredModel<V>,
)
    requires
        0 <= i < fields.len(),
        fields[i].slot is Optional,
    ensures
        ({
            let cells = cells_after_all(fields, calls);
            let given = all_values_given(fields, calls, i);
            &&& assemble(fields, cells) is Ok <==> assemble(fields, cells.update(i, other)) is Ok
            &&& assemble(fields, cells) is Err ==> assemble(fields, cells.update(i, other))
                == assemble(fields, cells)
            &&& assemble(fields, cells) is Ok ==> assemble(fields, cells)->Ok_0[i]
                == FieldValueModel::Optional(
                if given.len() == 0 {
                    None
                } else {
                    Some(given.last())
                },
            )
        }),
{
    let cells = cells_after_all(fields, calls);
    lemma_cells_follow_history(fields, calls, calls.len() as int);
    lemma_first_missing_agrees(fields, cells, cells.update(i, other), fields.len() as int);
}

/// A repeated field never decides whether assembly succeeds: the outcome is
/// the same whatever is stored for the field. Where assembly succeeds, the
/// field holds the arguments of the calls of its accessor, in the order of the
/// calls, without any left out or added; so it is empty if the accessor was
/// never called.
pub proof fn law_repeated_field<V>(
    fields: Seq<PlannedModel>,
    calls: Seq<CallModel<V>>,
    i: int,
    other: StoredModel<V>,
)
    requires
        0 <= i < fields.len(),
        fields[i].slot is Repeated,
    ensures
        ({
            let cells = cells_after_all(fields, calls);
            let given = all_values_given(fields, calls, i);
            &&& assemble(fields, cells) is Ok <==> assemble(fields, cells.update(i, other)) is Ok
            &&& assemble(fields, cells) is Err ==> assemble(fields, cells.update(i, other))
                == assemble(fields, cells)
            &&& assemble(fields, cells) is Ok ==> assemble(fields, cells)->Ok_0[i]
                == FieldValueModel::Repeated(given)
            &&& assemble(fields, cells) is Ok && given.len() == 0 ==> assemble(
                fields,
                cells,
            )->Ok_0[i] == FieldValueModel::Repeated(Seq::<V>::empty())
        }),
{
    let cells = cells_after_all(fields, calls);
    lemma_cells_follow_history(fields, calls, calls.len() as int);
    lemma_first_missing_agrees(fields, cells, cells.update(i, other), fields.len() as int);
    assert(all_values_given(fields, calls, i).len() == 0 ==> all_values_given(fields, calls, i)
        =~= Seq::<V>::empty());
}

/// Whether the field at `j` is required and its accessor was never called.
pub open spec fn never_set<V>(fields: Seq<PlannedModel>, calls: Seq<CallModel<V>>, j: int) -> bool {
    fields[j].slot is Required && all_values_given(fields, calls, j).len() == 0
}

/// Assembly fails if and only if there is a required field whose accessor was
/// never called, and the error then names the first such field in declaration
/// order.
pub proof fn law_required_fields<V>(fields: Seq<PlannedModel>, calls: Seq<CallModel<V>>)
    ensures
        assemble(fields, cells_after_all(fields, calls)) is Err <==> exists|j: int|
            0 <= j < fields.len() && never_set(fields, calls, j),
        assemble(fields, cells_after_all(fields, calls)) is Err ==> exists|j: int|
            {
                &&& 0 <= j < fields.len()
                &&& never_set(fields, calls, j)
                &&& forall|k: int| 0 <= k < j ==> !never_set(fields, calls, k)
                &&& assemble(fields, cells_after_all(fields, calls)) == Err::<
                    Seq<FieldValueModel<V>>,
                    BuildErrorModel,
                >(BuildErrorModel::MissingRequiredField(fields[j].name))
            },
{
    let cells = cells_after_all(fields, calls);
    let n = fields.len() as int;
    lemma_cells_follow_history(fields, calls, calls.len() as int);
    lemma_first_missing(fields, cells, n);
    assert forall|j: int| 0 <= j < n implies is_missing(#[trigger] fields[j], cells[j])
        == never_set(fields, calls, j) by {
        assert(cells[j] == cell_of_history(fields[j], all_values_given(fields, calls, j)));
    }
    match first_missing(fields, cells, n) {
        Some(first) => {
            assert(never_set(fields, calls, first));
            assert forall|k: int| 0 <= k < first implies !never_set(fields, calls, k) by {
                assert(!is_missing(fields[k], cells[k]));
            }
        },
        None => {
            assert forall|j: int| 0 <= j < n implies !never_set(fields, calls, j) by {
                assert(!is_missing(fields[j], cells[j]));
            }
        },
    }
}

/// The value that a field has in the instance when its accessor was called
/// once, with `v`.
pub open spec fn value_supplied<V>(f: PlannedModel, v: V) -> FieldValueModel<V> {
    if f.slot is Required {
        FieldValueModel::Single(v)
    } else if f.slot is Optional {
        FieldValueModel::Optional(Some(v))
    } else {
        FieldValueModel::Repeated(seq![v])
    }
}

/// Identity: where the accessor of every field was called exactly once,
/// assembly succeeds and gives back the values supplied, field for field.
pub proof fn law_identity<V>(fields: Seq<PlannedModel>, calls: Seq<CallModel<V>>)
    requires
        forall|j: int|
            0 <= j < fields.len() ==> (#[trigger] all_values_given(fields, calls, j)).len() == 1,
    ensures
        assemble(fields, cells_after_all(fields, calls)) == Ok::<
            Seq<FieldValueModel<V>>,
            BuildErrorModel,
        >(
            Seq::new(
                fields.len(),
                |j: int| value_supplied(fields[j], all_values_given(fields, calls, j)[0]),
            ),
        ),
{
    let cells = cells_after_all(fields, calls);
    let n = fields.len() as int;
    lemma_cells_follow_history(fields, calls, calls.len() as int);
    law_required_fields(fields, calls);
    assert forall|j: int| 0 <= j < n implies !never_set(fields, calls, j) by {
        assert(all_values_given(fields, calls, j).len() == 1);
    }
    let expected = Seq::new(
        fields.len(),
        |j: int| value_supplied(fields[j], all_values_given(fields, calls, j)[0]),
    );
    let got = assemble(fields, cells)->Ok_0;
    assert forall|j: int| 0 <= j < n implies got[j] == expected[j] by {
        let given = all_values_given(fields, calls, j);
        assert(given.len() == 1);
        assert(cells[j] == cell_of_history(fields[j], given));
        assert(given =~= seq![given[0]]);
    }
    assert(got =~= expected);
}

/// The calls that hand the items, one after the other, to the method.
pub open spec fn calls_of<V>(method: Seq<char>, items: Seq<V>) -> Seq<CallModel<V>> {
    Seq::new(items.len(), |k: int| CallModel { method, value: items[k] })
}

proof fn lemma_values_of_calls<V>(
    fields: Seq<PlannedModel>,
    method: Seq<char>,
    items: Seq<V>,
    i: int,
    n: int,
)
    requires
        target_of(fields, method) == Some(i),
        0 <= n <= items.len(),
    ensures
        values_given(fields, calls_of(method, items), i, n) == items.take(n),
    decreases n,
{
    if n > 0 {
        lemma_values_of_calls(fields, method, items, i, n - 1);
        assert(items.take(n - 1).push(items[n - 1]) =~= items.take(n));
    } else {
        assert(items.take(0) =~= Seq::<V>::empty());
    }
}

/// Append order: calling the accessor of a repeated field with the items of a
/// sequence, one after the other, makes the field hold that sequence: the same
/// items in the same order, none dropped and none merged.
pub proof fn law_append_order<V>(
    fields: Seq<PlannedModel>,
    method: Seq<char>,
    items: Seq<V>,
    i: int,
)
    requires
        target_of(fields, method) == Some(i),
        fields[i].slot is Repeated,
    ensures
        cells_after_all(fields, calls_of(method, items))[i] == StoredModel::Many(Some(items)),
        assemble(fields, cells_after_all(fields, calls_of(method, items))) is Ok ==> assemble(
            fields,
            cells_after_all(fields, calls_of(method, items)),
        )->Ok_0[i] == FieldValueModel::Repeated(items),
{
    let calls = calls_of(method, items);
    lemma_accessor_index(fields, method, fields.len() as int);
    lemma_cells_follow_history(fields, calls, calls.len() as int);
    lemma_values_of_calls(fields, method, items, i, items.len() as int);
    assert(items.take(items.len() as int) =~= items);
}

/// The builder does with a field what the parts of the plan say of it: its
/// accessor has the planned name and stores or adds as the planned style says,
/// its storage begins as the planned default says, and the assembly treats it
/// as the planned step says.
pub proof fn law_builder_follows_plan<V>(f: PlannedModel, cell: StoredModel<V>, value: V)
    ensures
        f.accessor().name == f.accessor_name(),
        default_cell::<V>(f) == match f.default_value() {
            DefaultValue::Unset => StoredModel::<V>::Single(None),
            DefaultValue::EmptyCollection => StoredModel::<V>::Many(Some(Seq::empty())),
        },
        cell_after(f, cell, value) == match f.accessor().style {
            AccessorStyle::Assign => StoredModel::Single(Some(value)),
            AccessorStyle::Append => match cell {
                StoredModel::Many(Some(items)) => StoredModel::Many(Some(items.push(value))),
                other => other,
            },
        },
        is_missing(f, cell) == (f.assembly_step() == AssemblyStep::TakeOrFail && !holds_value(
            cell,
        )),
        assembled_value(f, cell) == match f.assembly_step() {
            AssemblyStep::TakeOrFail => FieldValueModel::Single(cell->Single_0->0),
            AssemblyStep::PassThrough => match cell {
                StoredModel::Single(stored) => FieldValueModel::Optional(stored),
                StoredModel::Many(_) => FieldValueModel::Optional(None),
            },
            AssemblyStep::TakeOrEmpty => match cell {
                StoredModel::Many(Some(items)) => FieldValueModel::Repeated(items),
                _ => FieldValueModel::Repeated(Seq::empty()),
            },
        },
{
}

} // verus!
