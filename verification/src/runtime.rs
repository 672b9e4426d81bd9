//! Running a plan: a builder that stores values as the plan says, and the
//! assembly step that turns what is stored into an instance.

use vstd::prelude::*;
use vstd::string::StringExecFns;
use crate::classify::{SlotKind, SlotModel};
use crate::plan::{BuilderPlan, PlannedField, PlannedModel};
use crate::text::text_is;

verus! {

/// The storage that a builder keeps for one field.
#[derive(Debug, PartialEq, Eq)]
pub enum Stored<V> {
    /// The storage of a required or an optional field: a value, or nothing.
    Single(Option<V>),
    /// The storage of a repeated field: a collection, or nothing.
    Many(Option<Vec<V>>),
}

/// The model of [`Stored`] that contracts speak of.
pub enum StoredModel<V> {
    Single(Option<V>),
    Many(Option<Seq<V>>),
}

impl<V> DeepView for Stored<V> {
    type V = StoredModel<V>;

    open spec fn deep_view(&self) -> StoredModel<V> {
        match self {
            Stored::Single(v) => StoredModel::Single(*v),
            Stored::Many(Some(items)) => StoredModel::Many(Some(items@)),
            Stored::Many(None) => StoredModel::Many(None),
        }
    }
}

/// The storage of a field in a new builder: an empty collection for a repeated
/// field, nothing for the others.
pub open spec fn default_cell<V>(f: PlannedModel) -> StoredModel<V> {
    match f.slot {
        SlotModel::Repeated(_, _) => StoredModel::Many(Some(Seq::empty())),
        _ => StoredModel::Single(None),
    }
}

/// The storage of a new builder.
pub open spec fn default_cells<V>(fields: Seq<PlannedModel>) -> Seq<StoredModel<V>> {
    Seq::new(fields.len(), |i: int| default_cell(fields[i]))
}

/// The first among the first `n` fields whose accessor is named `method`.
pub open spec fn accessor_index(fields: Seq<PlannedModel>, method: Seq<char>, n: int) -> Option<int>
    decreases n,
{
    if n <= 0 {
        None
    } else {
        match accessor_index(fields, method, n - 1) {
            Some(i) => Some(i),
            None => if fields[n - 1].accessor_name() == method {
                Some(n - 1)
            } else {
                None
            },
        }
    }
}

/// The field that a call of `method` reaches: the first in declaration order
/// whose accessor has that name.
pub open spec fn target_of(fields: Seq<PlannedModel>, method: Seq<char>) -> Option<int> {
    accessor_index(fields, method, fields.len() as int)
}

/// The storage of a field after a call of its accessor with `value`. The
/// accessor of a repeated field adds the value at the end of the collection,
/// and does nothing where no collection is stored. The accessor of any other
/// field stores the value in place of what was there.
pub open spec fn cell_after<V>(f: PlannedModel, cell: StoredModel<V>, value: V) -> StoredModel<V> {
    match f.slot {
        SlotModel::Repeated(_, _) => match cell {
            StoredModel::Many(Some(items)) => StoredModel::Many(Some(items.push(value))),
            other => other,
        },
        _ => StoredModel::Single(Some(value)),
    }
}

/// The storage of a builder after a call of `method` with `value`. A name that
/// is no accessor's changes nothing.
pub open spec fn cells_after_call<V>(
    fields: Seq<PlannedModel>,
    cells: Seq<StoredModel<V>>,
    method: Seq<char>,
    value: V,
) -> Seq<StoredModel<V>> {
    match target_of(fields, method) {
        Some(i) => cells.update(i, cell_after(fields[i], cells[i], value)),
        None => cells,
    }
}

/// What is known of the index that `accessor_index` gives.
pub proof fn lemma_accessor_index(fields: Seq<PlannedModel>, method: Seq<char>, n: int)
    requires
        0 <= n <= fields.len(),
    ensures
        match accessor_index(fields, method, n) {
            Some(i) => {
                &&& 0 <= i < n
                &&& fields[i].accessor_name() == method
                &&& forall|j: int| 0 <= j < i ==> (#[trigger] fields[j]).accessor_name() != method
            },
            None => forall|j: int| 0 <= j < n ==> (#[trigger] fields[j]).accessor_name() != method,
        },
    decreases n,
{
    if n > 0 {
        lemma_accessor_index(fields, method, n - 1);
    }
}

/// The value of one field of an assembled instance.
#[derive(Debug, PartialEq, Eq)]
pub enum FieldValue<V> {
    /// The value of a required field.
    Single(V),
    /// The value of an optional field, or nothing.
    Optional(Option<V>),
    /// The items of a repeated field, in the order in which they were added.
    Repeated(Vec<V>),
}

/// The model of [`FieldValue`] that contracts speak of.
pub enum FieldValueModel<V> {
    Single(V),
    Optional(Option<V>),
    Repeated(Seq<V>),
}

impl<V> DeepView for FieldValue<V> {
    type V = FieldValueModel<V>;

    open spec fn deep_view(&self) -> FieldValueModel<V> {
        match self {
            FieldValue::Single(v) => FieldValueModel::Single(*v),
            FieldValue::Optional(v) => FieldValueModel::Optional(*v),
            FieldValue::Repeated(items) => FieldValueModel::Repeated(items@),
        }
    }
}

/// An assembled instance: the values of the fields of the plan, in the plan's
/// order.
#[derive(Debug, PartialEq, Eq)]
pub struct Instance<V> {
    pub values: Vec<FieldValue<V>>,
}

impl<V> DeepView for Instance<V> {
    type V = Seq<FieldValueModel<V>>;

    open spec fn deep_view(&self) -> Seq<FieldValueModel<V>> {
        self.values.deep_view()
    }
}

/// Why an assembly failed.
#[derive(Clone, Debug, PartialEq, Eq)]
pub enum BuildError {
    /// The named required field was never set.
    MissingRequiredField(String),
}

/// The model of [`BuildError`] that contracts speak of.
pub enum BuildErrorModel {
    MissingRequiredField(Seq<char>),
}

impl DeepView for BuildError {
    type V = BuildErrorModel;

    open spec fn deep_view(&self) -> BuildErrorModel {
        match self {
            BuildError::MissingRequiredField(name) => BuildErrorModel::MissingRequiredField(name@),
        }
    }
}

impl BuildError {
    /// The error in words: the name of the field, and that it is missing.
    pub fn message(&self) -> (r: String)
        ensures
            r@ == self.deep_view()->MissingRequiredField_0 + " is missing"@,
    {
        match self {
            BuildError::MissingRequiredField(name) => name.clone().concat(" is missing"),
        }
    }
}

/// Whether the storage holds the value of a single-valued field.
pub open spec fn holds_value<V>(cell: StoredModel<V>) -> bool {
    cell matches StoredModel::Single(Some(_))
}

/// Whether the assembly step fails at this field: the field is required and
/// no value is stored for it.
pub open spec fn is_missing<V>(f: PlannedModel, cell: StoredModel<V>) -> bool {
    f.slot is Required && !holds_value(cell)
}

/// The first among the first `n` fields at which the assembly step fails.
pub open spec fn first_missing<V>(
    fields: Seq<PlannedModel>,
    cells: Seq<StoredModel<V>>,
    n: int,
) -> Option<int>
    decreases n,
{
    if n <= 0 {
        None
    } else {
        match first_missing(fields, cells, n - 1) {
            Some(i) => Some(i),
            None => if is_missing(fields[n - 1], cells[n - 1]) {
                Some(n - 1)
            } else {
                None
            },
        }
    }
}

/// What the assembly step makes of the storage of a field: the stored value of
/// a required field; what is stored for an optional field, be it a value or
/// nothing; the stored collection of a repeated field, and an empty one where
/// none is stored.
pub open spec fn assembled_value<V>(f: PlannedModel, cell: StoredModel<V>) -> FieldValueModel<V> {
    match f.slot {
        SlotModel::Required(_) => FieldValueModel::Single(cell->Single_0->0),
        SlotModel::Optional(_) => match cell {
            StoredModel::Single(stored) => FieldValueModel::Optional(stored),
            StoredModel::Many(_) => FieldValueModel::Optional(None),
        },
        SlotModel::Repeated(_, _) => match cell {
            StoredModel::Many(Some(items)) => FieldValueModel::Repeated(items),
            _ => FieldValueModel::Repeated(Seq::empty()),
        },
    }
}

/// The storage that the assembly step leaves behind where it has taken what
/// was stored.
pub open spec fn taken_cell<V>(f: PlannedModel) -> StoredModel<V> {
    match f.slot {
        SlotModel::Repeated(_, _) => StoredModel::Many(None),
        _ => StoredModel::Single(None),
    }
}

/// What an assembly gives: the name of the first required field, in
/// declaration order, for which nothing is stored, or else the values of all
/// fields.
pub open spec fn assemble<V>(fields: Seq<PlannedModel>, cells: Seq<StoredModel<V>>) -> Result<
    Seq<FieldValueModel<V>>,
    BuildErrorModel,
> {
    match first_missing(fields, cells, fields.len() as int) {
        Some(i) => Err(BuildErrorModel::MissingRequiredField(fields[i].name)),
        None => Ok(Seq::new(fields.len(), |i: int| assembled_value(fields[i], cells[i]))),
    }
}

/// The number of fields that an assembly goes through: all of them, or those
/// before the one at which it fails.
pub open spec fn fields_consumed<V>(fields: Seq<PlannedModel>, cells: Seq<StoredModel<V>>) -> int {
    match first_missing(fields, cells, fields.len() as int) {
        Some(i) => i,
        None => fields.len() as int,
    }
}

/// The storage after an assembly: taken for the fields that the assembly went
/// through, untouched for those from the failing field on.
pub open spec fn cells_after_build<V>(
    fields: Seq<PlannedModel>,
    cells: Seq<StoredModel<V>>,
) -> Seq<StoredModel<V>> {
    Seq::new(
        fields.len(),
        |i: int|
            if i < fields_consumed(fields, cells) {
                taken_cell(fields[i])
            } else {
                cells[i]
            },
    )
}

/// What a result of `build` says, over the models.
pub open spec fn build_model<V>(r: Result<Instance<V>, BuildError>) -> Result<
    Seq<FieldValueModel<V>>,
    BuildErrorModel,
> {
    match r {
        Ok(instance) => Ok(instance.deep_view()),
        Err(e) => Err(e.deep_view()),
    }
}

/// What is known of the index that `first_missing` gives.
pub proof fn lemma_first_missing<V>(fields: Seq<PlannedModel>, cells: Seq<StoredModel<V>>, n: int)
    ensures
        match first_missing(fields, cells, n) {
            Some(i) => {
                &&& 0 <= i < n
                &&& is_missing(fields[i], cells[i])
                &&& forall|j: int| 0 <= j < i ==> !is_missing(#[trigger] fields[j], cells[j])
            },
            None => forall|j: int| 0 <= j < n ==> !is_missing(#[trigger] fields[j], cells[j]),
        },
    decreases n,
{
    if n > 0 {
        lemma_first_missing(fields, cells, n - 1);
    }
}

/// Once a failing field is found among the first `n`, it stays the first among
/// any more.
pub proof fn lemma_first_missing_stays<V>(
    fields: Seq<PlannedModel>,
    cells: Seq<StoredModel<V>>,
    n: int,
    m: int,
)
    requires
        n <= m,
        first_missing(fields, cells, n) is Some,
    ensures
        first_missing(fields, cells, m) == first_missing(fields, cells, n),
    decreases m - n,
{
    if n < m {
        lemma_first_missing_stays(fields, cells, n, m - 1);
    }
}

/// One field of a builder at work: the planned field and what is stored for it.
pub struct Slot<'a, V> {
    field: &'a PlannedField,
    cell: Stored<V>,
}

/// A builder at work: for each field of its plan, in the plan's order, what it
/// has stored.
pub struct Builder<'a, V> {
    slots: Vec<Slot<'a, V>>,
}

impl<'a, V> Builder<'a, V> {
    /// The fields of the plan that the builder follows.
    pub closed spec fn fields(&self) -> Seq<PlannedModel> {
        Seq::new(self.slots.len() as nat, |i: int| self.slots[i].field.deep_view())
    }

    /// What the builder has stored, field by field.
    pub closed spec fn cells(&self) -> Seq<StoredModel<V>> {
        Seq::new(self.slots.len() as nat, |i: int| self.slots[i].cell.deep_view())
    }

    /// A builder for `plan` in its initial state.
    pub fn new(plan: &'a BuilderPlan) -> (b: Self)
        ensures
            b.fields() == plan.deep_view().fields,
            b.cells() == default_cells::<V>(plan.deep_view().fields),
    {
        let mut slots: Vec<Slot<'a, V>> = Vec::new();
        let mut i: usize = 0;
        while i < plan.fields.len()
            invariant
                i <= plan.fields.len(),
                slots.len() == i,
                forall|j: int| 0 <= j < i ==> (#[trigger] slots[j]).field == plan.fields[j],
                forall|j: int|
                    0 <= j < i ==> (#[trigger] slots[j]).cell.deep_view() == default_cell::<V>(
                        plan.fields[j].deep_view(),
                    ),
            decreases plan.fields.len() - i,
        {
            let field = &plan.fields[i];
            let cell = match &field.slot {
                SlotKind::Repeated(_, _) => Stored::Many(Some(Vec::new())),
                _ => Stored::Single(None),
            };
            slots.push(Slot { field, cell });
            i += 1;
        }
        let b = Builder { slots };
        assert(b.fields() =~= plan.deep_view().fields);
        assert(b.cells() =~= default_cells::<V>(plan.deep_view().fields));
        b
    }

    /// The position in the plan of the field that a call of `method` reaches.
    pub fn find_accessor(&self, method: &str) -> (r: Option<usize>)
        ensures
            match r {
                Some(i) => target_of(self.fields(), method@) == Some(i as int),
                None => target_of(self.fields(), method@) is None,
            },
    {
        let mut i: usize = 0;
        while i < self.slots.len()
            invariant
                i <= self.slots.len(),
                accessor_index(self.fields(), method@, i as int) is None,
            decreases self.slots.len() - i,
        {
            if text_is(self.slots[i].field.accessor_name(), method) {
                proof {
                    assert(self.fields()[i as int].accessor_name() == method@);
                    lemma_accessor_index(self.fields(), method@, i as int);
                    lemma_accessor_index(self.fields(), method@, self.fields().len() as int);
                }
                return Some(i);
            }
            i += 1;
        }
        None
    }

    /// Calls the accessor named `method` with `value`, and returns the builder
    /// itself, so that calls can follow one another. The accessor of a required
    /// or an optional field stores the value. The accessor of a repeated field
    /// adds the value at the end of the collection; where no collection is
    /// stored, which a new builder rules out, it leaves the storage as it is
    /// rather than fail. A name that is no accessor's changes nothing.
    pub fn call(&mut self, method: &str, value: V) -> (ret: &mut Self)
        ensures
            ret.fields() == old(self).fields(),
            ret.cells() == cells_after_call(old(self).fields(), old(self).cells(), method@, value),
            *final(self) == *final(ret),
    {
        let ghost fields = self.fields();
        let ghost before = self.cells();
        match self.find_accessor(method) {
            Some(i) => {
                proof {
                    lemma_accessor_index(fields, method@, fields.len() as int);
                }
                match &self.slots[i].field.slot {
                    SlotKind::Repeated(_, _) => {
                        match &mut self.slots[i].cell {
                            Stored::Many(Some(items)) => {
                                items.push(value);
                            },
                            _ => {},
                        }
                    },
                    _ => {
                        self.slots[i].cell = Stored::Single(Some(value));
                    },
                }
                assert(self.fields() =~= fields);
                assert(self.cells() =~= before.update(
                    i as int,
                    cell_after(fields[i as int], before[i as int], value),
                ));
            },
            None => {},
        }
        self
    }

    /// Assembles an instance from what is stored, going through the fields in
    /// declaration order. At a required field for which nothing is stored the
    /// assembly fails at once with the name of that field: the fields before it
    /// have given up what was stored for them, the fields from it on are not
    /// looked at. Otherwise every field gives its value, and the storage of
    /// every field is left empty.
    pub fn build(&mut self) -> (r: Result<Instance<V>, BuildError>)
        ensures
            final(self).fields() == old(self).fields(),
            build_model(r) == assemble(old(self).fields(), old(self).cells()),
            final(self).cells() == cells_after_build(old(self).fields(), old(self).cells()),
    {
        let ghost fields = self.fields();
        let ghost stored = self.cells();
        let n: usize = self.slots.len();
        let mut values: Vec<FieldValue<V>> = Vec::new();
        let mut i: usize = 0;
        assert(self.cells() =~= Seq::new(
            n as nat,
            |j: int| if j < 0 { taken_cell(fields[j]) } else { stored[j] },
        ));
        while i < n
            invariant
                i <= n,
                n == self.slots.len(),
                fields.len() == n,
                stored.len() == n,
                fields == old(self).fields(),
                stored == old(self).cells(),
                self.fields() == fields,
                first_missing(fields, stored, i as int) is None,
                values.len() == i,
                forall|j: int|
                    0 <= j < i ==> (#[trigger] values[j]).deep_view() == assembled_value(
                        fields[j],
                        stored[j],
                    ),
                self.cells() == Seq::new(
                    n as nat,
                    |j: int| if j < i { taken_cell(fields[j]) } else { stored[j] },
                ),
            decreases n - i,
        {
            let ghost cells_before = self.cells();
            let ghost slots_before = self.slots@;
            let field: &PlannedField = self.slots[i].field;
            assert(field.deep_view() == fields[i as int]);
            assert(self.slots[i as int].cell.deep_view() == cells_before[i as int]);
            match &field.slot {
                SlotKind::Required(_) => {
                    let present = match &self.slots[i].cell {
                        Stored::Single(Some(_)) => true,
                        _ => false,
                    };
                    if !present {
                        proof {
                            lemma_first_missing_stays(fields, stored, i as int + 1, n as int);
                            assert(self.cells() =~= cells_after_build(fields, stored));
                        }
                        return Err(BuildError::MissingRequiredField(field.name.clone()));
                    }
                    let mut cell: Stored<V> = Stored::Single(None);
                    core::mem::swap(&mut self.slots[i].cell, &mut cell);
                    match cell {
                        Stored::Single(Some(v)) => {
                            values.push(FieldValue::Single(v));
                        },
                        _ => {
                            assert(false);
                        },
                    }
                },
                SlotKind::Optional(_) => {
                    let mut cell: Stored<V> = Stored::Single(None);
                    core::mem::swap(&mut self.slots[i].cell, &mut cell);
                    match cell {
                        Stored::Single(stored_value) => {
                            values.push(FieldValue::Optional(stored_value));
                        },
                        Stored::Many(_) => {
                            values.push(FieldValue::Optional(None));
                        },
                    }
                },
                SlotKind::Repeated(_, _) => {
                    let mut cell: Stored<V> = Stored::Many(None);
                    core::mem::swap(&mut self.slots[i].cell, &mut cell);
                    match cell {
                        Stored::Many(Some(items)) => {
                            values.push(FieldValue::Repeated(items));
                        },
                        _ => {
                            values.push(FieldValue::Repeated(Vec::new()));
                        },
                    }
                },
            }
            assert(self.fields() =~= fields);
            assert forall|j: int| 0 <= j < n implies #[trigger] self.cells()[j] == (if j < i + 1 {
                taken_cell::<V>(fields[j])
            } else {
                stored[j]
            }) by {
                if j != i {
                    assert(self.slots[j] == slots_before[j]);
                    assert(self.cells()[j] == cells_before[j]);
                }
            }
            assert(self.cells() =~= Seq::new(
                n as nat,
                |j: int| if j < i + 1 { taken_cell(fields[j]) } else { stored[j] },
            ));
            i += 1;
        }
        let instance = Instance { values };
        assert(instance.deep_view() =~= Seq::new(
            fields.len(),
            |j: int| assembled_value(fields[j], stored[j]),
        ));
        assert(self.cells() =~= cells_after_build(fields, stored));
        Ok(instance)
    }
}

} // verus!
