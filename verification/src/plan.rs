//! The plan of a builder: what it stores for each field, how each field is set,
//! and what the assembly step does with it.

use vstd::prelude::*;
use vstd::string::StringExecFns;
use crate::classify::{ClassifiedField, ClassifiedModel, SlotKind, SlotModel};

verus! {

/// The type of the storage that the builder keeps for a field.
#[derive(Clone, Debug, PartialEq, Eq)]
pub enum StorageType {
    /// The declared type itself, which is an optional wrapper already.
    AsDeclared(String),
    /// An optional wrapper around the given type.
    Wrapped(String),
}

/// The model of [`StorageType`] that contracts speak of.
pub enum StorageModel {
    AsDeclared(Seq<char>),
    Wrapped(Seq<char>),
}

impl DeepView for StorageType {
    type V = StorageModel;

    open spec fn deep_view(&self) -> StorageModel {
        match self {
            StorageType::AsDeclared(t) => StorageModel::AsDeclared(t@),
            StorageType::Wrapped(t) => StorageModel::Wrapped(t@),
        }
    }
}

/// The value that a storage field has in a new builder.
#[derive(Clone, Copy, Debug, PartialEq, Eq, Structural)]
pub enum DefaultValue {
    /// Nothing is stored.
    Unset,
    /// An empty collection is stored.
    EmptyCollection,
}

/// What an accessor does with its argument.
#[derive(Clone, Copy, Debug, PartialEq, Eq, Structural)]
pub enum AccessorStyle {
    /// It stores the argument as the value of the field.
    Assign,
    /// It adds the argument at the end of the stored collection.
    Append,
}

/// One method of the builder. It takes one argument of type `param_type` and
/// returns the builder it was called on.
#[derive(Clone, Debug, PartialEq, Eq)]
pub struct Accessor {
    pub name: String,
    pub param_type: String,
    pub style: AccessorStyle,
}

/// The model of [`Accessor`] that contracts speak of.
pub struct AccessorModel {
    pub name: Seq<char>,
    pub param_type: Seq<char>,
    pub style: AccessorStyle,
}

impl DeepView for Accessor {
    type V = AccessorModel;

    open spec fn deep_view(&self) -> AccessorModel {
        AccessorModel { name: self.name@, param_type: self.param_type@, style: self.style }
    }
}

/// What the assembly step does with the storage of a field.
#[derive(Clone, Copy, Debug, PartialEq, Eq, Structural)]
pub enum AssemblyStep {
    /// It takes the stored value, and fails where none is stored.
    TakeOrFail,
    /// It hands on what is stored, be it a value or nothing.
    PassThrough,
    /// It takes the stored collection, and an empty one where none is stored.
    TakeOrEmpty,
}

/// One field of the builder. `position` is the place of the field in the
/// record, counted from zero.
#[derive(Clone, Debug, PartialEq, Eq)]
pub struct PlannedField {
    pub position: usize,
    pub name: String,
    /// The declared type of the field, as written.
    pub declared_type: String,
    pub slot: SlotKind,
}

/// The model of [`PlannedField`] that contracts speak of.
pub struct PlannedModel {
    pub position: int,
    pub name: Seq<char>,
    pub declared_type: Seq<char>,
    pub slot: SlotModel,
}

impl DeepView for PlannedField {
    type V = PlannedModel;

    open spec fn deep_view(&self) -> PlannedModel {
        PlannedModel {
            position: self.position as int,
            name: self.name@,
            declared_type: self.declared_type@,
            slot: self.slot.deep_view(),
        }
    }
}

impl PlannedModel {
    /// The storage of the field: the declared type itself for an optional
    /// field, so that nothing is wrapped twice, and an optional wrapper around
    /// the declared type for the others.
    pub open spec fn storage(self) -> StorageModel {
        match self.slot {
            SlotModel::Optional(_) => StorageModel::AsDeclared(self.declared_type),
            _ => StorageModel::Wrapped(self.declared_type),
        }
    }

    /// The initial storage: an empty collection for a repeated field, nothing
    /// for the others.
    pub open spec fn default_value(self) -> DefaultValue {
        match self.slot {
            SlotModel::Repeated(_, _) => DefaultValue::EmptyCollection,
            _ => DefaultValue::Unset,
        }
    }

    /// The name of the one accessor of the field: the name from the directive
    /// for a repeated field, the name of the field for the others.
    pub open spec fn accessor_name(self) -> Seq<char> {
        match self.slot {
            SlotModel::Repeated(_, accessor) => accessor,
            _ => self.name,
        }
    }

    /// The one accessor of the field.
    pub open spec fn accessor(self) -> AccessorModel {
        match self.slot {
            SlotModel::Required(t) => AccessorModel {
                name: self.name,
                param_type: t,
                style: AccessorStyle::Assign,
            },
            SlotModel::Optional(t) => AccessorModel {
                name: self.name,
                param_type: t,
                style: AccessorStyle::Assign,
            },
            SlotModel::Repeated(item, accessor) => AccessorModel {
                name: accessor,
                param_type: item,
                style: AccessorStyle::Append,
            },
        }
    }

    /// What the assembly step does with the field.
    pub open spec fn assembly_step(self) -> AssemblyStep {
        match self.slot {
            SlotModel::Required(_) => AssemblyStep::TakeOrFail,
            SlotModel::Optional(_) => AssemblyStep::PassThrough,
            SlotModel::Repeated(_, _) => AssemblyStep::TakeOrEmpty,
        }
    }
}

impl PlannedField {
    /// The type of the storage field.
    pub fn storage(&self) -> (r: StorageType)
        ensures
            r.deep_view() == self.deep_view().storage(),
    {
        match &self.slot {
            SlotKind::Optional(_) => StorageType::AsDeclared(self.declared_type.clone()),
            _ => StorageType::Wrapped(self.declared_type.clone()),
        }
    }

    /// The value of the storage field in a new builder.
    pub fn default_value(&self) -> (r: DefaultValue)
        ensures
            r == self.deep_view().default_value(),
    {
        match &self.slot {
            SlotKind::Repeated(_, _) => DefaultValue::EmptyCollection,
            _ => DefaultValue::Unset,
        }
    }

    /// The name under which the builder offers the accessor of the field.
    pub fn accessor_name(&self) -> (r: &String)
        ensures
            r@ == self.deep_view().accessor_name(),
    {
        match &self.slot {
            SlotKind::Repeated(_, accessor) => accessor,
            _ => &self.name,
        }
    }

    /// The accessor of the field.
    pub fn accessor(&self) -> (r: Accessor)
        ensures
            r.deep_view() == self.deep_view().accessor(),
    {
        match &self.slot {
            SlotKind::Required(t) => Accessor {
                name: self.name.clone(),
                param_type: t.clone(),
                style: AccessorStyle::Assign,
            },
            SlotKind::Optional(t) => Accessor {
                name: self.name.clone(),
                param_type: t.clone(),
                style: AccessorStyle::Assign,
            },
            SlotKind::Repeated(item, accessor) => Accessor {
                name: accessor.clone(),
                param_type: item.clone(),
                style: AccessorStyle::Append,
            },
        }
    }

    /// What the assembly step does with the field.
    pub fn assembly_step(&self) -> (r: AssemblyStep)
        ensures
            r == self.deep_view().assembly_step(),
    {
        match &self.slot {
            SlotKind::Required(_) => AssemblyStep::TakeOrFail,
            SlotKind::Optional(_) => AssemblyStep::PassThrough,
            SlotKind::Repeated(_, _) => AssemblyStep::TakeOrEmpty,
        }
    }
}

/// The plan of the builder of one type. The fields stand in declaration order,
/// which is the order of the builder's methods and the order in which the
/// assembly step goes through them.
#[derive(Clone, Debug, PartialEq, Eq)]
pub struct BuilderPlan {
    pub target_name: String,
    pub builder_name: String,
    pub fields: Vec<PlannedField>,
}

/// The model of [`BuilderPlan`] that contracts speak of.
pub struct PlanModel {
    pub target_name: Seq<char>,
    pub builder_name: Seq<char>,
    pub fields: Seq<PlannedModel>,
}

impl DeepView for BuilderPlan {
    type V = PlanModel;

    open spec fn deep_view(&self) -> PlanModel {
        PlanModel {
            target_name: self.target_name@,
            builder_name: self.builder_name@,
            fields: self.fields.deep_view(),
        }
    }
}

/// The planned field that a classified field becomes.
pub open spec fn planned_of(c: ClassifiedModel) -> PlannedModel {
    PlannedModel {
        position: c.position,
        name: c.descriptor.name,
        declared_type: c.descriptor.declared_type.text,
        slot: c.slot,
    }
}

/// The name of the builder of the type `target`.
pub open spec fn builder_name_of(target: Seq<char>) -> Seq<char> {
    target + "Builder"@
}

/// The plan of the builder of the type `target` with the given classified
/// fields.
pub open spec fn plan_of(target: Seq<char>, classified: Seq<ClassifiedModel>) -> PlanModel {
    PlanModel {
        target_name: target,
        builder_name: builder_name_of(target),
        fields: Seq::new(classified.len(), |i: int| planned_of(classified[i])),
    }
}

fn clone_slot(slot: &SlotKind) -> (r: SlotKind)
    ensures
        r.deep_view() == slot.deep_view(),
{
    match slot {
        SlotKind::Required(t) => SlotKind::Required(t.clone()),
        SlotKind::Optional(t) => SlotKind::Optional(t.clone()),
        SlotKind::Repeated(t, accessor) => SlotKind::Repeated(t.clone(), accessor.clone()),
    }
}

/// Plans the builder of the type `target` from its classified fields, keeping
/// their order.
pub fn synthesize(target: &str, classified: &Vec<ClassifiedField>) -> (r: BuilderPlan)
    ensures
        r.deep_view() == plan_of(target@, classified.deep_view()),
{
    let mut fields: Vec<PlannedField> = Vec::new();
    let mut i: usize = 0;
    while i < classified.len()
        invariant
            i <= classified.len(),
            fields.len() == i,
            forall|j: int|
                0 <= j < i ==> (#[trigger] fields[j]).deep_view() == planned_of(
                    classified[j].deep_view(),
                ),
        decreases classified.len() - i,
    {
        let c = &classified[i];
        fields.push(
            PlannedField {
                position: c.position,
                name: c.descriptor.name.clone(),
                declared_type: c.descriptor.declared_type.text.clone(),
                slot: clone_slot(&c.slot),
            },
        );
        i += 1;
    }
    let plan = BuilderPlan {
        target_name: String::from_str(target),
        builder_name: String::from_str(target).concat("Builder"),
        fields,
    };
    assert(plan.deep_view().fields =~= plan_of(target@, classified.deep_view()).fields);
    plan
}

} // verus!
