//! Deciding how the builder holds each field.

use vstd::prelude::*;
use crate::diagnostic::{
    diagnostic_at, Diagnostic, DiagnosticKind, DiagnosticKindModel, DiagnosticModel,
};
use crate::directive::{
    directive_diagnostics, field_directive, read_directives, FieldDirective, FieldDirectiveModel,
};
use crate::schema::{
    FieldDescriptor, FieldDescriptorModel, GenericArg, PathArgs, PathArgsModel, TypeExpr,
    TypeModel, TypeShape, TypeShapeModel,
};
use crate::text::text_is;

verus! {

/// How a field is stored and set on the builder. Each kind carries the type that
/// its accessor takes, as written.
#[derive(Clone, Debug, PartialEq, Eq)]
pub enum SlotKind {
    /// The field must be set before assembly.
    Required(String),
    /// The field may stay unset; its declared type is an optional wrapper
    /// around the carried type.
    Optional(String),
    /// The field is a collection of the carried item type, which starts empty
    /// and grows by one item with each call of the named accessor.
    Repeated(String, String),
}

/// The model of [`SlotKind`] that contracts speak of.
pub enum SlotModel {
    Required(Seq<char>),
    Optional(Seq<char>),
    Repeated(Seq<char>, Seq<char>),
}

impl DeepView for SlotKind {
    type V = SlotModel;

    open spec fn deep_view(&self) -> SlotModel {
        match self {
            SlotKind::Required(t) => SlotModel::Required(t@),
            SlotKind::Optional(t) => SlotModel::Optional(t@),
            SlotKind::Repeated(t, accessor) => SlotModel::Repeated(t@, accessor@),
        }
    }
}

/// The single type argument of `ty`, where `ty` is a path type whose first
/// segment is named `wrapper` and carries exactly one argument in angle
/// brackets, a type.
pub open spec fn inner_type_of(ty: TypeModel, wrapper: Seq<char>) -> Option<Seq<char>> {
    match ty.shape {
        TypeShapeModel::Path { head, args: PathArgsModel::AngleBracketed(args) } => {
            if head == wrapper && args.len() == 1 && args[0] is Type {
                Some(args[0]->Type_0)
            } else {
                None
            }
        },
        _ => None,
    }
}

/// Looks into a wrapper type: gives `T` for a type written `wrapper<T>`, and
/// nothing for any other type.
pub fn get_inner_type_of<'a>(ty: &'a TypeExpr, wrapper: &str) -> (r: Option<&'a String>)
    ensures
        r.deep_view() == inner_type_of(ty.deep_view(), wrapper@),
{
    match &ty.shape {
        TypeShape::Path { head, args } => {
            if text_is(head, wrapper) {
                match args {
                    PathArgs::AngleBracketed(list) => {
                        if list.len() == 1 {
                            match &list[0] {
                                GenericArg::Type(inner) => {
                                    return Some(inner);
                                },
                                GenericArg::Other => {},
                            }
                        }
                    },
                    _ => {},
                }
            }
        },
        TypeShape::Other => {},
    }
    None
}

/// The slot of a field with the declared type `ty` and, in `each`, the accessor
/// name that a valid directive asks for. The first rule that applies decides:
/// an optional wrapper makes the field optional; failing that, a directive
/// makes it repeated, and has no slot to give where the type is no collection;
/// failing that, the field is required.
pub open spec fn classify_slot(ty: TypeModel, each: Option<Seq<char>>) -> Option<SlotModel> {
    match inner_type_of(ty, "Option"@) {
        Some(inner) => Some(SlotModel::Optional(inner)),
        None => match each {
            Some(accessor) => match inner_type_of(ty, "Vec"@) {
                Some(item) => Some(SlotModel::Repeated(item, accessor)),
                None => None,
            },
            None => Some(SlotModel::Required(ty.text)),
        },
    }
}

/// Classifies a field by its declared type and the accessor name that a valid
/// directive asks for, if there is one. The result is `None` exactly where the
/// directive stands on a field whose type is neither optional nor a collection.
pub fn classify(ty: &TypeExpr, each: Option<&String>) -> (r: Option<SlotKind>)
    ensures
        r.deep_view() == classify_slot(ty.deep_view(), each.deep_view()),
{
    match get_inner_type_of(ty, "Option") {
        Some(inner) => Some(SlotKind::Optional(inner.clone())),
        None => match each {
            Some(accessor) => match get_inner_type_of(ty, "Vec") {
                Some(item) => Some(SlotKind::Repeated(item.clone(), accessor.clone())),
                None => None,
            },
            None => Some(SlotKind::Required(ty.text.clone())),
        },
    }
}

/// A field together with its slot. `position` counts the fields of the record
/// in declaration order, from zero.
#[derive(Clone, Debug, PartialEq, Eq)]
pub struct ClassifiedField<'a> {
    pub descriptor: &'a FieldDescriptor<'a>,
    pub slot: SlotKind,
    pub position: usize,
}

/// The model of [`ClassifiedField`] that contracts speak of.
pub struct ClassifiedModel {
    pub descriptor: FieldDescriptorModel,
    pub slot: SlotModel,
    pub position: int,
}

impl<'a> DeepView for ClassifiedField<'a> {
    type V = ClassifiedModel;

    open spec fn deep_view(&self) -> ClassifiedModel {
        ClassifiedModel {
            descriptor: self.descriptor.deep_view(),
            slot: self.slot.deep_view(),
            position: self.position as int,
        }
    }
}

/// The slot of a field, or `None` where the field gets no part in the builder:
/// a directive of it is malformed, or a valid one stands on a type that is no
/// collection.
pub open spec fn field_slot(f: FieldDescriptorModel) -> Option<SlotModel> {
    match field_directive(f.raw_directives) {
        FieldDirectiveModel::Rejected => None,
        FieldDirectiveModel::Plain => classify_slot(f.declared_type, None),
        FieldDirectiveModel::Each(accessor) => classify_slot(f.declared_type, Some(accessor)),
    }
}

/// Whether a valid directive of the field stands on a type that is neither
/// optional nor a collection.
pub open spec fn has_unsupported_shape(f: FieldDescriptorModel) -> bool {
    field_directive(f.raw_directives) is Each && field_slot(f) is None
}

/// All diagnostics of one field: those of its directives, in order, and then
/// the one about its shape, if any.
pub open spec fn field_diagnostics(f: FieldDescriptorModel) -> Seq<DiagnosticModel> {
    let of_directives = directive_diagnostics(
        f.name,
        f.raw_directives,
        f.raw_directives.len() as int,
    );
    if has_unsupported_shape(f) {
        of_directives.push(diagnostic_at(f.name, DiagnosticKindModel::UnsupportedFieldShape))
    } else {
        of_directives
    }
}

/// The field at `position` with its slot, if it has one.
pub open spec fn classified_field(f: FieldDescriptorModel, position: int) -> Option<
    ClassifiedModel,
> {
    match field_slot(f) {
        Some(slot) => Some(ClassifiedModel { descriptor: f, slot, position }),
        None => None,
    }
}

/// Reads the directives of the field at `position` and classifies it. What is
/// wrong with the field is added to `diagnostics`; the field then has no slot,
/// unless all that is wrong is a directive with an unrecognized key.
pub fn classify_field<'a>(
    descriptor: &'a FieldDescriptor<'a>,
    position: usize,
    diagnostics: &mut Vec<Diagnostic>,
) -> (r: Option<ClassifiedField<'a>>)
    ensures
        r.deep_view() == classified_field(descriptor.deep_view(), position as int),
        final(diagnostics).deep_view() == old(diagnostics).deep_view() + field_diagnostics(
            descriptor.deep_view(),
        ),
{
    let directive = read_directives(descriptor, diagnostics);
    let ghost after_directives = diagnostics.deep_view();
    let slot = match &directive {
        FieldDirective::Rejected => {
            return None;
        },
        FieldDirective::Plain => classify(descriptor.declared_type, None),
        FieldDirective::Each(accessor) => classify(descriptor.declared_type, Some(accessor)),
    };
    match slot {
        Some(slot) => Some(ClassifiedField { descriptor, slot, position }),
        None => {
            let d = Diagnostic::new(descriptor.name.as_str(), DiagnosticKind::UnsupportedFieldShape);
            diagnostics.push(d);
            assert(diagnostics.deep_view() =~= after_directives.push(d.deep_view()));
            assert(old(diagnostics).deep_view() + field_diagnostics(descriptor.deep_view())
                =~= after_directives.push(d.deep_view()));
            None
        },
    }
}

/// The classified fields among the first `n` fields, in declaration order.
pub open spec fn classified_upto(fields: Seq<FieldDescriptorModel>, n: int) -> Seq<ClassifiedModel>
    decreases n,
{
    if n <= 0 {
        Seq::empty()
    } else {
        let before = classified_upto(fields, n - 1);
        match classified_field(fields[n - 1], n - 1) {
            Some(c) => before.push(c),
            None => before,
        }
    }
}

/// The diagnostics of the first `n` fields, in declaration order.
pub open spec fn diagnostics_upto(fields: Seq<FieldDescriptorModel>, n: int) -> Seq<DiagnosticModel>
    decreases n,
{
    if n <= 0 {
        Seq::empty()
    } else {
        diagnostics_upto(fields, n - 1) + field_diagnostics(fields[n - 1])
    }
}

/// Classifies all fields in declaration order. A field that cannot be
/// classified adds its diagnostics and is left out; the fields after it are
/// classified all the same.
pub fn classify_fields<'a>(
    fields: &'a Vec<FieldDescriptor<'a>>,
    diagnostics: &mut Vec<Diagnostic>,
) -> (r: Vec<ClassifiedField<'a>>)
    ensures
        r.deep_view() == classified_upto(fields.deep_view(), fields.len() as int),
        final(diagnostics).deep_view() == old(diagnostics).deep_view() + diagnostics_upto(
            fields.deep_view(),
            fields.len() as int,
        ),
{
    let ghost start = diagnostics.deep_view();
    let mut out: Vec<ClassifiedField<'a>> = Vec::new();
    let mut i: usize = 0;
    assert(out.deep_view() =~= classified_upto(fields.deep_view(), 0));
    assert(diagnostics.deep_view() =~= start + diagnostics_upto(fields.deep_view(), 0));
    while i < fields.len()
        invariant
            i <= fields.len(),
            out.deep_view() == classified_upto(fields.deep_view(), i as int),
            diagnostics.deep_view() == start + diagnostics_upto(fields.deep_view(), i as int),
        decreases fields.len() - i,
    {
        let ghost before = out.deep_view();
        let ghost reported = diagnostics.deep_view();
        assert(fields.deep_view()[i as int] == fields[i as int].deep_view());
        match classify_field(&fields[i], i, diagnostics) {
            Some(c) => {
                out.push(c);
                assert(out.deep_view() =~= before.push(c.deep_view()));
            },
            None => {},
        }
        assert(diagnostics.deep_view() =~= start + diagnostics_upto(
            fields.deep_view(),
            i as int + 1,
        ));
        i += 1;
    }
    out
}

} // verus!
