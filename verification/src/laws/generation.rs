//! What holds of every pass over a schema, whatever the schema.

use vstd::prelude::*;
use crate::classify::{
    classified_field, classified_upto, diagnostics_upto, field_diagnostics, field_slot,
    has_unsupported_shape, inner_type_of, SlotModel,
};
use crate::diagnostic::{DiagnosticModel, Malformation};
use crate::directive::{
    directive_diagnostics, directive_outcome, field_directive, is_assignment, is_each_key,
    outcome_diagnostics, OutcomeModel,
};
use crate::generation_of;
use crate::ident::is_identifier_text;
use crate::plan::{planned_of, AccessorStyle, PlannedModel};
use crate::schema::{
    field_descriptors, DescriptorModel, FieldDescriptorModel, TokenKind, TokenModel,
};

verus! {

/// A directive whose key is `each` and whose value is a string that holds no
/// identifier is malformed, whatever follows the value.
pub proof fn law_value_must_be_identifier(tokens: Seq<TokenModel>, value: Seq<char>)
    requires
        tokens.len() >= 3,
        is_each_key(tokens[0]),
        is_assignment(tokens[1]),
        tokens[2].kind == TokenKind::Literal,
        tokens[2].string_value == Some(value),
        !is_identifier_text(value),
    ensures
        directive_outcome(tokens) == OutcomeModel::Malformed(Malformation::ValueNotIdentifier),
{
}

/// A directive that is not valid leaves its diagnostic among those of the
/// first `n` directives, once it is among them.
pub proof fn lemma_directive_is_reported(
    location: Seq<char>,
    raws: Seq<Seq<TokenModel>>,
    n: int,
    k: int,
)
    requires
        0 <= k < n,
        directive_outcome(raws[k]) is Unrecognized || directive_outcome(raws[k]) is Malformed,
    ensures
        directive_diagnostics(location, raws, n).contains(
            outcome_diagnostics(location, directive_outcome(raws[k]))[0],
        ),
    decreases n,
{
    let wanted = outcome_diagnostics(location, directive_outcome(raws[k]))[0];
    let before = directive_diagnostics(location, raws, n - 1);
    let last = outcome_diagnostics(location, directive_outcome(raws[n - 1]));
    if k < n - 1 {
        lemma_directive_is_reported(location, raws, n - 1, k);
        let at = choose|at: int| 0 <= at < before.len() && before[at] == wanted;
        assert((before + last)[at] == wanted);
    } else {
        assert((before + last)[before.len() as int] == wanted);
    }
}

/// A diagnostic of one field is among those of the first `n` fields, once the
/// field is among them.
pub proof fn lemma_field_is_reported(
    fields: Seq<FieldDescriptorModel>,
    n: int,
    i: int,
    d: DiagnosticModel,
)
    requires
        0 <= i < n,
        field_diagnostics(fields[i]).contains(d),
    ensures
        diagnostics_upto(fields, n).contains(d),
    decreases n,
{
    let before = diagnostics_upto(fields, n - 1);
    let last = field_diagnostics(fields[n - 1]);
    if i < n - 1 {
        lemma_field_is_reported(fields, n - 1, i, d);
        let at = choose|at: int| 0 <= at < before.len() && before[at] == d;
        assert((before + last)[at] == d);
    } else {
        let at = choose|at: int| 0 <= at < last.len() && last[at] == d;
        assert((before + last)[before.len() + at] == d);
    }
}

/// Every classified field stands for the field of the record at its position.
pub proof fn lemma_classified_origin(fields: Seq<FieldDescriptorModel>, n: int)
    ensures
        forall|p: int|
            0 <= p < classified_upto(fields, n).len() ==> {
                let c = #[trigger] classified_upto(fields, n)[p];
                &&& 0 <= c.position < n
                &&& classified_field(fields[c.position], c.position) == Some(c)
            },
    decreases n,
{
    if n > 0 {
        lemma_classified_origin(fields, n - 1);
    }
}

/// A field with a directive that is not valid, be it an `each` directive that
/// is malformed or a directive with another key, has the diagnostic of that
/// directive among those of the pass, at the field's name, and has no accessor
/// in the plan that adds items.
pub proof fn law_invalid_directive(d: DescriptorModel, i: int, k: int)
    requires
        field_descriptors(d) is Ok,
        0 <= i < field_descriptors(d)->Ok_0.len(),
        0 <= k < field_descriptors(d)->Ok_0[i].raw_directives.len(),
        ({
            let outcome = directive_outcome(field_descriptors(d)->Ok_0[i].raw_directives[k]);
            outcome is Unrecognized || outcome is Malformed
        }),
    ensures
        ({
            let field = field_descriptors(d)->Ok_0[i];
            let reported = outcome_diagnostics(
                field.name,
                directive_outcome(field.raw_directives[k]),
            )[0];
            let generation = generation_of(d);
            &&& reported.location == field.name
            &&& generation.diagnostics.contains(reported)
            &&& generation.plan is Some
            &&& forall|p: int|
                0 <= p < generation.plan->0.fields.len() && (
                #[trigger] generation.plan->0.fields[p]).position == i ==> {
                    &&& !(generation.plan->0.fields[p].slot is Repeated)
                    &&& generation.plan->0.fields[p].accessor().style == AccessorStyle::Assign
                }
        }),
{
    let fields = field_descriptors(d)->Ok_0;
    let n = fields.len() as int;
    let field = fields[i];
    let raws = field.raw_directives;
    let reported = outcome_diagnostics(field.name, directive_outcome(raws[k]))[0];
    lemma_directive_is_reported(field.name, raws, raws.len() as int, k);
    let of_directives = directive_diagnostics(field.name, raws, raws.len() as int);
    let at = choose|at: int| 0 <= at < of_directives.len() && of_directives[at] == reported;
    assert(field_diagnostics(field)[at] == reported);
    lemma_field_is_reported(fields, n, i, reported);
    lemma_classified_origin(fields, n);
    let classified = classified_upto(fields, n);
    let plan = generation_of(d).plan->0;
    assert forall|p: int| 0 <= p < plan.fields.len() && (#[trigger] plan.fields[p]).position
        == i implies !(plan.fields[p].slot is Repeated) && plan.fields[p].accessor().style
        == AccessorStyle::Assign by {
        let c = classified[p];
        assert(plan.fields[p] == planned_of(c));
        assert(classified_field(fields[i], i) == Some(c));
        assert(!(field_directive(raws) is Each));
    }
}

/// The classified fields stand in the order of their positions.
pub proof fn lemma_classified_ordered(fields: Seq<FieldDescriptorModel>, n: int)
    ensures
        forall|p: int, q: int|
            0 <= p < q < classified_upto(fields, n).len() ==> (#[trigger] classified_upto(
                fields,
                n,
            )[p]).position < (#[trigger] classified_upto(fields, n)[q]).position,
    decreases n,
{
    if n > 0 {
        lemma_classified_ordered(fields, n - 1);
        lemma_classified_origin(fields, n - 1);
    }
}

/// The plan keeps the declaration order: its fields stand in the order of
/// their positions in the record, and each has the name of the field at its
/// position.
pub proof fn law_plan_keeps_declaration_order(d: DescriptorModel)
    requires
        field_descriptors(d) is Ok,
    ensures
        generation_of(d).plan is Some,
        forall|p: int, q: int|
            0 <= p < q < generation_of(d).plan->0.fields.len() ==> (
            #[trigger] generation_of(d).plan->0.fields[p]).position < (#[trigger] generation_of(
                d,
            ).plan->0.fields[q]).position,
        forall|p: int|
            0 <= p < generation_of(d).plan->0.fields.len() ==> {
                let planned = #[trigger] generation_of(d).plan->0.fields[p];
                &&& 0 <= planned.position < field_descriptors(d)->Ok_0.len()
                &&& planned.name == field_descriptors(d)->Ok_0[planned.position].name
            },
{
    let fields = field_descriptors(d)->Ok_0;
    let n = fields.len() as int;
    let classified = classified_upto(fields, n);
    let plan = generation_of(d).plan->0;
    lemma_classified_ordered(fields, n);
    lemma_classified_origin(fields, n);
    assert forall|p: int, q: int| 0 <= p < q < plan.fields.len() implies (
    #[trigger] plan.fields[p]).position < (#[trigger] plan.fields[q]).position by {
        assert(plan.fields[p] == planned_of(classified[p]));
        assert(plan.fields[q] == planned_of(classified[q]));
    }
    assert forall|p: int| 0 <= p < plan.fields.len() implies {
        let planned = #[trigger] plan.fields[p];
        &&& 0 <= planned.position < n
        &&& planned.name == fields[planned.position].name
    } by {
        assert(plan.fields[p] == planned_of(classified[p]));
    }
}

/// A field with a slot is among the classified fields of the first `n`, once it
/// is among them.
pub proof fn lemma_slotted_is_classified(fields: Seq<FieldDescriptorModel>, n: int, i: int)
    requires
        0 <= i < n,
        field_slot(fields[i]) is Some,
    ensures
        classified_upto(fields, n).contains(classified_field(fields[i], i)->0),
    decreases n,
{
    let wanted = classified_field(fields[i], i)->0;
    let before = classified_upto(fields, n - 1);
    if i < n - 1 {
        lemma_slotted_is_classified(fields, n - 1, i);
        let at = choose|at: int| 0 <= at < before.len() && before[at] == wanted;
        assert(classified_upto(fields, n)[at] == wanted);
    } else {
        assert(classified_upto(fields, n)[before.len() as int] == wanted);
    }
}

/// Every field with a slot is in the plan, with its position in the record,
/// its name, its declared type and its slot.
pub proof fn law_slotted_field_is_planned(d: DescriptorModel, i: int)
    requires
        field_descriptors(d) is Ok,
        0 <= i < field_descriptors(d)->Ok_0.len(),
        field_slot(field_descriptors(d)->Ok_0[i]) is Some,
    ensures
        generation_of(d).plan is Some,
        generation_of(d).plan->0.fields.contains(
            PlannedModel {
                position: i,
                name: field_descriptors(d)->Ok_0[i].name,
                declared_type: field_descriptors(d)->Ok_0[i].declared_type.text,
                slot: field_slot(field_descriptors(d)->Ok_0[i])->0,
            },
        ),
{
    let fields = field_descriptors(d)->Ok_0;
    let n = fields.len() as int;
    let classified = classified_upto(fields, n);
    let wanted = classified_field(fields[i], i)->0;
    lemma_slotted_is_classified(fields, n, i);
    let at = choose|at: int| 0 <= at < classified.len() && classified[at] == wanted;
    assert(generation_of(d).plan->0.fields[at] == planned_of(wanted));
}

/// A field without directives always has a slot and no diagnostic: it is
/// optional where its declared type is an optional wrapper, and required
/// otherwise.
pub proof fn law_plain_field_has_a_slot(f: FieldDescriptorModel)
    requires
        f.raw_directives.len() == 0,
    ensures
        field_diagnostics(f).len() == 0,
        field_slot(f) == Some(
            match inner_type_of(f.declared_type, "Option"@) {
                Some(inner) => SlotModel::Optional(inner),
                None => SlotModel::Required(f.declared_type.text),
            },
        ),
{
}

/// A field is left out of the plan only with a diagnostic that says why: one
/// of its directives is malformed, or a valid one stands on a type that is no
/// collection.
pub proof fn law_left_out_is_reported(f: FieldDescriptorModel)
    requires
        field_slot(f) is None,
    ensures
        exists|m: int|
            0 <= m < field_diagnostics(f).len() && ((#[trigger] field_diagnostics(f)[m]).kind
                is MalformedDirective || field_diagnostics(f)[m].kind is UnsupportedFieldShape),
{
    let raws = f.raw_directives;
    let of_directives = directive_diagnostics(f.name, raws, raws.len() as int);
    if field_directive(raws) is Rejected {
        let k = choose|k: int|
            0 <= k < raws.len() && #[trigger] directive_outcome(raws[k]) is Malformed;
        lemma_directive_is_reported(f.name, raws, raws.len() as int, k);
        let wanted = outcome_diagnostics(f.name, directive_outcome(raws[k]))[0];
        let at = choose|at: int| 0 <= at < of_directives.len() && of_directives[at] == wanted;
        assert(field_diagnostics(f)[at] == wanted);
    } else {
        assert(has_unsupported_shape(f));
        assert(field_diagnostics(f)[of_directives.len() as int].kind is UnsupportedFieldShape);
    }
}

} // verus!
