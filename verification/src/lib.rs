//! A verified core for deriving builders.
//!
//! Given the schema of a flat, named-field record, the library decides for each
//! field how a companion builder stores it, which accessor the builder offers for
//! it, and how the final assembly step treats it. The result is a plan of the
//! builder, together with the diagnostics that the schema gave rise to. A small
//! interpreter runs such a plan, so that what a planned builder does can be stated
//! and proved.
//!
//! The whole pass is [`derive`]: from the descriptor of a type to the plan of
//! its builder and the diagnostics of the schema.

pub mod classify;
pub mod diagnostic;
pub mod directive;
pub mod ident;
pub mod laws;
pub mod plan;
pub mod runtime;
pub mod schema;
pub mod text;

use vstd::prelude::*;
use crate::classify::{classified_upto, classify_fields, diagnostics_upto};
use crate::diagnostic::{Diagnostic, DiagnosticModel};
use crate::plan::{plan_of, synthesize, BuilderPlan, PlanModel};
use crate::schema::{extract_fields, field_descriptors, DescriptorModel, TypeDescriptor};

verus! {

/// What one pass over a schema gives: the plan of the builder, unless the type
/// is no record with named fields, and all diagnostics, in the order of the
/// fields that they are about.
#[derive(Clone, Debug, PartialEq, Eq)]
pub struct Generation {
    pub plan: Option<BuilderPlan>,
    pub diagnostics: Vec<Diagnostic>,
}

/// The model of [`Generation`] that contracts speak of.
pub struct GenerationModel {
    pub plan: Option<PlanModel>,
    pub diagnostics: Seq<DiagnosticModel>,
}

impl DeepView for Generation {
    type V = GenerationModel;

    open spec fn deep_view(&self) -> GenerationModel {
        GenerationModel {
            plan: self.plan.deep_view(),
            diagnostics: self.diagnostics.deep_view(),
        }
    }
}

/// What the pass gives for a described type. A type that is no record with
/// named fields gets no plan and one structural diagnostic. A record gets the
/// plan over those of its fields that have a slot, and the diagnostics of all
/// its fields.
pub open spec fn generation_of(d: DescriptorModel) -> GenerationModel {
    match field_descriptors(d) {
        Err(structural) => GenerationModel { plan: None, diagnostics: seq![structural] },
        Ok(fields) => GenerationModel {
            plan: Some(plan_of(d.name, classified_upto(fields, fields.len() as int))),
            diagnostics: diagnostics_upto(fields, fields.len() as int),
        },
    }
}

/// Derives the builder of the described type. The pass never gives up on a
/// field's account: what is wrong with one field is reported, and the fields
/// after it are planned all the same.
pub fn derive(input: &TypeDescriptor) -> (r: Generation)
    ensures
        r.deep_view() == generation_of(input.deep_view()),
{
    let mut diagnostics: Vec<Diagnostic> = Vec::new();
    match extract_fields(input) {
        Err(structural) => {
            diagnostics.push(structural);
            assert(diagnostics.deep_view() =~= seq![structural.deep_view()]);
            Generation { plan: None, diagnostics }
        },
        Ok(fields) => {
            let classified = classify_fields(&fields, &mut diagnostics);
            let plan = synthesize(input.name.as_str(), &classified);
            assert(diagnostics.deep_view() =~= diagnostics_upto(
                fields.deep_view(),
                fields.len() as int,
            ));
            Generation { plan: Some(plan), diagnostics }
        },
    }
}

} // verus!
