//! What generation reports about a schema instead of failing.

use vstd::prelude::*;
use vstd::string::StringExecFns;

verus! {

/// Why a type cannot have a builder at all.
#[derive(Clone, Copy, Debug, PartialEq, Eq, Structural)]
pub enum ShapeFault {
    /// The type is a set of variants or a union, not a record.
    NotARecord,
    /// The type is a record, but its fields have no names.
    NoNamedFields,
}

/// What is wrong with a directive whose key is `each`.
#[derive(Clone, Copy, Debug, PartialEq, Eq, Structural)]
pub enum Malformation {
    /// The directive does not begin with a name.
    MissingKey,
    /// The key is not followed by `=`.
    MissingAssignment,
    /// The value is not a string literal.
    ValueNotString,
    /// The string does not hold an identifier.
    ValueNotIdentifier,
    /// Something follows the value.
    TrailingTokens,
}

/// The kind of a diagnostic, with what identifies the offending text.
#[derive(Clone, Debug, PartialEq, Eq)]
pub enum DiagnosticKind {
    /// The described type is not a flat record with named fields.
    StructuralShapeError(ShapeFault),
    /// A directive has a key other than `each`; the key is given as written.
    UnrecognizedDirective(String),
    /// A directive has the key `each` but not the form `each = "name"`.
    MalformedDirective(Malformation),
    /// A field has a valid `each` directive but no collection type.
    UnsupportedFieldShape,
}

/// The model of [`DiagnosticKind`] that contracts speak of.
pub enum DiagnosticKindModel {
    StructuralShapeError(ShapeFault),
    UnrecognizedDirective(Seq<char>),
    MalformedDirective(Malformation),
    UnsupportedFieldShape,
}

impl DeepView for DiagnosticKind {
    type V = DiagnosticKindModel;

    open spec fn deep_view(&self) -> DiagnosticKindModel {
        match self {
            DiagnosticKind::StructuralShapeError(f) => DiagnosticKindModel::StructuralShapeError(
                *f,
            ),
            DiagnosticKind::UnrecognizedDirective(key) => DiagnosticKindModel::UnrecognizedDirective(
                key@,
            ),
            DiagnosticKind::MalformedDirective(m) => DiagnosticKindModel::MalformedDirective(*m),
            DiagnosticKind::UnsupportedFieldShape => DiagnosticKindModel::UnsupportedFieldShape,
        }
    }
}

/// One report of generation. `location` names the field that it is about, or the
/// type itself for a structural error.
#[derive(Clone, Debug, PartialEq, Eq)]
pub struct Diagnostic {
    pub location: String,
    pub kind: DiagnosticKind,
    pub message: String,
}

/// The model of [`Diagnostic`] that contracts speak of.
pub struct DiagnosticModel {
    pub location: Seq<char>,
    pub kind: DiagnosticKindModel,
    pub message: Seq<char>,
}

impl DeepView for Diagnostic {
    type V = DiagnosticModel;

    open spec fn deep_view(&self) -> DiagnosticModel {
        DiagnosticModel {
            location: self.location@,
            kind: self.kind.deep_view(),
            message: self.message@,
        }
    }
}

/// The text that explains a diagnostic of the given kind.
pub open spec fn message_of(kind: DiagnosticKindModel) -> Seq<char> {
    match kind {
        DiagnosticKindModel::StructuralShapeError(ShapeFault::NotARecord) => "invalid derive type"@,
        DiagnosticKindModel::StructuralShapeError(ShapeFault::NoNamedFields) => "expected named fields"@,
        DiagnosticKindModel::UnrecognizedDirective(_) => "expected `builder(each = \"...\")`"@,
        DiagnosticKindModel::MalformedDirective(Malformation::MissingKey) => "expected a directive name"@,
        DiagnosticKindModel::MalformedDirective(Malformation::MissingAssignment) => "expected `=` after `each`"@,
        DiagnosticKindModel::MalformedDirective(Malformation::ValueNotString) => "expected a string literal after `each =`"@,
        DiagnosticKindModel::MalformedDirective(Malformation::ValueNotIdentifier) => "the value of `each` is not an identifier"@,
        DiagnosticKindModel::MalformedDirective(Malformation::TrailingTokens) => "unexpected tokens after the value of `each`"@,
        DiagnosticKindModel::UnsupportedFieldShape => "each directive requires a collection-typed field"@,
    }
}

/// The diagnostic of the given kind at the given place.
pub open spec fn diagnostic_at(location: Seq<char>, kind: DiagnosticKindModel) -> DiagnosticModel {
    DiagnosticModel { location, kind, message: message_of(kind) }
}

impl Diagnostic {
    /// The diagnostic of kind `kind` about the field or type named `location`,
    /// with the message that belongs to the kind.
    pub fn new(location: &str, kind: DiagnosticKind) -> (d: Diagnostic)
        ensures
            d.deep_view() == diagnostic_at(location@, kind.deep_view()),
    {
        let message = match &kind {
            DiagnosticKind::StructuralShapeError(ShapeFault::NotARecord) => String::from_str(
                "invalid derive type",
            ),
            DiagnosticKind::StructuralShapeError(ShapeFault::NoNamedFields) => String::from_str(
                "expected named fields",
            ),
            DiagnosticKind::UnrecognizedDirective(_) => String::from_str(
                "expected `builder(each = \"...\")`",
            ),
            DiagnosticKind::MalformedDirective(Malformation::MissingKey) => String::from_str(
                "expected a directive name",
            ),
            DiagnosticKind::MalformedDirective(Malformation::MissingAssignment) => String::from_str(
                "expected `=` after `each`",
            ),
            DiagnosticKind::MalformedDirective(Malformation::ValueNotString) => String::from_str(
                "expected a string literal after `each =`",
            ),
            DiagnosticKind::MalformedDirective(Malformation::ValueNotIdentifier) => String::from_str(
                "the value of `each` is not an identifier",
            ),
            DiagnosticKind::MalformedDirective(Malformation::TrailingTokens) => String::from_str(
                "unexpected tokens after the value of `each`",
            ),
            DiagnosticKind::UnsupportedFieldShape => String::from_str(
                "each directive requires a collection-typed field",
            ),
        };
        Diagnostic { location: String::from_str(location), kind, message }
    }

    /// Whether the diagnostic stops generation for the whole type, as opposed to
    /// one field of it.
    pub fn is_structural(&self) -> (r: bool)
        ensures
            r == (self.deep_view().kind is StructuralShapeError),
    {
        match &self.kind {
            DiagnosticKind::StructuralShapeError(_) => true,
            _ => false,
        }
    }
}

} // verus!
