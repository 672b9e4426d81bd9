//! Reading the directives that are attached to a field.
//!
//! One form is recognized: `each = "name"`, which asks for an accessor `name`
//! that adds one item to a collection-typed field.

use vstd::prelude::*;
use crate::diagnostic::{
    diagnostic_at, Diagnostic, DiagnosticKind, DiagnosticKindModel, DiagnosticModel, Malformation,
};
use crate::ident::{is_identifier, is_identifier_text};
use crate::schema::{FieldDescriptor, RawToken, TokenKind, TokenModel};
use crate::text::text_is;

verus! {

/// A directive of the form `ident = "value"`, taken apart.
#[derive(Clone, Debug, PartialEq, Eq)]
pub struct AttrInput {
    /// The key before the `=`.
    pub ident: String,
    /// The identifier that the string literal holds.
    pub value: String,
}

/// The model of [`AttrInput`] that contracts speak of.
pub struct AttrInputModel {
    pub ident: Seq<char>,
    pub value: Seq<char>,
}

impl DeepView for AttrInput {
    type V = AttrInputModel;

    open spec fn deep_view(&self) -> AttrInputModel {
        AttrInputModel { ident: self.ident@, value: self.value@ }
    }
}

/// What a parse result says, over the model of the directive.
pub open spec fn parsed_model(r: Result<AttrInput, Malformation>) -> Result<
    AttrInputModel,
    Malformation,
> {
    match r {
        Ok(input) => Ok(input.deep_view()),
        Err(fault) => Err(fault),
    }
}

/// Whether the token is the punctuation `=`.
pub open spec fn is_assignment(t: TokenModel) -> bool {
    t.kind == TokenKind::Punct && t.text == "="@
}

/// The string that the value of a directive stands for: that of the third
/// token, where that token is a string literal.
pub open spec fn decoded_value(tokens: Seq<TokenModel>) -> Option<Seq<char>> {
    if tokens.len() >= 3 && tokens[2].kind == TokenKind::Literal {
        tokens[2].string_value
    } else {
        None
    }
}

/// What the tokens `ident = "value"` amount to, given whether the string that
/// the value stands for is an identifier.
pub open spec fn attr_input_with(tokens: Seq<TokenModel>, value_is_identifier: bool) -> Result<
    AttrInputModel,
    Malformation,
> {
    if tokens.len() < 1 || tokens[0].kind != TokenKind::Ident {
        Err(Malformation::MissingKey)
    } else if tokens.len() < 2 || !is_assignment(tokens[1]) {
        Err(Malformation::MissingAssignment)
    } else if decoded_value(tokens) is None {
        Err(Malformation::ValueNotString)
    } else if !value_is_identifier {
        Err(Malformation::ValueNotIdentifier)
    } else if tokens.len() > 3 {
        Err(Malformation::TrailingTokens)
    } else {
        Ok(AttrInputModel { ident: tokens[0].text, value: decoded_value(tokens)->0 })
    }
}

/// What the tokens `ident = "value"` amount to.
pub open spec fn attr_input_of(tokens: Seq<TokenModel>) -> Result<AttrInputModel, Malformation> {
    let decoded = decoded_value(tokens);
    attr_input_with(tokens, decoded is Some && is_identifier_text(decoded->0))
}

impl AttrInput {
    /// Checks the form `ident = "value"` of `tokens`, where
    /// `value_is_identifier` says whether the string that the value stands for
    /// is an identifier. The faults are looked for from left to right, and the
    /// first one found is returned.
    pub fn from_parts(tokens: &Vec<RawToken>, value_is_identifier: bool) -> (r: Result<
        AttrInput,
        Malformation,
    >)
        ensures
            parsed_model(r) == attr_input_with(tokens.deep_view(), value_is_identifier),
    {
        if tokens.len() < 1 {
            return Err(Malformation::MissingKey);
        }
        match tokens[0].kind {
            TokenKind::Ident => {},
            _ => {
                return Err(Malformation::MissingKey);
            },
        }
        if tokens.len() < 2 || !is_assignment_token(&tokens[1]) {
            return Err(Malformation::MissingAssignment);
        }
        let value = match value_of(tokens) {
            Some(v) => v,
            None => {
                return Err(Malformation::ValueNotString);
            },
        };
        if !value_is_identifier {
            return Err(Malformation::ValueNotIdentifier);
        }
        if tokens.len() > 3 {
            return Err(Malformation::TrailingTokens);
        }
        Ok(AttrInput { ident: tokens[0].text.clone(), value: value.clone() })
    }

    /// Reads a directive of the form `ident = "value"`, where the value is a
    /// string literal that holds an identifier.
    pub fn parse(tokens: &Vec<RawToken>) -> (r: Result<AttrInput, Malformation>)
        ensures
            parsed_model(r) == attr_input_of(tokens.deep_view()),
    {
        let value_is_identifier = match value_of(tokens) {
            Some(v) => is_identifier(v.as_str()),
            None => false,
        };
        AttrInput::from_parts(tokens, value_is_identifier)
    }
}

/// Whether the token is the punctuation `=`.
pub fn is_assignment_token(t: &RawToken) -> (r: bool)
    ensures
        r == is_assignment(t.deep_view()),
{
    match t.kind {
        TokenKind::Punct => text_is(&t.text, "="),
        _ => false,
    }
}

/// The string that the value of a directive stands for: that of the third
/// token, where that token is a string literal.
pub fn value_of<'a>(tokens: &'a Vec<RawToken>) -> (r: Option<&'a String>)
    ensures
        r.deep_view() == decoded_value(tokens.deep_view()),
{
    if tokens.len() < 3 {
        return None;
    }
    match tokens[2].kind {
        TokenKind::Literal => tokens[2].string_value.as_ref(),
        _ => None,
    }
}

/// A recognized instruction attached to a field.
#[derive(Clone, Debug, PartialEq, Eq)]
pub enum Directive {
    /// The field is a repeated collection; the builder gets an accessor of the
    /// given name that adds one item.
    Each(String),
}

/// The model of [`Directive`] that contracts speak of.
pub enum DirectiveModel {
    Each(Seq<char>),
}

impl DeepView for Directive {
    type V = DirectiveModel;

    open spec fn deep_view(&self) -> DirectiveModel {
        match self {
            Directive::Each(name) => DirectiveModel::Each(name@),
        }
    }
}

/// What the token list of one attribute turned out to be.
#[derive(Clone, Debug, PartialEq, Eq)]
pub enum DirectiveOutcome {
    /// There are no tokens: nothing is asked for.
    Absent,
    /// A recognized directive.
    Valid(Directive),
    /// The key is not `each`; the key is given as written.
    Unrecognized(String),
    /// The key is `each`, but the rest is not `= "name"`.
    Malformed(Malformation),
}

/// The model of [`DirectiveOutcome`] that contracts speak of.
pub enum OutcomeModel {
    Absent,
    Valid(DirectiveModel),
    Unrecognized(Seq<char>),
    Malformed(Malformation),
}

impl DeepView for DirectiveOutcome {
    type V = OutcomeModel;

    open spec fn deep_view(&self) -> OutcomeModel {
        match self {
            DirectiveOutcome::Absent => OutcomeModel::Absent,
            DirectiveOutcome::Valid(d) => OutcomeModel::Valid(d.deep_view()),
            DirectiveOutcome::Unrecognized(key) => OutcomeModel::Unrecognized(key@),
            DirectiveOutcome::Malformed(m) => OutcomeModel::Malformed(*m),
        }
    }
}

/// Whether the token is the key `each`.
pub open spec fn is_each_key(t: TokenModel) -> bool {
    t.kind == TokenKind::Ident && t.text == "each"@
}

/// What the token list of one attribute amounts to.
pub open spec fn directive_outcome(tokens: Seq<TokenModel>) -> OutcomeModel {
    if tokens.len() == 0 {
        OutcomeModel::Absent
    } else if !is_each_key(tokens[0]) {
        OutcomeModel::Unrecognized(tokens[0].text)
    } else {
        match attr_input_of(tokens) {
            Ok(input) => OutcomeModel::Valid(DirectiveModel::Each(input.value)),
            Err(fault) => OutcomeModel::Malformed(fault),
        }
    }
}

/// Reads the token list of one attribute. A list that does not hold a valid
/// directive is reported in the outcome; nothing makes this function give up.
pub fn parse_directive(tokens: &Vec<RawToken>) -> (r: DirectiveOutcome)
    ensures
        r.deep_view() == directive_outcome(tokens.deep_view()),
{
    if tokens.len() == 0 {
        return DirectiveOutcome::Absent;
    }
    let first = &tokens[0];
    let is_each = match first.kind {
        TokenKind::Ident => text_is(&first.text, "each"),
        _ => false,
    };
    if !is_each {
        return DirectiveOutcome::Unrecognized(first.text.clone());
    }
    match AttrInput::parse(tokens) {
        Ok(input) => DirectiveOutcome::Valid(Directive::Each(input.value)),
        Err(fault) => DirectiveOutcome::Malformed(fault),
    }
}

/// What all the directives of one field ask for, taken together.
#[derive(Clone, Debug, PartialEq, Eq)]
pub enum FieldDirective {
    /// Nothing: there is no directive, or one with an unrecognized key, which is
    /// reported and otherwise left aside.
    Plain,
    /// An accessor of the given name that adds one item.
    Each(String),
    /// A directive with the key `each` is malformed: the field gets no accessor.
    Rejected,
}

/// The model of [`FieldDirective`] that contracts speak of.
pub enum FieldDirectiveModel {
    Plain,
    Each(Seq<char>),
    Rejected,
}

impl DeepView for FieldDirective {
    type V = FieldDirectiveModel;

    open spec fn deep_view(&self) -> FieldDirectiveModel {
        match self {
            FieldDirective::Plain => FieldDirectiveModel::Plain,
            FieldDirective::Each(name) => FieldDirectiveModel::Each(name@),
            FieldDirective::Rejected => FieldDirectiveModel::Rejected,
        }
    }
}

/// Whether one of the first `n` token lists is a malformed `each` directive.
pub open spec fn any_malformed(raws: Seq<Seq<TokenModel>>, n: int) -> bool {
    exists|i: int| 0 <= i < n && #[trigger] directive_outcome(raws[i]) is Malformed
}

/// Whether one of the first `n` token lists has an unrecognized key.
pub open spec fn any_unrecognized(raws: Seq<Seq<TokenModel>>, n: int) -> bool {
    exists|i: int| 0 <= i < n && #[trigger] directive_outcome(raws[i]) is Unrecognized
}

/// The accessor name of the last valid `each` directive among the first `n`
/// token lists.
pub open spec fn last_each(raws: Seq<Seq<TokenModel>>, n: int) -> Option<Seq<char>>
    decreases n,
{
    if n <= 0 {
        None
    } else {
        match directive_outcome(raws[n - 1]) {
            OutcomeModel::Valid(DirectiveModel::Each(name)) => Some(name),
            _ => last_each(raws, n - 1),
        }
    }
}

/// What the directives of a field ask for. A malformed `each` directive rejects
/// the field. Failing that, an unrecognized key sets all directives of the field
/// aside. Failing that, the last valid `each` directive counts.
pub open spec fn field_directive(raws: Seq<Seq<TokenModel>>) -> FieldDirectiveModel {
    let n = raws.len() as int;
    if any_malformed(raws, n) {
        FieldDirectiveModel::Rejected
    } else if any_unrecognized(raws, n) {
        FieldDirectiveModel::Plain
    } else {
        match last_each(raws, n) {
            Some(name) => FieldDirectiveModel::Each(name),
            None => FieldDirectiveModel::Plain,
        }
    }
}

/// The diagnostics that one outcome gives rise to at the field `location`: one
/// for an unrecognized or malformed directive, none otherwise.
pub open spec fn outcome_diagnostics(location: Seq<char>, outcome: OutcomeModel) -> Seq<
    DiagnosticModel,
> {
    match outcome {
        OutcomeModel::Unrecognized(key) => seq![
            diagnostic_at(location, DiagnosticKindModel::UnrecognizedDirective(key)),
        ],
        OutcomeModel::Malformed(fault) => seq![
            diagnostic_at(location, DiagnosticKindModel::MalformedDirective(fault)),
        ],
        _ => Seq::empty(),
    }
}

/// The diagnostics of the first `n` directives of a field, in order.
pub open spec fn directive_diagnostics(
    location: Seq<char>,
    raws: Seq<Seq<TokenModel>>,
    n: int,
) -> Seq<DiagnosticModel>
    decreases n,
{
    if n <= 0 {
        Seq::empty()
    } else {
        directive_diagnostics(location, raws, n - 1) + outcome_diagnostics(
            location,
            directive_outcome(raws[n - 1]),
        )
    }
}

/// Reads all directives of a field. Each directive that is not valid adds one
/// diagnostic to `diagnostics`; reading goes on after it.
pub fn read_directives(field: &FieldDescriptor, diagnostics: &mut Vec<Diagnostic>) -> (r:
    FieldDirective)
    ensures
        r.deep_view() == field_directive(field.deep_view().raw_directives),
        final(diagnostics).deep_view() == old(diagnostics).deep_view() + directive_diagnostics(
            field.deep_view().name,
            field.deep_view().raw_directives,
            field.deep_view().raw_directives.len() as int,
        ),
{
    let ghost raws = field.deep_view().raw_directives;
    let ghost location = field.deep_view().name;
    let ghost start = diagnostics.deep_view();
    let mut malformed: bool = false;
    let mut unrecognized: bool = false;
    let mut each: Option<String> = None;
    let mut i: usize = 0;
    assert(diagnostics.deep_view() =~= start + directive_diagnostics(location, raws, 0));
    while i < field.raw_directives.len()
        invariant
            i <= field.raw_directives.len(),
            raws == field.deep_view().raw_directives,
            location == field.deep_view().name,
            malformed == any_malformed(raws, i as int),
            unrecognized == any_unrecognized(raws, i as int),
            each.deep_view() == last_each(raws, i as int),
            diagnostics.deep_view() == start + directive_diagnostics(location, raws, i as int),
        decreases field.raw_directives.len() - i,
    {
        let ghost before = diagnostics.deep_view();
        let outcome = parse_directive(field.raw_directives[i]);
        assert(outcome.deep_view() == directive_outcome(raws[i as int]));
        match outcome {
            DirectiveOutcome::Absent => {},
            DirectiveOutcome::Valid(Directive::Each(name)) => {
                each = Some(name);
            },
            DirectiveOutcome::Unrecognized(key) => {
                unrecognized = true;
                let d = Diagnostic::new(
                    field.name.as_str(),
                    DiagnosticKind::UnrecognizedDirective(key),
                );
                diagnostics.push(d);
                assert(diagnostics.deep_view() =~= before.push(d.deep_view()));
            },
            DirectiveOutcome::Malformed(fault) => {
                malformed = true;
                let d = Diagnostic::new(
                    field.name.as_str(),
                    DiagnosticKind::MalformedDirective(fault),
                );
                diagnostics.push(d);
                assert(diagnostics.deep_view() =~= before.push(d.deep_view()));
            },
        }
        assert(diagnostics.deep_view() =~= start + directive_diagnostics(
            location,
            raws,
            i as int + 1,
        ));
        i += 1;
    }
    if malformed {
        FieldDirective::Rejected
    } else if unrecognized {
        FieldDirective::Plain
    } else {
        match each {
            Some(name) => FieldDirective::Each(name),
            None => FieldDirective::Plain,
        }
    }
}

} // verus!
