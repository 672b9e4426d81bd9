//! The schema of a record type, as the host hands it over, and the ordered list
//! of field descriptors that is read from it.

use vstd::prelude::*;
use crate::diagnostic::{
    diagnostic_at, Diagnostic, DiagnosticKind, DiagnosticKindModel, DiagnosticModel, ShapeFault,
};
use crate::text::text_is;

verus! {

/// The lexical class of one token of a directive.
#[derive(Clone, Copy, Debug, PartialEq, Eq, Structural)]
pub enum TokenKind {
    /// A word, such as `each`.
    Ident,
    /// A single punctuation character, such as `=`.
    Punct,
    /// A literal: a string, a number, a character.
    Literal,
    /// A delimited group of further tokens.
    Group,
}

/// One token of a directive, not yet interpreted.
#[derive(Clone, Debug, PartialEq, Eq)]
pub struct RawToken {
    pub kind: TokenKind,
    /// The token as written.
    pub text: String,
    /// The string that the token stands for, where it is a string literal:
    /// what is between the quotes, with the escapes resolved. `None` for every
    /// other token.
    pub string_value: Option<String>,
}

/// The model of [`RawToken`] that contracts speak of.
pub struct TokenModel {
    pub kind: TokenKind,
    pub text: Seq<char>,
    pub string_value: Option<Seq<char>>,
}

impl DeepView for RawToken {
    type V = TokenModel;

    open spec fn deep_view(&self) -> TokenModel {
        TokenModel {
            kind: self.kind,
            text: self.text@,
            string_value: self.string_value.deep_view(),
        }
    }
}

/// One argument between the angle brackets of a path type.
#[derive(Clone, Debug, PartialEq, Eq)]
pub enum GenericArg {
    /// A type, as written.
    Type(String),
    /// Anything else: a lifetime, a constant, a binding.
    Other,
}

/// The model of [`GenericArg`] that contracts speak of.
pub enum GenericArgModel {
    Type(Seq<char>),
    Other,
}

impl DeepView for GenericArg {
    type V = GenericArgModel;

    open spec fn deep_view(&self) -> GenericArgModel {
        match self {
            GenericArg::Type(t) => GenericArgModel::Type(t@),
            GenericArg::Other => GenericArgModel::Other,
        }
    }
}

/// What follows the first segment of a path type.
#[derive(Clone, Debug, PartialEq, Eq)]
pub enum PathArgs {
    /// Nothing, as in `String`.
    Bare,
    /// Arguments in angle brackets, as in `Option<String>`.
    AngleBracketed(Vec<GenericArg>),
    /// Arguments in round brackets, as in `Fn(u8) -> u8`.
    Parenthesized,
}

/// The model of [`PathArgs`] that contracts speak of.
pub enum PathArgsModel {
    Bare,
    AngleBracketed(Seq<GenericArgModel>),
    Parenthesized,
}

impl DeepView for PathArgs {
    type V = PathArgsModel;

    open spec fn deep_view(&self) -> PathArgsModel {
        match self {
            PathArgs::Bare => PathArgsModel::Bare,
            PathArgs::AngleBracketed(args) => PathArgsModel::AngleBracketed(args.deep_view()),
            PathArgs::Parenthesized => PathArgsModel::Parenthesized,
        }
    }
}

/// The part of a type expression that decides how its field is stored.
#[derive(Clone, Debug, PartialEq, Eq)]
pub enum TypeShape {
    /// A path type; `head` is the name of its first segment and `args` what
    /// follows that segment.
    Path { head: String, args: PathArgs },
    /// Any other type: a reference, a tuple, an array.
    Other,
}

/// The model of [`TypeShape`] that contracts speak of.
pub enum TypeShapeModel {
    Path { head: Seq<char>, args: PathArgsModel },
    Other,
}

impl DeepView for TypeShape {
    type V = TypeShapeModel;

    open spec fn deep_view(&self) -> TypeShapeModel {
        match self {
            TypeShape::Path { head, args } => TypeShapeModel::Path {
                head: head@,
                args: args.deep_view(),
            },
            TypeShape::Other => TypeShapeModel::Other,
        }
    }
}

/// The declared type of a field.
#[derive(Clone, Debug, PartialEq, Eq)]
pub struct TypeExpr {
    /// The type as written; it is carried into the plan unchanged.
    pub text: String,
    pub shape: TypeShape,
}

/// The model of [`TypeExpr`] that contracts speak of.
pub struct TypeModel {
    pub text: Seq<char>,
    pub shape: TypeShapeModel,
}

impl DeepView for TypeExpr {
    type V = TypeModel;

    open spec fn deep_view(&self) -> TypeModel {
        TypeModel { text: self.text@, shape: self.shape.deep_view() }
    }
}

/// What an attribute holds after its path.
#[derive(Clone, Debug, PartialEq, Eq)]
pub enum AttrMeta {
    /// Nothing, as in `#[builder]`.
    Path,
    /// A bracketed list of tokens, as in `#[builder(each = "arg")]`.
    List(Vec<RawToken>),
    /// A value, as in `#[builder = "arg"]`.
    NameValue,
}

/// The model of [`AttrMeta`] that contracts speak of.
pub enum AttrMetaModel {
    Path,
    List(Seq<TokenModel>),
    NameValue,
}

impl DeepView for AttrMeta {
    type V = AttrMetaModel;

    open spec fn deep_view(&self) -> AttrMetaModel {
        match self {
            AttrMeta::Path => AttrMetaModel::Path,
            AttrMeta::List(tokens) => AttrMetaModel::List(tokens.deep_view()),
            AttrMeta::NameValue => AttrMetaModel::NameValue,
        }
    }
}

/// One attribute of a field.
#[derive(Clone, Debug, PartialEq, Eq)]
pub struct Attribute {
    /// The first segment of the attribute's path.
    pub name: String,
    pub meta: AttrMeta,
}

/// The model of [`Attribute`] that contracts speak of.
pub struct AttributeModel {
    pub name: Seq<char>,
    pub meta: AttrMetaModel,
}

impl DeepView for Attribute {
    type V = AttributeModel;

    open spec fn deep_view(&self) -> AttributeModel {
        AttributeModel { name: self.name@, meta: self.meta.deep_view() }
    }
}

/// One named field of a record, as declared.
#[derive(Clone, Debug, PartialEq, Eq)]
pub struct FieldDecl {
    pub name: String,
    pub ty: TypeExpr,
    pub attrs: Vec<Attribute>,
}

/// The model of [`FieldDecl`] that contracts speak of.
pub struct FieldDeclModel {
    pub name: Seq<char>,
    pub ty: TypeModel,
    pub attrs: Seq<AttributeModel>,
}

impl DeepView for FieldDecl {
    type V = FieldDeclModel;

    open spec fn deep_view(&self) -> FieldDeclModel {
        FieldDeclModel {
            name: self.name@,
            ty: self.ty.deep_view(),
            attrs: self.attrs.deep_view(),
        }
    }
}

/// The kind of type that a descriptor describes.
#[derive(Clone, Debug, PartialEq, Eq)]
pub enum DataShape {
    /// A record with named fields, in declaration order.
    NamedStruct(Vec<FieldDecl>),
    /// A record whose fields have positions only.
    TupleStruct,
    /// A record without fields.
    UnitStruct,
    /// A type made of variants.
    Enum,
    /// An untagged union.
    Union,
}

/// The model of [`DataShape`] that contracts speak of.
pub enum DataShapeModel {
    NamedStruct(Seq<FieldDeclModel>),
    TupleStruct,
    UnitStruct,
    Enum,
    Union,
}

impl DeepView for DataShape {
    type V = DataShapeModel;

    open spec fn deep_view(&self) -> DataShapeModel {
        match self {
            DataShape::NamedStruct(fields) => DataShapeModel::NamedStruct(fields.deep_view()),
            DataShape::TupleStruct => DataShapeModel::TupleStruct,
            DataShape::UnitStruct => DataShapeModel::UnitStruct,
            DataShape::Enum => DataShapeModel::Enum,
            DataShape::Union => DataShapeModel::Union,
        }
    }
}

/// The schema of one type, as the host's parser describes it.
#[derive(Clone, Debug, PartialEq, Eq)]
pub struct TypeDescriptor {
    pub name: String,
    pub data: DataShape,
}

/// The model of [`TypeDescriptor`] that contracts speak of.
pub struct DescriptorModel {
    pub name: Seq<char>,
    pub data: DataShapeModel,
}

impl DeepView for TypeDescriptor {
    type V = DescriptorModel;

    open spec fn deep_view(&self) -> DescriptorModel {
        DescriptorModel { name: self.name@, data: self.data.deep_view() }
    }
}


/// What generation reads of one field: its name, its declared type and the
/// token lists of its directives, in the order in which they are written.
#[derive(Clone, Debug, PartialEq, Eq)]
pub struct FieldDescriptor<'a> {
    pub name: &'a String,
    pub declared_type: &'a TypeExpr,
    pub raw_directives: Vec<&'a Vec<RawToken>>,
}

/// The model of [`FieldDescriptor`] that contracts speak of.
pub struct FieldDescriptorModel {
    pub name: Seq<char>,
    pub declared_type: TypeModel,
    pub raw_directives: Seq<Seq<TokenModel>>,
}

impl<'a> DeepView for FieldDescriptor<'a> {
    type V = FieldDescriptorModel;

    open spec fn deep_view(&self) -> FieldDescriptorModel {
        FieldDescriptorModel {
            name: self.name@,
            declared_type: self.declared_type.deep_view(),
            raw_directives: self.raw_directives.deep_view(),
        }
    }
}

/// Whether the attribute carries a directive: it is named `builder` and holds a
/// bracketed list of tokens.
pub open spec fn is_directive_attr(a: AttributeModel) -> bool {
    a.name == "builder"@ && a.meta is List
}

/// The token lists of the directives among the first `n` attributes, in order.
pub open spec fn raw_directives_upto(attrs: Seq<AttributeModel>, n: int) -> Seq<Seq<TokenModel>>
    decreases n,
{
    if n <= 0 {
        Seq::empty()
    } else {
        let before = raw_directives_upto(attrs, n - 1);
        if is_directive_attr(attrs[n - 1]) {
            before.push(attrs[n - 1].meta->List_0)
        } else {
            before
        }
    }
}

/// The descriptor of a declared field.
pub open spec fn descriptor_of(f: FieldDeclModel) -> FieldDescriptorModel {
    FieldDescriptorModel {
        name: f.name,
        declared_type: f.ty,
        raw_directives: raw_directives_upto(f.attrs, f.attrs.len() as int),
    }
}

/// Why a type of the given shape has no field descriptors, if it has none.
pub open spec fn shape_fault(data: DataShapeModel) -> Option<ShapeFault> {
    match data {
        DataShapeModel::NamedStruct(_) => None,
        DataShapeModel::TupleStruct => Some(ShapeFault::NoNamedFields),
        DataShapeModel::UnitStruct => Some(ShapeFault::NoNamedFields),
        DataShapeModel::Enum => Some(ShapeFault::NotARecord),
        DataShapeModel::Union => Some(ShapeFault::NotARecord),
    }
}

/// The field descriptors of a described type, in declaration order, or the
/// structural diagnostic that says why it has none.
pub open spec fn field_descriptors(d: DescriptorModel) -> Result<
    Seq<FieldDescriptorModel>,
    DiagnosticModel,
> {
    match d.data {
        DataShapeModel::NamedStruct(fields) => Ok(
            Seq::new(fields.len(), |i: int| descriptor_of(fields[i])),
        ),
        _ => Err(
            diagnostic_at(
                d.name,
                DiagnosticKindModel::StructuralShapeError(shape_fault(d.data)->0),
            ),
        ),
    }
}

/// What an extraction says, over the models.
pub open spec fn extraction_model<'a>(r: Result<Vec<FieldDescriptor<'a>>, Diagnostic>) -> Result<
    Seq<FieldDescriptorModel>,
    DiagnosticModel,
> {
    match r {
        Ok(fields) => Ok(fields.deep_view()),
        Err(d) => Err(d.deep_view()),
    }
}

/// Reads the descriptor of one declared field.
pub fn describe_field<'a>(field: &'a FieldDecl) -> (r: FieldDescriptor<'a>)
    ensures
        r.deep_view() == descriptor_of(field.deep_view()),
{
    let mut raw: Vec<&'a Vec<RawToken>> = Vec::new();
    let mut i: usize = 0;
    while i < field.attrs.len()
        invariant
            i <= field.attrs.len(),
            raw.deep_view() == raw_directives_upto(field.attrs.deep_view(), i as int),
        decreases field.attrs.len() - i,
    {
        let attr = &field.attrs[i];
        let ghost before = raw.deep_view();
        if text_is(&attr.name, "builder") {
            match &attr.meta {
                AttrMeta::List(tokens) => {
                    raw.push(tokens);
                    assert(raw.deep_view() =~= before.push(tokens.deep_view()));
                },
                _ => {},
            }
        }
        i += 1;
    }
    FieldDescriptor { name: &field.name, declared_type: &field.ty, raw_directives: raw }
}

/// Reads the ordered list of field descriptors from the descriptor of a type.
/// A type that is not a record with named fields has none: the result is then a
/// structural diagnostic at the type's name.
pub fn extract_fields<'a>(desc: &'a TypeDescriptor) -> (r: Result<
    Vec<FieldDescriptor<'a>>,
    Diagnostic,
>)
    ensures
        extraction_model(r) == field_descriptors(desc.deep_view()),
{
    match &desc.data {
        DataShape::NamedStruct(fields) => {
            let mut out: Vec<FieldDescriptor<'a>> = Vec::new();
            let mut i: usize = 0;
            while i < fields.len()
                invariant
                    i <= fields.len(),
                    out.len() == i,
                    forall|j: int|
                        0 <= j < i ==> (#[trigger] out[j]).deep_view() == descriptor_of(
                            fields[j].deep_view(),
                        ),
                decreases fields.len() - i,
            {
                let d = describe_field(&fields[i]);
                out.push(d);
                i += 1;
            }
            assert(out.deep_view() =~= Seq::new(
                fields.deep_view().len(),
                |i: int| descriptor_of(fields.deep_view()[i]),
            ));
            Ok(out)
        },
        DataShape::TupleStruct => Err(
            Diagnostic::new(
                desc.name.as_str(),
                DiagnosticKind::StructuralShapeError(ShapeFault::NoNamedFields),
            ),
        ),
        DataShape::UnitStruct => Err(
            Diagnostic::new(
                desc.name.as_str(),
                DiagnosticKind::StructuralShapeError(ShapeFault::NoNamedFields),
            ),
        ),
        DataShape::Enum => Err(
            Diagnostic::new(
                desc.name.as_str(),
                DiagnosticKind::StructuralShapeError(ShapeFault::NotARecord),
            ),
        ),
        DataShape::Union => Err(
            Diagnostic::new(
                desc.name.as_str(),
                DiagnosticKind::StructuralShapeError(ShapeFault::NotARecord),
            ),
        ),
    }
}

} // verus!
