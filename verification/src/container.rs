//! The shape of an annotated type: its fields or variants in declaration
//! order, each variant with the style of its fields.

use crate::ast;
use crate::ast::{DeriveInput, Type};
use crate::attributes::{resolution, Attributes, AttributesView};
use crate::error::{DeriveError, Failure};
use vstd::prelude::*;
use vstd::string::*;

verus! {

/// A source data structure annotated with `#[derive(ProstConvert)]`,
/// parsed into an internal representation.
pub struct Container<'a> {
    /// The struct or enum name (without generics).
    pub ident: String,
    /// Attributes on the structure, parsed for `prost_derive`.
    pub attrs: Attributes,
    /// The contents of the struct or enum.
    pub data: Data<'a>,
    /// The definition as it was given.
    pub original: &'a DeriveInput,
}

/// The fields of a struct or enum.
pub enum Data<'a> {
    Enum(Vec<Variant<'a>>),
    Struct(Vec<Field<'a>>),
}

/// A variant of an enum.
#[derive(Debug)]
pub struct Variant<'a> {
    pub ident: String,
    pub style: Style,
    pub fields: Vec<Field<'a>>,
    pub original: &'a ast::Variant,
}

/// A field of a struct.
#[derive(Debug)]
pub struct Field<'a> {
    pub name: Option<String>,
    pub ty: &'a Type,
    pub original: &'a ast::Field,
}

/// How the fields of a struct or of a variant are written.
#[derive(Copy, Clone, Debug, PartialEq, Eq)]
pub enum Style {
    /// Named fields.
    Struct,
    /// Many unnamed fields.
    Tuple,
    /// One unnamed field.
    Newtype,
    /// No fields.
    Unit,
}

/// The mathematical value of a [`Field`]: its name, if it has one, and its
/// declared type.
pub struct FieldView {
    pub name: Option<Seq<char>>,
    pub ty: Type,
}

/// The mathematical value of a [`Variant`].
pub struct VariantView {
    pub ident: Seq<char>,
    pub style: Style,
    pub fields: Seq<FieldView>,
}

/// The mathematical value of [`Data`].
pub enum DataView {
    Enum(Seq<VariantView>),
    Struct(Seq<FieldView>),
}

/// The mathematical value of a [`Container`].
pub struct ContainerView {
    pub ident: Seq<char>,
    pub attrs: AttributesView,
    pub data: DataView,
}

/// The view of a name that may be absent.
pub open spec fn name_view(name: Option<String>) -> Option<Seq<char>> {
    match name {
        Some(text) => Some(text@),
        None => None,
    }
}

impl<'a> View for Field<'a> {
    type V = FieldView;

    open spec fn view(&self) -> FieldView {
        FieldView { name: name_view(self.name), ty: *self.ty }
    }
}

/// The views of a list of fields.
pub open spec fn field_views<'a>(fields: Seq<Field<'a>>) -> Seq<FieldView> {
    fields.map_values(|field: Field<'a>| field@)
}

impl<'a> View for Variant<'a> {
    type V = VariantView;

    open spec fn view(&self) -> VariantView {
        VariantView { ident: self.ident@, style: self.style, fields: field_views(self.fields@) }
    }
}

/// The views of a list of variants.
pub open spec fn variant_views<'a>(variants: Seq<Variant<'a>>) -> Seq<VariantView> {
    variants.map_values(|variant: Variant<'a>| variant@)
}

impl<'a> View for Data<'a> {
    type V = DataView;

    open spec fn view(&self) -> DataView {
        match self {
            Data::Enum(variants) => DataView::Enum(variant_views(variants@)),
            Data::Struct(fields) => DataView::Struct(field_views(fields@)),
        }
    }
}

impl<'a> View for Container<'a> {
    type V = ContainerView;

    open spec fn view(&self) -> ContainerView {
        ContainerView { ident: self.ident@, attrs: self.attrs@, data: self.data@ }
    }
}

/// The style of a list of declared fields: no fields is `Unit`, however
/// the empty list is written; exactly one unnamed field is `Newtype`; two or
/// more unnamed fields are `Tuple`; one or more named fields are `Struct`.
pub open spec fn style_of(fields: ast::Fields) -> Style {
    match fields {
        ast::Fields::Named(list) => if list@.len() == 0 {
            Style::Unit
        } else {
            Style::Struct
        },
        ast::Fields::Unnamed(list) => if list@.len() == 0 {
            Style::Unit
        } else if list@.len() == 1 {
            Style::Newtype
        } else {
            Style::Tuple
        },
        ast::Fields::Unit => Style::Unit,
    }
}

/// The style says how many fields there are: none for `Unit`, one for
/// `Newtype`, two or more for `Tuple`, one or more for `Struct`.
pub proof fn lemma_style_counts_fields(fields: ast::Fields)
    ensures
        style_of(fields) == Style::Unit <==> fields_of(fields).len() == 0,
        style_of(fields) == Style::Newtype ==> fields_of(fields).len() == 1,
        style_of(fields) == Style::Tuple ==> fields_of(fields).len() >= 2,
        style_of(fields) == Style::Struct ==> fields_of(fields).len() >= 1,
{
}

/// The shape of one declared field.
pub open spec fn field_shape(field: ast::Field) -> FieldView {
    FieldView { name: name_view(field.ident), ty: field.ty }
}

/// The shapes of a list of declared fields, in declaration order.
pub open spec fn field_shapes(fields: Seq<ast::Field>) -> Seq<FieldView> {
    fields.map_values(|field: ast::Field| field_shape(field))
}

/// The shapes of the fields that a struct or a variant declares.
pub open spec fn fields_of(fields: ast::Fields) -> Seq<FieldView> {
    match fields {
        ast::Fields::Named(list) => field_shapes(list@),
        ast::Fields::Unnamed(list) => field_shapes(list@),
        ast::Fields::Unit => Seq::empty(),
    }
}

/// The shape of one declared variant.
pub open spec fn variant_shape(variant: ast::Variant) -> VariantView {
    VariantView {
        ident: variant.ident@,
        style: style_of(variant.fields),
        fields: fields_of(variant.fields),
    }
}

/// The shapes of a list of declared variants, in declaration order.
pub open spec fn variant_shapes(variants: Seq<ast::Variant>) -> Seq<VariantView> {
    variants.map_values(|variant: ast::Variant| variant_shape(variant))
}

/// The shape of what a definition declares; a union has none.
pub open spec fn data_shape(data: ast::Data) -> Option<DataView> {
    match data {
        ast::Data::Struct(fields) => Some(DataView::Struct(fields_of(fields))),
        ast::Data::Enum(variants) => Some(DataView::Enum(variant_shapes(variants@))),
        ast::Data::Union => None,
    }
}

/// What the analysis of a definition gives: the shape with the resolved
/// attributes, or the failure. A union is refused before its attributes
/// are looked at.
pub open spec fn analysis(ast: DeriveInput) -> Result<ContainerView, Failure> {
    match data_shape(ast.data) {
        None => Err(Failure::UnsupportedUnion),
        Some(data) => match resolution(ast.attrs@) {
            Err(failure) => Err(failure),
            Ok(attrs) => Ok(ContainerView { ident: ast.ident@, attrs, data }),
        },
    }
}

impl ContainerView {
    /// The variants of a flat enumeration: those of an enum whose first
    /// variant has no fields. Only the first variant is looked at.
    pub open spec fn unit_variants(self) -> Option<Seq<VariantView>> {
        match self.data {
            DataView::Enum(variants) => if variants.len() > 0 && variants[0].style
                == Style::Unit {
                Some(variants)
            } else {
                None
            },
            DataView::Struct(_) => None,
        }
    }
}

impl<'a> Container<'a> {
    /// Analyses an annotated definition.
    pub fn from_ast(ast: &'a DeriveInput) -> (container: Result<Self, DeriveError>)
        ensures
            match container {
                Ok(found) => analysis(*ast) == Ok::<_, Failure>(found@) && found.original == ast,
                Err(error) => analysis(*ast) == Err::<ContainerView, _>(error@),
            },
    {
        let data = match &ast.data {
            ast::Data::Struct(data) => Data::Struct(struct_from_ast(data).1),
            ast::Data::Enum(data) => Data::Enum(enum_from_ast(data)),
            ast::Data::Union => {
                return Err(DeriveError::UnsupportedUnion);
            },
        };

        match Attributes::from_ast(ast) {
            Ok(attrs) => Ok(Container { ident: ast.ident.clone(), attrs, data, original: ast }),
            Err(error) => Err(error),
        }
    }

    /// The variants, if the container is an enum whose first variant has no
    /// fields.
    /// For instance
    /// ```rust
    /// enum Os {
    ///     Linux,
    ///     Windows,
    /// }
    /// ```
    /// gives both variants.
    pub fn unit_variants(&self) -> (variants: Option<&[Variant<'a>]>)
        ensures
            match variants {
                Some(found) => self@.unit_variants() == Some(variant_views(found@)),
                None => self@.unit_variants() is None,
            },
    {
        if let Data::Enum(ref variants) = self.data {
            if variants.len() > 0 {
                if let Style::Unit = variants[0].style {
                    assert(variant_views(variants@)[0] == variants@[0]@);
                    return Some(variants.as_slice());
                }
            }
        }
        None
    }
}

/// The style and the fields of a struct or of a variant.
pub fn struct_from_ast<'a>(fields: &'a ast::Fields) -> (shape: (Style, Vec<Field<'a>>))
    ensures
        shape.0 == style_of(*fields),
        field_views(shape.1@) == fields_of(*fields),
{
    match fields {
        ast::Fields::Named(named) => {
            if named.len() == 0 {
                (Style::Unit, fields_from_ast(named))
            } else {
                (Style::Struct, fields_from_ast(named))
            }
        },
        ast::Fields::Unnamed(unnamed) => {
            if unnamed.len() == 0 {
                (Style::Unit, fields_from_ast(unnamed))
            } else if unnamed.len() == 1 {
                (Style::Newtype, fields_from_ast(unnamed))
            } else {
                (Style::Tuple, fields_from_ast(unnamed))
            }
        },
        ast::Fields::Unit => {
            let none: Vec<Field<'a>> = Vec::new();
            assert(field_views(none@) == Seq::<FieldView>::empty());
            (Style::Unit, none)
        },
    }
}

/// The variants of an enum, in declaration order.
pub fn enum_from_ast<'a>(variants: &'a Vec<ast::Variant>) -> (shapes: Vec<Variant<'a>>)
    ensures
        variant_views(shapes@) == variant_shapes(variants@),
        shapes@.len() == variants@.len(),
        forall|i: int| 0 <= i < shapes@.len() ==> (#[trigger] shapes@[i]).original == &variants@[i],
{
    let mut shapes: Vec<Variant<'a>> = Vec::new();
    let mut i: usize = 0;
    while i < variants.len()
        invariant
            i <= variants.len(),
            shapes@.len() == i,
            forall|k: int| 0 <= k < i ==> (#[trigger] shapes@[k])@ == variant_shape(variants@[k]),
            forall|k: int| 0 <= k < i ==> (#[trigger] shapes@[k]).original == &variants@[k],
        decreases variants.len() - i,
    {
        let variant = &variants[i];
        let (style, fields) = struct_from_ast(&variant.fields);
        shapes.push(Variant { ident: variant.ident.clone(), fields, style, original: variant });
        i += 1;
    }
    assert(variant_views(shapes@) =~= variant_shapes(variants@));
    shapes
}

/// The fields of a list of declared fields, in declaration order.
pub fn fields_from_ast<'a>(fields: &'a Vec<ast::Field>) -> (shapes: Vec<Field<'a>>)
    ensures
        field_views(shapes@) == field_shapes(fields@),
        shapes@.len() == fields@.len(),
        forall|i: int| 0 <= i < shapes@.len() ==> (#[trigger] shapes@[i]).original == &fields@[i],
{
    let mut shapes: Vec<Field<'a>> = Vec::new();
    let mut i: usize = 0;
    while i < fields.len()
        invariant
            i <= fields.len(),
            shapes@.len() == i,
            forall|k: int| 0 <= k < i ==> (#[trigger] shapes@[k])@ == field_shape(fields@[k]),
            forall|k: int| 0 <= k < i ==> (#[trigger] shapes@[k]).original == &fields@[k],
        decreases fields.len() - i,
    {
        let field = &fields[i];
        let name = match &field.ident {
            Some(ident) => Some(ident.clone()),
            None => None,
        };
        shapes.push(Field { name, ty: &field.ty, original: field });
        i += 1;
    }
    assert(field_views(shapes@) =~= field_shapes(fields@));
    shapes
}

} // verus!
