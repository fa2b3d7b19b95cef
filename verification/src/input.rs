//! A declaration as the front-end found it.

use vstd::prelude::*;
use vstd::string::*;
use crate::enums::RawMetricsVariantAttrs;
use crate::field_attrs::RawMetricsFieldAttrs;
use crate::source::Attribute;
use crate::source::Diagnostic;
use crate::source::Ident;
use crate::source::Span;
use crate::source::Syntax;

verus! {

/// A field as the front-end found it. `metrics` holds its metric
/// attributes, or the finding that the front-end made on them.
#[derive(Debug, PartialEq, Eq)]
pub struct Field {
    pub attrs: Vec<Attribute>,
    pub vis: Syntax,
    pub ident: Option<Ident>,
    pub ty: Syntax,
    pub ty_span: Span,
    pub metrics: Result<RawMetricsFieldAttrs, Diagnostic>,
}

/// The fields of a record or of a case of a union.
#[derive(Debug, PartialEq, Eq)]
pub enum Fields {
    Named(Vec<Field>),
    Unnamed(Vec<Field>),
    Unit,
}

/// A case of a union as the front-end found it. `metrics` holds its metric
/// attributes, or the finding that the front-end made on them.
#[derive(Debug, PartialEq, Eq)]
pub struct Variant {
    pub attrs: Vec<Attribute>,
    pub ident: Ident,
    pub fields: Fields,
    /// The place of the whole case.
    pub span: Span,
    pub metrics: Result<RawMetricsVariantAttrs, Diagnostic>,
}

/// What a declaration declares.
#[derive(Debug, PartialEq, Eq)]
pub enum Data {
    Struct(Fields),
    Enum(Vec<Variant>),
    /// An untagged union, which no schema can be.
    Union,
}

/// A declaration that is to be compiled as a schema.
#[derive(Debug, PartialEq, Eq)]
pub struct DeriveInput {
    pub attrs: Vec<Attribute>,
    pub vis: Syntax,
    pub ident: Ident,
    pub generics: Syntax,
    pub data: Data,
    /// The place of the whole declaration.
    pub span: Span,
}

impl Field {
    /// A named field with the given metric attributes and no others.
    pub fn named(name: &str, span: Span, ty: Syntax, metrics: RawMetricsFieldAttrs) -> (r: Field)
        ensures
            r.attrs@.len() == 0,
            r.vis == (Syntax { id: 0 }),
            r.ident is Some,
            r.ident.unwrap().name@ == name@,
            r.ident.unwrap().span == span,
            r.ty == ty,
            r.ty_span == span,
            r.metrics == Ok::<RawMetricsFieldAttrs, Diagnostic>(metrics),
    {
        Field {
            attrs: Vec::new(),
            vis: Syntax { id: 0 },
            ident: Some(Ident { name: String::from_str(name), span }),
            ty,
            ty_span: span,
            metrics: Ok(metrics),
        }
    }

    /// A field of a tuple with the given metric attributes and no others.
    pub fn unnamed(ty: Syntax, ty_span: Span, metrics: RawMetricsFieldAttrs) -> (r: Field)
        ensures
            r.attrs@.len() == 0,
            r.vis == (Syntax { id: 0 }),
            r.ident is None,
            r.ty == ty,
            r.ty_span == ty_span,
            r.metrics == Ok::<RawMetricsFieldAttrs, Diagnostic>(metrics),
    {
        Field {
            attrs: Vec::new(),
            vis: Syntax { id: 0 },
            ident: None,
            ty,
            ty_span,
            metrics: Ok(metrics),
        }
    }
}

impl Variant {
    /// A case with the given fields and metric attributes and no other
    /// attributes.
    pub fn new(name: &str, span: Span, fields: Fields, metrics: RawMetricsVariantAttrs) -> (r:
        Variant)
        ensures
            r.attrs@.len() == 0,
            r.ident.name@ == name@,
            r.ident.span == span,
            r.span == span,
            r.fields == fields,
            r.metrics == Ok::<RawMetricsVariantAttrs, Diagnostic>(metrics),
    {
        Variant {
            attrs: Vec::new(),
            ident: Ident { name: String::from_str(name), span },
            fields,
            span,
            metrics: Ok(metrics),
        }
    }
}

impl DeriveInput {
    /// A declaration of the given name that carries no attributes of its
    /// own.
    pub fn new(name: &str, span: Span, data: Data) -> (r: DeriveInput)
        ensures
            r.attrs@.len() == 0,
            r.vis == (Syntax { id: 0 }),
            r.generics == (Syntax { id: 0 }),
            r.ident.name@ == name@,
            r.ident.span == span,
            r.span == span,
            r.data == data,
    {
        DeriveInput {
            attrs: Vec::new(),
            vis: Syntax { id: 0 },
            ident: Ident { name: String::from_str(name), span },
            generics: Syntax { id: 0 },
            data,
            span,
        }
    }
}

} // verus!
