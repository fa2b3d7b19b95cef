//! Records: their fields, the entry that mirrors a record, and the transform
//! that closes a record into its entry.

use vstd::prelude::*;
use vstd::string::*;
use crate::attrs::ConfigurationField;
use crate::attrs::DimensionSets;
use crate::attrs::MetricMode;
use crate::attrs::OwnershipKind;
use crate::attrs::RootAttributes;
use crate::attrs::RootAttributesView;
use crate::attrs::Warning;
use crate::attrs::WarningView;
use crate::attrs::spec_create_configuration;
use crate::attrs::spec_ownership_kind;
use crate::close_impl::CloseBody;
use crate::close_impl::CloseBodyView;
use crate::close_impl::CloseValueImpls;
use crate::close_impl::CloseValueImplsView;
use crate::close_impl::OnDropWrapper;
use crate::close_impl::OnDropWrapperView;
use crate::close_impl::RecordClose;
use crate::close_impl::RecordCloseView;
use crate::close_impl::generate_close_value_impls;
use crate::close_impl::generate_on_drop_wrapper;
use crate::close_impl::spec_close_value_impls;
use crate::entry_impl::EntryImpl;
use crate::entry_impl::EntryImplView;
use crate::entry_impl::generate_entry_impl;
use crate::entry_impl::spec_all_named;
use crate::entry_impl::spec_entry_impl;
use crate::field_attrs::MetricsFieldAttrs;
use crate::field_attrs::MetricsFieldAttrsView;
use crate::field_attrs::MetricsFieldKind;
use crate::field_attrs::MetricsFieldKindView;
use crate::field_attrs::spec_field_attrs;
use crate::field_attrs::spec_field_error;
use crate::inflect::HasInflectableName;
use crate::input::DeriveInput;
use crate::input::Field;
use crate::seqs::filter_map;
use crate::seqs::filter_map_indexed;
use crate::seqs::lemma_deep_view_push;
use crate::seqs::lemma_filter_map_indexed_step;
use crate::seqs::lemma_filter_map_step;
use crate::source::Attribute;
use crate::source::AttributeView;
use crate::source::Diagnostic;
use crate::source::DiagnosticView;
use crate::source::Span;
use crate::source::Syntax;
use crate::source::spec_error;
use crate::text::joined;
use crate::text::str_eq;
use crate::value_impl::ValueImpl;
use crate::value_impl::ValueImplView;
use crate::value_impl::generate_value_impl_for_struct;
use crate::value_impl::spec_value_impl;
use crate::value_impl::spec_value_impl_error;
use crate::value_impl::spec_value_struct_error;
use crate::value_impl::validate_value_impl_for_struct;

verus! {

/// How a field is reached: by its name, or by its place in a tuple.
#[derive(Debug, PartialEq, Eq)]
pub enum Member {
    Named(String),
    Unnamed(usize),
}

/// [`Member`] as it is specified: text as a sequence of characters, lists as
/// sequences.
pub ghost enum MemberView {
    Named(Seq<char>),
    Unnamed(usize),
}

impl DeepView for Member {
    type V = MemberView;

    open spec fn deep_view(&self) -> MemberView {
        match self {
            Member::Named(name) => MemberView::Named(name@),
            Member::Unnamed(index) => MemberView::Unnamed(*index),
        }
    }
}

impl View for Member {
    type V = MemberView;

    open spec fn view(&self) -> MemberView {
        self.deep_view()
    }
}

impl Clone for Member {
    fn clone(&self) -> (r: Member)
        ensures
            r@ == self@,
    {
        match self {
            Member::Named(name) => Member::Named(name.clone()),
            Member::Unnamed(index) => Member::Unnamed(*index),
        }
    }
}

/// A field with validated attributes.
#[derive(Debug, PartialEq, Eq)]
pub struct MetricsField {
    pub vis: Syntax,
    pub ident: Member,
    pub span: Span,
    pub ty: Syntax,
    pub external_attrs: Vec<Attribute>,
    pub attrs: MetricsFieldAttrs,
}

/// [`MetricsField`] as it is specified: text as a sequence of characters, lists as
/// sequences.
pub ghost struct MetricsFieldView {
    pub vis: Syntax,
    pub ident: MemberView,
    pub span: Span,
    pub ty: Syntax,
    pub external_attrs: Seq<AttributeView>,
    pub attrs: MetricsFieldAttrsView,
}

impl DeepView for MetricsField {
    type V = MetricsFieldView;

    open spec fn deep_view(&self) -> MetricsFieldView {
        MetricsFieldView {
            vis: self.vis,
            ident: self.ident@,
            span: self.span,
            ty: self.ty,
            external_attrs: self.external_attrs.deep_view(),
            attrs: self.attrs@,
        }
    }
}

impl View for MetricsField {
    type V = MetricsFieldView;

    open spec fn view(&self) -> MetricsFieldView {
        self.deep_view()
    }
}

impl MetricsFieldView {
    /// The name that overrides the declared one, which only a leaf field can
    /// have.
    pub open spec fn name_override(self) -> Option<Seq<char>> {
        match self.attrs.kind {
            MetricsFieldKindView::Field { name, .. } => name,
            _ => None,
        }
    }

    /// The declared name of a named field.
    pub open spec fn name(self) -> Seq<char> {
        match self.ident {
            MemberView::Named(name) => name,
            MemberView::Unnamed(_) => Seq::empty(),
        }
    }

    /// Whether the field has a name.
    pub open spec fn is_named(self) -> bool {
        self.ident is Named
    }

    /// Whether the field is left out of the entry.
    pub open spec fn is_ignored(self) -> bool {
        self.attrs.kind is Ignore
    }

    /// The unit of the value, which only a leaf field can have.
    pub open spec fn unit(self) -> Option<Syntax> {
        match self.attrs.kind {
            MetricsFieldKindView::Field { unit, .. } => unit,
            _ => None,
        }
    }
}

impl HasInflectableName for MetricsField {
    open spec fn spec_name_override(&self) -> Option<Seq<char>> {
        self@.name_override()
    }

    open spec fn spec_has_name(&self) -> bool {
        self@.is_named()
    }

    open spec fn spec_name(&self) -> Seq<char> {
        self@.name()
    }

    fn name_override(&self) -> (r: Option<&str>) {
        if let MetricsFieldKind::Field { name: Some(name), .. } = &self.attrs.kind {
            Some(name.as_str())
        } else {
            None
        }
    }

    fn name(&self) -> (r: String) {
        match &self.ident {
            Member::Named(name) => name.clone(),
            Member::Unnamed(_) => {
                String::new()
            },
        }
    }
}

/// Whether an attribute belongs to the schema compiler itself.
pub open spec fn spec_is_metrics(a: AttributeView) -> bool {
    a.path == "metrics"@
}

/// Keeps an attribute unless it belongs to the schema compiler.
pub open spec fn spec_keep_attr() -> spec_fn(AttributeView) -> Option<AttributeView> {
    |a: AttributeView|
        if spec_is_metrics(a) {
            None
        } else {
            Some(a)
        }
}

/// The attributes that stay on a declaration: all but the schema compiler's
/// own, in their order.
pub open spec fn spec_clean_attrs(attrs: Seq<AttributeView>) -> Seq<AttributeView> {
    filter_map(attrs, spec_keep_attr())
}

/// The attributes that stay on a declaration: all but the schema
/// compiler's own.
pub fn clean_attrs(attr: &[Attribute]) -> (r: Vec<Attribute>)
    ensures
        r.deep_view() == spec_clean_attrs(attr.deep_view()),
{
    let mut out: Vec<Attribute> = Vec::new();
    let mut i: usize = 0;
    while i < attr.len()
        invariant
            i <= attr.len(),
            out.deep_view() == filter_map(attr.deep_view().take(i as int), spec_keep_attr()),
        decreases attr.len() - i,
    {
        let a = &attr[i];
        proof {
            lemma_filter_map_step(attr.deep_view(), i as int, spec_keep_attr());
        }
        if !str_eq(a.path.as_str(), "metrics") {
            let ghost before = out;
            let c = a.clone();
            out.push(c);
            proof {
                lemma_deep_view_push(before, out, c);
            }
        }
        i += 1;
    }
    assert(attr.deep_view().take(attr.len() as int) =~= attr.deep_view());
    out
}

/// All the attributes, in their order.
pub fn copy_attrs(attr: &[Attribute]) -> (r: Vec<Attribute>)
    ensures
        r.deep_view() == attr.deep_view(),
{
    let mut out: Vec<Attribute> = Vec::new();
    let mut i: usize = 0;
    while i < attr.len()
        invariant
            i <= attr.len(),
            out.deep_view() =~= attr.deep_view().take(i as int),
        decreases attr.len() - i,
    {
        let ghost before = out;
        let c = attr[i].clone();
        out.push(c);
        proof {
            lemma_deep_view_push(before, out, c);
        }
        i += 1;
    }
    out
}

/// How the `index`-th field of a declaration is reached.
pub open spec fn spec_member(field: Field, index: int) -> MemberView {
    match field.ident {
        Some(ident) => MemberView::Named(ident.name@),
        None => MemberView::Unnamed(index as usize),
    }
}

/// The place that stands for a field: that of its name, or of its type where
/// it has no name.
pub open spec fn spec_field_span(field: Field) -> Span {
    match field.ident {
        Some(ident) => ident.span,
        None => field.ty_span,
    }
}

/// The first finding on a declared field, if there is one: the front-end's,
/// or that of validation.
pub open spec fn spec_parse_error(field: Field) -> Option<DiagnosticView> {
    match field.metrics {
        Err(d) => Some(d@),
        Ok(raw) => spec_field_error(raw),
    }
}

/// The `index`-th field of a declaration with the validated attributes
/// `attrs`.
pub open spec fn spec_parse_field(
    field: Field,
    attrs: MetricsFieldAttrsView,
    index: int,
) -> MetricsFieldView {
    MetricsFieldView {
        vis: field.vis,
        ident: spec_member(field, index),
        span: spec_field_span(field),
        ty: field.ty,
        external_attrs: spec_clean_attrs(field.attrs.deep_view()),
        attrs,
    }
}

/// Picks the validated field, where there is no finding on it.
pub open spec fn spec_pick_field() -> spec_fn(int, Field) -> Option<MetricsFieldView> {
    |index: int, field: Field|
        match field.metrics {
            Ok(raw) => if spec_field_error(raw) is None {
                Some(spec_parse_field(field, spec_field_attrs(raw), index))
            } else {
                None
            },
            Err(_) => None,
        }
}

/// Picks the finding on a field, where there is one.
pub open spec fn spec_pick_error() -> spec_fn(int, Field) -> Option<DiagnosticView> {
    |index: int, field: Field| spec_parse_error(field)
}

/// The findings on the fields of a declaration: the first on each field, in
/// the order of the fields.
pub open spec fn spec_field_errors(fields: Seq<Field>) -> Seq<DiagnosticView> {
    filter_map_indexed(fields, spec_pick_error())
}

/// The validated fields of a declaration, in their order.
pub open spec fn spec_parsed_fields(fields: Seq<Field>) -> Seq<MetricsFieldView> {
    filter_map_indexed(fields, spec_pick_field())
}

/// Validates the fields of a declaration. Every field is looked at, so that
/// the findings on all of them come back together.
pub fn parse_struct_fields(fields: &Vec<Field>) -> (r: Result<Vec<MetricsField>, Vec<Diagnostic>>)
    ensures
        match r {
            Ok(parsed) => spec_field_errors(fields@).len() == 0 && parsed.deep_view()
                == spec_parsed_fields(fields@),
            Err(errors) => errors.len() > 0 && errors.deep_view() == spec_field_errors(fields@),
        },
{
    let mut parsed_fields: Vec<MetricsField> = Vec::new();
    let mut errors: Vec<Diagnostic> = Vec::new();
    let mut i: usize = 0;
    while i < fields.len()
        invariant
            i <= fields.len(),
            parsed_fields.deep_view() == spec_parsed_fields(fields@.take(i as int)),
            errors.deep_view() == spec_field_errors(fields@.take(i as int)),
        decreases fields.len() - i,
    {
        let field = &fields[i];
        proof {
            lemma_filter_map_indexed_step(fields@, i as int, spec_pick_field());
            lemma_filter_map_indexed_step(fields@, i as int, spec_pick_error());
        }
        let (ident, span) = match &field.ident {
            Some(ident) => (Member::Named(ident.name.clone()), ident.span),
            None => (Member::Unnamed(i), field.ty_span),
        };
        let validated = match &field.metrics {
            Ok(raw) => raw.validate(),
            Err(d) => Err(d.clone()),
        };
        match validated {
            Ok(attrs) => {
                let ghost before = parsed_fields;
                let parsed = MetricsField {
                    ident,
                    span,
                    ty: field.ty,
                    vis: field.vis,
                    external_attrs: clean_attrs(field.attrs.as_slice()),
                    attrs,
                };
                parsed_fields.push(parsed);
                proof {
                    lemma_deep_view_push(before, parsed_fields, parsed);
                }
            },
            Err(e) => {
                let ghost before = errors;
                errors.push(e);
                proof {
                    lemma_deep_view_push(before, errors, e);
                }
            },
        }
        i += 1;
    }
    assert(fields@.take(fields.len() as int) =~= fields@);
    if errors.len() > 0 {
        Err(errors)
    } else {
        Ok(parsed_fields)
    }
}

/// A field as it stands in the declaration that is handed back: what was
/// declared, without the schema compiler's own attributes.
#[derive(Debug, PartialEq, Eq)]
pub struct CoreField {
    pub external_attrs: Vec<Attribute>,
    pub vis: Syntax,
    /// The name or place, where the declaration names its fields.
    pub ident: Option<Member>,
    pub ty: Syntax,
}

/// [`CoreField`] as it is specified: text as a sequence of characters, lists as
/// sequences.
pub ghost struct CoreFieldView {
    pub external_attrs: Seq<AttributeView>,
    pub vis: Syntax,
    pub ident: Option<MemberView>,
    pub ty: Syntax,
}

impl DeepView for CoreField {
    type V = CoreFieldView;

    open spec fn deep_view(&self) -> CoreFieldView {
        CoreFieldView {
            external_attrs: self.external_attrs.deep_view(),
            vis: self.vis,
            ident: self.ident.deep_view(),
            ty: self.ty,
        }
    }
}

impl View for CoreField {
    type V = CoreFieldView;

    open spec fn view(&self) -> CoreFieldView {
        self.deep_view()
    }
}

/// The type of a field of the entry: the declared type, closed where the
/// field is closed, then with the unit attached where one is declared.
#[derive(Clone, Copy, Debug, PartialEq, Eq, Structural)]
pub struct EntryType {
    pub declared: Syntax,
    pub closed: bool,
    pub unit: Option<Syntax>,
}

/// A field of the entry that mirrors a field of the schema.
#[derive(Debug, PartialEq, Eq)]
pub struct EntryField {
    /// The name or place, where the entry names its fields.
    pub ident: Option<Member>,
    pub ty: EntryType,
    pub span: Span,
}

/// [`EntryField`] as it is specified: text as a sequence of characters, lists as
/// sequences.
pub ghost struct EntryFieldView {
    pub ident: Option<MemberView>,
    pub ty: EntryType,
    pub span: Span,
}

impl DeepView for EntryField {
    type V = EntryFieldView;

    open spec fn deep_view(&self) -> EntryFieldView {
        EntryFieldView {
            ident: self.ident.deep_view(),
            ty: self.ty,
            span: self.span,
        }
    }
}

impl View for EntryField {
    type V = EntryFieldView;

    open spec fn view(&self) -> EntryFieldView {
        self.deep_view()
    }
}

/// A field of the entry of a record.
#[derive(Debug, PartialEq, Eq)]
pub enum EntryStructField {
    /// Holds configuration of the schema.
    Configuration(ConfigurationField),
    /// Mirrors a field of the schema.
    Field(EntryField),
}

/// [`EntryStructField`] as it is specified: text as a sequence of characters, lists as
/// sequences.
pub ghost enum EntryStructFieldView {
    Configuration(ConfigurationField),
    Field(EntryFieldView),
}

impl DeepView for EntryStructField {
    type V = EntryStructFieldView;

    open spec fn deep_view(&self) -> EntryStructFieldView {
        match self {
            EntryStructField::Configuration(c) => EntryStructFieldView::Configuration(*c),
            EntryStructField::Field(f) => EntryStructFieldView::Field(f@),
        }
    }
}

impl View for EntryStructField {
    type V = EntryStructFieldView;

    open spec fn view(&self) -> EntryStructFieldView {
        self.deep_view()
    }
}

/// How one field of the entry is filled when the schema is closed: the field
/// is accessed once, by reference or by value; it is closed if `close` is set;
/// the unit is attached afterwards if one is declared.
#[derive(Debug, PartialEq, Eq)]
pub struct CloseField {
    pub ident: Member,
    pub ownership: OwnershipKind,
    pub close: bool,
    pub unit: Option<Syntax>,
    pub span: Span,
}

/// [`CloseField`] as it is specified: text as a sequence of characters, lists as
/// sequences.
pub ghost struct CloseFieldView {
    pub ident: MemberView,
    pub ownership: OwnershipKind,
    pub close: bool,
    pub unit: Option<Syntax>,
    pub span: Span,
}

impl DeepView for CloseField {
    type V = CloseFieldView;

    open spec fn deep_view(&self) -> CloseFieldView {
        CloseFieldView {
            ident: self.ident@,
            ownership: self.ownership,
            close: self.close,
            unit: self.unit,
            span: self.span,
        }
    }
}

impl View for CloseField {
    type V = CloseFieldView;

    open spec fn view(&self) -> CloseFieldView {
        self.deep_view()
    }
}

/// The body of a record declaration: its fields, named or in a tuple.
#[derive(Debug, PartialEq, Eq)]
pub struct StructBody<F> {
    pub named: bool,
    pub fields: Vec<F>,
}

/// [`StructBody`] as it is specified: text as a sequence of characters, lists as
/// sequences.
pub ghost struct StructBodyView<V> {
    pub named: bool,
    pub fields: Seq<V>,
}

impl<F: DeepView> DeepView for StructBody<F> {
    type V = StructBodyView<F::V>;

    open spec fn deep_view(&self) -> StructBodyView<F::V> {
        StructBodyView { named: self.named, fields: self.fields.deep_view() }
    }
}

/// The declaration of a record.
#[derive(Debug, PartialEq, Eq)]
pub struct StructDecl {
    pub attrs: Vec<Attribute>,
    pub vis: Syntax,
    pub name: String,
    pub generics: Syntax,
    pub body: StructBody<CoreField>,
}

/// [`StructDecl`] as it is specified: text as a sequence of characters, lists as
/// sequences.
pub ghost struct StructDeclView {
    pub attrs: Seq<AttributeView>,
    pub vis: Syntax,
    pub name: Seq<char>,
    pub generics: Syntax,
    pub body: StructBodyView<CoreFieldView>,
}

impl DeepView for StructDecl {
    type V = StructDeclView;

    open spec fn deep_view(&self) -> StructDeclView {
        StructDeclView {
            attrs: self.attrs.deep_view(),
            vis: self.vis,
            name: self.name@,
            generics: self.generics,
            body: self.body.deep_view(),
        }
    }
}

impl View for StructDecl {
    type V = StructDeclView;

    open spec fn view(&self) -> StructDeclView {
        self.deep_view()
    }
}

/// The declaration of the entry of a record.
#[derive(Debug, PartialEq, Eq)]
pub struct EntryStruct {
    pub name: String,
    pub body: StructBody<EntryStructField>,
}

/// [`EntryStruct`] as it is specified: text as a sequence of characters, lists as
/// sequences.
pub ghost struct EntryStructView {
    pub name: Seq<char>,
    pub body: StructBodyView<EntryStructFieldView>,
}

impl DeepView for EntryStruct {
    type V = EntryStructView;

    open spec fn deep_view(&self) -> EntryStructView {
        EntryStructView {
            name: self.name@,
            body: self.body.deep_view(),
        }
    }
}

impl View for EntryStruct {
    type V = EntryStructView;

    open spec fn view(&self) -> EntryStructView {
        self.deep_view()
    }
}


/// The field as it stands in the declaration that is handed back.
pub open spec fn spec_core_field(f: MetricsFieldView, is_named: bool) -> CoreFieldView {
    CoreFieldView {
        external_attrs: f.external_attrs,
        vis: f.vis,
        ident: if is_named {
            Some(f.ident)
        } else {
            None
        },
        ty: f.ty,
    }
}

/// The field of the entry that mirrors `f`: none for an ignored field.
pub open spec fn spec_entry_field(f: MetricsFieldView, named: bool) -> Option<EntryFieldView> {
    if f.is_ignored() {
        None
    } else {
        Some(
            EntryFieldView {
                ident: if named {
                    Some(f.ident)
                } else {
                    None
                },
                ty: EntryType { declared: f.ty, closed: f.attrs.close, unit: f.unit() },
                span: f.span,
            },
        )
    }
}

/// How the field of the entry that mirrors `f` is filled.
pub open spec fn spec_close_value(f: MetricsFieldView, ownership: OwnershipKind) -> CloseFieldView {
    CloseFieldView { ident: f.ident, ownership, close: f.attrs.close, unit: f.unit(), span: f.span }
}

impl MetricsField {
    /// The field as it stands in the declaration that is handed back.
    pub fn core_field(&self, is_named: bool) -> (r: CoreField)
        ensures
            r@ == spec_core_field(self@, is_named),
    {
        CoreField {
            external_attrs: copy_attrs(self.external_attrs.as_slice()),
            vis: self.vis,
            ident: if is_named {
                Some(self.ident.clone())
            } else {
                None
            },
            ty: self.ty,
        }
    }

    /// The field of the entry that mirrors this field: none for an ignored
    /// field.
    pub fn entry_field(&self, named: bool) -> (r: Option<EntryField>)
        ensures
            r.deep_view() == spec_entry_field(self@, named),
    {
        if let MetricsFieldKind::Ignore(_span) = self.attrs.kind {
            return None;
        }
        let ty = EntryType { declared: self.ty, closed: self.attrs.close, unit: self.unit() };
        let ident = if named {
            Some(self.ident.clone())
        } else {
            None
        };
        Some(EntryField { ident, ty, span: self.span })
    }

    /// The unit of the value, which only a leaf field can have.
    pub fn unit(&self) -> (r: Option<Syntax>)
        ensures
            r == self@.unit(),
    {
        match &self.attrs.kind {
            MetricsFieldKind::Field { unit, .. } => *unit,
            _ => None,
        }
    }

    /// How the field of the entry that mirrors this field is filled.
    pub fn close_value(&self, ownership_kind: OwnershipKind) -> (r: CloseField)
        ensures
            r@ == spec_close_value(self@, ownership_kind),
    {
        CloseField {
            ident: self.ident.clone(),
            ownership: ownership_kind,
            close: self.attrs.close,
            unit: self.unit(),
            span: self.span,
        }
    }

    /// Whether the field is left out of the entry.
    pub fn is_ignored(&self) -> (r: bool)
        ensures
            r == self@.is_ignored(),
    {
        match &self.attrs.kind {
            MetricsFieldKind::Ignore(_) => true,
            _ => false,
        }
    }
}

/// Whether any of the fields has a name.
pub open spec fn spec_has_named_fields(fields: Seq<MetricsFieldView>) -> bool {
    exists|i: int| 0 <= i < fields.len() && (#[trigger] fields[i]).is_named()
}

/// Whether any of the fields has a name.
pub fn has_named_fields(fields: &[MetricsField]) -> (r: bool)
    ensures
        r == spec_has_named_fields(fields.deep_view()),
{
    let mut i: usize = 0;
    while i < fields.len()
        invariant
            i <= fields.len(),
            forall|j: int| 0 <= j < i ==> !(#[trigger] fields.deep_view()[j]).is_named(),
        decreases fields.len() - i,
    {
        match &fields[i].ident {
            Member::Named(_) => {
                assert(fields.deep_view()[i as int].is_named());
                return true;
            },
            Member::Unnamed(_) => {},
        }
        i += 1;
    }
    false
}

/// The body of a record declaration with the given fields.
pub fn wrap_fields_into_struct_decl<F>(has_named_fields: bool, fields: Vec<F>) -> (r: StructBody<F>)
    ensures
        r.named == has_named_fields,
        r.fields == fields,
{
    StructBody { named: has_named_fields, fields }
}

/// The fields as they stand in the declaration that is handed back.
pub open spec fn spec_core_fields(fields: Seq<MetricsFieldView>) -> Seq<CoreFieldView> {
    Seq::new(
        fields.len(),
        |i: int| spec_core_field(fields[i], spec_has_named_fields(fields)),
    )
}

/// The declaration of the record itself, handed back with the fields as
/// they were declared.
pub open spec fn spec_base_struct(
    name: Seq<char>,
    vis: Syntax,
    generics: Syntax,
    attrs: Seq<AttributeView>,
    fields: Seq<MetricsFieldView>,
) -> StructDeclView {
    StructDeclView {
        attrs,
        vis,
        name,
        generics,
        body: StructBodyView {
            named: spec_has_named_fields(fields),
            fields: spec_core_fields(fields),
        },
    }
}

/// The declaration of the record itself, without the schema compiler's
/// attributes.
pub fn generate_base_struct(
    name: &str,
    vis: Syntax,
    generics: Syntax,
    attrs: &[Attribute],
    fields: &[MetricsField],
) -> (r: StructDecl)
    ensures
        r@ == spec_base_struct(name@, vis, generics, attrs.deep_view(), fields.deep_view()),
{
    let named = has_named_fields(fields);
    let core = core_fields(fields, named);
    let body = wrap_fields_into_struct_decl(named, core);
    StructDecl { attrs: copy_attrs(attrs), vis, name: String::from_str(name), generics, body }
}

/// Picks the field of the entry that mirrors a field of the schema, where
/// there is one.
pub open spec fn spec_pick_entry_field(named: bool) -> spec_fn(MetricsFieldView) -> Option<
    EntryStructFieldView,
> {
    |f: MetricsFieldView|
        match spec_entry_field(f, named) {
            Some(e) => Some(EntryStructFieldView::Field(e)),
            None => None,
        }
}

/// The configuration fields at the head of the entry.
pub open spec fn spec_entry_configuration(dims: Option<DimensionSets>) -> Seq<
    EntryStructFieldView,
> {
    match dims {
        Some(_) => seq![EntryStructFieldView::Configuration(ConfigurationField::EntryDimensions)],
        None => seq![],
    }
}

/// The fields of the entry of a record: the configuration fields, then one
/// field for each field of the schema that is not ignored, in their order.
pub open spec fn spec_entry_struct_fields(
    dims: Option<DimensionSets>,
    fields: Seq<MetricsFieldView>,
) -> Seq<EntryStructFieldView> {
    spec_entry_configuration(dims) + filter_map(
        fields,
        spec_pick_entry_field(spec_has_named_fields(fields)),
    )
}

/// The declaration of the entry of a record.
pub open spec fn spec_entry_struct(
    name: Seq<char>,
    fields: Seq<MetricsFieldView>,
    root: RootAttributesView,
) -> EntryStructView {
    EntryStructView {
        name,
        body: StructBodyView {
            named: spec_has_named_fields(fields),
            fields: spec_entry_struct_fields(root.emf_dimensions, fields),
        },
    }
}

/// The declaration of the entry of a record.
pub fn generate_entry_struct(
    name: &str,
    _generics: Syntax,
    fields: &[MetricsField],
    root_attrs: &RootAttributes,
) -> (r: EntryStruct)
    ensures
        r@ == spec_entry_struct(name@, fields.deep_view(), root_attrs@),
{
    let named = has_named_fields(fields);
    let config = root_attrs.configuration_fields();
    let mut out: Vec<EntryStructField> = Vec::new();
    if config.len() > 0 {
        let ghost before = out;
        let c = EntryStructField::Configuration(config[0]);
        out.push(c);
        proof {
            lemma_deep_view_push(before, out, c);
        }
    }
    let ghost pick = spec_pick_entry_field(named);
    let mut i: usize = 0;
    while i < fields.len()
        invariant
            i <= fields.len(),
            pick == spec_pick_entry_field(named),
            out.deep_view() == spec_entry_configuration(root_attrs.emf_dimensions) + filter_map(
                fields.deep_view().take(i as int),
                pick,
            ),
        decreases fields.len() - i,
    {
        proof {
            lemma_filter_map_step(fields.deep_view(), i as int, pick);
        }
        if let Some(f) = fields[i].entry_field(named) {
            let ghost before = out;
            let e = EntryStructField::Field(f);
            out.push(e);
            proof {
                lemma_deep_view_push(before, out, e);
            }
        }
        i += 1;
    }
    assert(fields.deep_view().take(fields.len() as int) =~= fields.deep_view());
    let body = wrap_fields_into_struct_decl(named, out);
    EntryStruct { name: String::from_str(name), body }
}

/// How the entry of a record writes itself.
#[derive(Debug, PartialEq, Eq)]
pub enum InnerImpl {
    /// As a single value.
    Value(ValueImpl),
    /// As an entry, field by field.
    Entry(EntryImpl),
}

/// [`InnerImpl`] as it is specified: text as a sequence of characters, lists as
/// sequences.
pub ghost enum InnerImplView {
    Value(ValueImplView),
    Entry(EntryImplView),
}

impl DeepView for InnerImpl {
    type V = InnerImplView;

    open spec fn deep_view(&self) -> InnerImplView {
        match self {
            InnerImpl::Value(v) => InnerImplView::Value(v@),
            InnerImpl::Entry(e) => InnerImplView::Entry(e@),
        }
    }
}

impl View for InnerImpl {
    type V = InnerImplView;

    open spec fn view(&self) -> InnerImplView {
        self.deep_view()
    }
}

/// All that is generated for a record.
#[derive(Debug, PartialEq, Eq)]
pub struct RecordMetrics {
    /// The record itself, without the schema compiler's attributes.
    pub base_struct: StructDecl,
    pub warnings: Vec<Warning>,
    pub entry_struct: EntryStruct,
    pub inner_impl: InnerImpl,
    pub close_value_impl: CloseValueImpls,
    /// The guard and the handle, for a root entry.
    pub root_entry_specifics: Option<OnDropWrapper>,
}

/// [`RecordMetrics`] as it is specified: text as a sequence of characters, lists as
/// sequences.
pub ghost struct RecordMetricsView {
    pub base_struct: StructDeclView,
    pub warnings: Seq<WarningView>,
    pub entry_struct: EntryStructView,
    pub inner_impl: InnerImplView,
    pub close_value_impl: CloseValueImplsView,
    pub root_entry_specifics: Option<OnDropWrapperView>,
}

impl DeepView for RecordMetrics {
    type V = RecordMetricsView;

    open spec fn deep_view(&self) -> RecordMetricsView {
        RecordMetricsView {
            base_struct: self.base_struct@,
            warnings: self.warnings.deep_view(),
            entry_struct: self.entry_struct@,
            inner_impl: self.inner_impl@,
            close_value_impl: self.close_value_impl@,
            root_entry_specifics: self.root_entry_specifics.deep_view(),
        }
    }
}

impl View for RecordMetrics {
    type V = RecordMetricsView;

    open spec fn view(&self) -> RecordMetricsView {
        self.deep_view()
    }
}


/// Picks how the field of the entry is filled, for a field that is not
/// ignored.
pub open spec fn spec_pick_close(ownership: OwnershipKind) -> spec_fn(MetricsFieldView) -> Option<
    CloseFieldView,
> {
    |f: MetricsFieldView|
        if f.is_ignored() {
            None
        } else {
            Some(spec_close_value(f, ownership))
        }
}

/// How the fields of the entry are filled: one access for each field of the
/// schema that is not ignored, in the order of the fields.
pub open spec fn spec_close_fields(
    fields: Seq<MetricsFieldView>,
    ownership: OwnershipKind,
) -> Seq<CloseFieldView> {
    filter_map(fields, spec_pick_close(ownership))
}

/// How the fields of the entry are filled.
pub fn close_fields(fields: &[MetricsField], ownership: OwnershipKind) -> (r: Vec<CloseField>)
    ensures
        r.deep_view() == spec_close_fields(fields.deep_view(), ownership),
{
    let mut out: Vec<CloseField> = Vec::new();
    let ghost pick = spec_pick_close(ownership);
    let mut i: usize = 0;
    while i < fields.len()
        invariant
            i <= fields.len(),
            pick == spec_pick_close(ownership),
            out.deep_view() == filter_map(fields.deep_view().take(i as int), pick),
        decreases fields.len() - i,
    {
        proof {
            lemma_filter_map_step(fields.deep_view(), i as int, pick);
        }
        if !fields[i].is_ignored() {
            let ghost before = out;
            let c = fields[i].close_value(ownership);
            out.push(c);
            proof {
                lemma_deep_view_push(before, out, c);
            }
        }
        i += 1;
    }
    assert(fields.deep_view().take(fields.len() as int) =~= fields.deep_view());
    out
}

/// The closing of a record into its entry.
pub open spec fn spec_close_value_impls_for_struct(
    metrics_struct: Seq<char>,
    entry: Seq<char>,
    fields: Seq<MetricsFieldView>,
    root: RootAttributesView,
) -> CloseValueImplsView {
    spec_close_value_impls(
        root,
        metrics_struct,
        entry,
        CloseBodyView::Record(
            RecordCloseView {
                entry,
                config: spec_create_configuration(root.emf_dimensions),
                fields: spec_close_fields(fields, spec_ownership_kind(root.mode)),
            },
        ),
    )
}

/// The closing of a record into its entry.
pub fn generate_close_value_impls_for_struct(
    metrics_struct: &str,
    entry: &str,
    fields: &[MetricsField],
    root_attrs: &RootAttributes,
) -> (r: CloseValueImpls)
    ensures
        r@ == spec_close_value_impls_for_struct(
            metrics_struct@,
            entry@,
            fields.deep_view(),
            root_attrs@,
        ),
{
    let fields = close_fields(fields, root_attrs.ownership_kind());
    let config = root_attrs.create_configuration();
    generate_close_value_impls(
        root_attrs,
        metrics_struct,
        entry,
        CloseBody::Record(RecordClose { entry: String::from_str(entry), config, fields }),
    )
}

/// A declared field without the schema compiler's attributes.
pub open spec fn spec_clean_field(field: Field, named: bool) -> CoreFieldView {
    CoreFieldView {
        external_attrs: spec_clean_attrs(field.attrs.deep_view()),
        vis: field.vis,
        ident: match field.ident {
            Some(ident) => if named {
                Some(MemberView::Named(ident.name@))
            } else {
                None
            },
            None => None,
        },
        ty: field.ty,
    }
}

/// The declared fields without the schema compiler's attributes.
pub open spec fn spec_clean_fields(fields: Seq<Field>, named: bool) -> Seq<CoreFieldView> {
    Seq::new(fields.len(), |i: int| spec_clean_field(fields[i], named))
}

/// The fields of a declaration, each without the schema compiler's
/// attributes.
pub fn clean_fields(fields: &[Field], named: bool) -> (r: Vec<CoreField>)
    ensures
        r.deep_view() == spec_clean_fields(fields@, named),
{
    let mut out: Vec<CoreField> = Vec::new();
    let mut i: usize = 0;
    while i < fields.len()
        invariant
            i <= fields.len(),
            out.deep_view().len() == i,
            forall|j: int|
                0 <= j < i ==> #[trigger] out.deep_view()[j] == spec_clean_field(fields@[j], named),
        decreases fields.len() - i,
    {
        let field = &fields[i];
        let ident = match &field.ident {
            Some(ident) => if named {
                Some(Member::Named(ident.name.clone()))
            } else {
                None
            },
            None => None,
        };
        let ghost before = out;
        let c = CoreField {
            external_attrs: clean_attrs(field.attrs.as_slice()),
            vis: field.vis,
            ident,
            ty: field.ty,
        };
        out.push(c);
        proof {
            lemma_deep_view_push(before, out, c);
        }
        i += 1;
    }
    out
}

/// The declaration of a record as it was written, without the schema
/// compiler's attributes on its fields.
pub open spec fn spec_clean_struct(
    vis: Syntax,
    struct_name: Seq<char>,
    generics: Syntax,
    filtered_attrs: Seq<AttributeView>,
    fields: Seq<Field>,
    named: bool,
) -> StructDeclView {
    StructDeclView {
        attrs: filtered_attrs,
        vis,
        name: struct_name,
        generics,
        body: StructBodyView { named, fields: spec_clean_fields(fields, named) },
    }
}

/// A record with named fields as it was written, without the schema
/// compiler's attributes.
pub fn clean_base_struct(
    vis: Syntax,
    struct_name: &str,
    generics: Syntax,
    filtered_attrs: Vec<Attribute>,
    fields: &[Field],
) -> (r: StructDecl)
    ensures
        r@ == spec_clean_struct(
            vis,
            struct_name@,
            generics,
            filtered_attrs.deep_view(),
            fields@,
            true,
        ),
{
    let clean = clean_fields(fields, true);
    StructDecl {
        attrs: filtered_attrs,
        vis,
        name: String::from_str(struct_name),
        generics,
        body: wrap_fields_into_struct_decl(true, clean),
    }
}

/// A tuple record as it was written, without the schema compiler's
/// attributes.
pub fn clean_base_unnamed_struct(
    vis: Syntax,
    struct_name: &str,
    generics: Syntax,
    filtered_attrs: Vec<Attribute>,
    fields: &[Field],
) -> (r: StructDecl)
    ensures
        r@ == spec_clean_struct(
            vis,
            struct_name@,
            generics,
            filtered_attrs.deep_view(),
            fields@,
            false,
        ),
{
    let clean = clean_fields(fields, false);
    StructDecl {
        attrs: filtered_attrs,
        vis,
        name: String::from_str(struct_name),
        generics,
        body: wrap_fields_into_struct_decl(false, clean),
    }
}

/// The name of the entry of a schema.
pub open spec fn spec_entry_name(struct_name: Seq<char>, mode: MetricMode) -> Seq<char> {
    if mode == MetricMode::Value {
        struct_name + "Value"@
    } else {
        struct_name + "Entry"@
    }
}

/// The findings on a record, if there are any: those on its fields, all of
/// them; or else the first on the record as a whole.
pub open spec fn spec_struct_findings(
    root: RootAttributesView,
    input: DeriveInput,
    fields: Seq<Field>,
) -> Seq<DiagnosticView> {
    let errors = spec_field_errors(fields);
    let parsed = spec_parsed_fields(fields);
    if errors.len() > 0 {
        errors
    } else if root.mode == MetricMode::Value {
        match spec_value_struct_error(root, input.ident.span, parsed) {
            Some(e) => seq![e],
            None => match spec_value_impl_error(parsed) {
                Some(e) => seq![e],
                None => seq![],
            },
        }
    } else if !spec_all_named(parsed) {
        seq![spec_error("Only named fields are supported"@, input.span)]
    } else {
        seq![]
    }
}

/// All that is generated for a record on which there is no finding.
pub open spec fn spec_struct_metrics(
    root: RootAttributesView,
    input: DeriveInput,
    fields: Seq<Field>,
) -> RecordMetricsView {
    let parsed = spec_parsed_fields(fields);
    let struct_name = input.ident.name@;
    let entry_name = spec_entry_name(struct_name, root.mode);
    RecordMetricsView {
        base_struct: spec_base_struct(
            struct_name,
            input.vis,
            input.generics,
            input.attrs.deep_view(),
            parsed,
        ),
        warnings: seq![],
        entry_struct: spec_entry_struct(entry_name, parsed, root),
        inner_impl: if root.mode == MetricMode::Value {
            InnerImplView::Value(spec_value_impl(root, entry_name, parsed))
        } else {
            InnerImplView::Entry(spec_entry_impl(entry_name, parsed, root))
        },
        close_value_impl: spec_close_value_impls_for_struct(struct_name, entry_name, parsed, root),
        root_entry_specifics: if root.mode == MetricMode::RootEntry {
            Some(
                OnDropWrapperView {
                    vis: input.vis,
                    guard: struct_name + "Guard"@,
                    inner: struct_name,
                    target: entry_name,
                    handle: struct_name + "Handle"@,
                },
            )
        } else {
            None
        },
    }
}

/// Whether every field has a name.
pub fn all_named(fields: &[MetricsField]) -> (r: bool)
    ensures
        r == spec_all_named(fields.deep_view()),
{
    let mut i: usize = 0;
    while i < fields.len()
        invariant
            i <= fields.len(),
            forall|j: int| 0 <= j < i ==> (#[trigger] fields.deep_view()[j]).is_named(),
        decreases fields.len() - i,
    {
        match &fields[i].ident {
            Member::Named(_) => {},
            Member::Unnamed(_) => {
                assert(!fields.deep_view()[i as int].is_named());
                return false;
            },
        }
        i += 1;
    }
    true
}

/// Compiles a record: all findings on it, or all that is generated for it.
pub fn generate_metrics_for_struct(
    root_attributes: RootAttributes,
    input: &DeriveInput,
    fields: &Vec<Field>,
) -> (r: Result<RecordMetrics, Vec<Diagnostic>>)
    ensures
        match r {
            Ok(m) => spec_struct_findings(root_attributes@, *input, fields@).len() == 0 && m@
                == spec_struct_metrics(root_attributes@, *input, fields@),
            Err(errors) => errors.len() > 0 && errors.deep_view() == spec_struct_findings(
                root_attributes@,
                *input,
                fields@,
            ),
        },
{
    let struct_name = input.ident.name.as_str();
    let entry_name = if root_attributes.mode == MetricMode::Value {
        joined(struct_name, "Value")
    } else {
        joined(struct_name, "Entry")
    };
    let guard_name = joined(struct_name, "Guard");
    let handle_name = joined(struct_name, "Handle");
    let parsed_fields = match parse_struct_fields(fields) {
        Ok(parsed) => parsed,
        Err(errors) => {
            return Err(errors);
        },
    };
    let base_struct = generate_base_struct(
        struct_name,
        input.vis,
        input.generics,
        input.attrs.as_slice(),
        parsed_fields.as_slice(),
    );
    let warnings = root_attributes.warnings();
    assert(warnings.deep_view() =~= Seq::empty());
    let entry_struct = generate_entry_struct(
        entry_name.as_str(),
        input.generics,
        parsed_fields.as_slice(),
        &root_attributes,
    );
    let inner_impl = match root_attributes.mode {
        MetricMode::Value => {
            match validate_value_impl_for_struct(
                &root_attributes,
                input.ident.span,
                parsed_fields.as_slice(),
            ) {
                Ok(_) => {},
                Err(e) => {
                    return Err(single(e));
                },
            }
            match generate_value_impl_for_struct(
                &root_attributes,
                entry_name.as_str(),
                parsed_fields.as_slice(),
            ) {
                Ok(v) => InnerImpl::Value(v),
                Err(e) => {
                    return Err(single(e));
                },
            }
        },
        _ => {
            if !all_named(parsed_fields.as_slice()) {
                return Err(single(Diagnostic::new("Only named fields are supported", input.span)));
            }
            InnerImpl::Entry(
                generate_entry_impl(
                    entry_name.as_str(),
                    parsed_fields.as_slice(),
                    &root_attributes,
                ),
            )
        },
    };
    let close_value_impl = generate_close_value_impls_for_struct(
        struct_name,
        entry_name.as_str(),
        parsed_fields.as_slice(),
        &root_attributes,
    );
    let root_entry_specifics = match root_attributes.mode {
        MetricMode::RootEntry => Some(
            generate_on_drop_wrapper(
                input.vis,
                guard_name.as_str(),
                struct_name,
                entry_name.as_str(),
                handle_name.as_str(),
            ),
        ),
        MetricMode::Subfield
        | MetricMode::SubfieldOwned
        | MetricMode::ValueString
        | MetricMode::Value => None,
    };
    Ok(
        RecordMetrics {
            base_struct,
            warnings,
            entry_struct,
            inner_impl,
            close_value_impl,
            root_entry_specifics,
        },
    )
}

/// The one finding, as a list.
pub fn single(d: Diagnostic) -> (r: Vec<Diagnostic>)
    ensures
        r.deep_view() == seq![d@],
        r.len() == 1,
{
    let mut v: Vec<Diagnostic> = Vec::new();
    v.push(d);
    v
}

/// Picks the field of the entry of a case that mirrors a field of the case,
/// where there is one.
pub open spec fn spec_pick_variant_entry_field(named: bool) -> spec_fn(MetricsFieldView) -> Option<
    EntryFieldView,
> {
    |f: MetricsFieldView| spec_entry_field(f, named)
}

/// The fields of the entry that mirror the given fields: one for each field
/// that is not ignored, in their order.
pub open spec fn spec_entry_fields(fields: Seq<MetricsFieldView>, named: bool) -> Seq<
    EntryFieldView,
> {
    filter_map(fields, spec_pick_variant_entry_field(named))
}

/// The fields of the entry that mirror the given fields.
pub fn entry_fields(fields: &[MetricsField], named: bool) -> (r: Vec<EntryField>)
    ensures
        r.deep_view() == spec_entry_fields(fields.deep_view(), named),
{
    let mut out: Vec<EntryField> = Vec::new();
    let ghost pick = spec_pick_variant_entry_field(named);
    let mut i: usize = 0;
    while i < fields.len()
        invariant
            i <= fields.len(),
            pick == spec_pick_variant_entry_field(named),
            out.deep_view() == filter_map(fields.deep_view().take(i as int), pick),
        decreases fields.len() - i,
    {
        proof {
            lemma_filter_map_step(fields.deep_view(), i as int, pick);
        }
        if let Some(f) = fields[i].entry_field(named) {
            let ghost before = out;
            out.push(f);
            proof {
                lemma_deep_view_push(before, out, f);
            }
        }
        i += 1;
    }
    assert(fields.deep_view().take(fields.len() as int) =~= fields.deep_view());
    out
}

/// The given fields as they stand in a declaration, all named or all not.
pub open spec fn spec_core_fields_as(fields: Seq<MetricsFieldView>, named: bool) -> Seq<
    CoreFieldView,
> {
    Seq::new(fields.len(), |i: int| spec_core_field(fields[i], named))
}

/// The given fields as they stand in a declaration.
pub fn core_fields(fields: &[MetricsField], named: bool) -> (r: Vec<CoreField>)
    ensures
        r.deep_view() == spec_core_fields_as(fields.deep_view(), named),
{
    let mut core: Vec<CoreField> = Vec::new();
    let mut i: usize = 0;
    while i < fields.len()
        invariant
            i <= fields.len(),
            core.deep_view().len() == i,
            forall|j: int|
                0 <= j < i ==> #[trigger] core.deep_view()[j] == spec_core_field(
                    fields.deep_view()[j],
                    named,
                ),
        decreases fields.len() - i,
    {
        let ghost before = core;
        let f = fields[i].core_field(named);
        core.push(f);
        proof {
            lemma_deep_view_push(before, core, f);
        }
        i += 1;
    }
    core
}

} // verus!
