//! Unions: their cases, the entry that mirrors a union, and how it writes
//! and closes itself.

use vstd::prelude::*;
use vstd::string::*;
use crate::attrs::MetricMode;
use crate::attrs::OwnershipKind;
use crate::attrs::RootAttributes;
use crate::attrs::RootAttributesView;
use crate::attrs::Warning;
use crate::attrs::WarningView;
use crate::attrs::spec_ownership_kind;
use crate::attrs::spec_validate_name;
use crate::attrs::validate_name;
use crate::chain::Chain;
use crate::chain::ChainView;
use crate::chain::make_binary_tree_chain;
use crate::chain::spec_chain;
use crate::close_impl::CloseArm;
use crate::close_impl::CloseArmData;
use crate::close_impl::CloseArmDataView;
use crate::close_impl::CloseArmView;
use crate::close_impl::CloseBody;
use crate::close_impl::CloseBodyView;
use crate::close_impl::CloseValueImpls;
use crate::close_impl::CloseValueImplsView;
use crate::close_impl::OnDropWrapper;
use crate::close_impl::OnDropWrapperView;
use crate::close_impl::generate_close_value_impls;
use crate::close_impl::generate_on_drop_wrapper;
use crate::close_impl::spec_close_value_impls;
use crate::entry_impl::Namespace;
use crate::entry_impl::NamespaceView;
use crate::entry_impl::SampleGroupStatement;
use crate::entry_impl::SampleGroupStatementView;
use crate::entry_impl::WriteStatement;
use crate::entry_impl::WriteStatementView;
use crate::entry_impl::extend_namespace;
use crate::entry_impl::field_write_statements;
use crate::entry_impl::make_ns;
use crate::entry_impl::sample_group_sources;
use crate::entry_impl::spec_all_named;
use crate::entry_impl::spec_make_ns;
use crate::entry_impl::spec_pick_write;
use crate::entry_impl::spec_prefix_layer;
use crate::entry_impl::spec_sample_group_sources;
use crate::field_attrs::MetricsFieldKind;
use crate::field_attrs::MetricsFieldKindView;
use crate::inflect::HasInflectableName;
use crate::inflect::metric_name;
use crate::inflect::spec_metric_name;
use crate::input::DeriveInput;
use crate::input::Field;
use crate::input::Fields;
use crate::input::Variant;
use crate::seqs::filter_map;
use crate::seqs::flat_map;
use crate::seqs::lemma_deep_view_append;
use crate::seqs::lemma_deep_view_push;
use crate::seqs::lemma_filter_map_indexed_count;
use crate::seqs::lemma_filter_map_step;
use crate::seqs::lemma_flat_map_step;
use crate::source::AttrName;
use crate::source::Attribute;
use crate::source::AttributeView;
use crate::source::Diagnostic;
use crate::source::DiagnosticView;
use crate::source::Flag;
use crate::source::Ident;
use crate::source::IdentView;
use crate::source::Span;
use crate::source::SpannedKv;
use crate::source::Syntax;
use crate::source::spec_error;
use crate::structs::CoreField;
use crate::structs::CoreFieldView;
use crate::structs::EntryField;
use crate::structs::EntryFieldView;
use crate::structs::MetricsField;
use crate::structs::MetricsFieldView;
use crate::structs::all_named;
use crate::structs::clean_attrs;
use crate::structs::close_fields;
use crate::structs::copy_attrs;
use crate::structs::core_fields;
use crate::structs::entry_fields;
use crate::structs::parse_struct_fields;
use crate::structs::single;
use crate::structs::spec_clean_attrs;
use crate::structs::spec_close_fields;
use crate::structs::spec_close_value;
use crate::structs::spec_core_field;
use crate::structs::spec_core_fields_as;
use crate::structs::spec_entry_field;
use crate::structs::spec_entry_fields;
use crate::structs::spec_field_errors;
use crate::structs::spec_parsed_fields;
use crate::structs::spec_pick_error;
use crate::structs::spec_pick_field;
use crate::text::joined;
use crate::value_impl::UnionValueImpl;
use crate::value_impl::UnionValueImplView;
use crate::value_impl::generate_value_impl_for_enum;

verus! {

/// What a union is compiled into.
#[derive(Clone, Copy, Debug, PartialEq, Eq, Structural)]
pub enum UnionKind {
    /// A value that is written as the name of its case.
    ValueString,
    /// An entry whose fields are those of its case.
    Entry,
}

/// The attributes of a case as declared. Only `name` belongs on a case; the
/// others are recorded so that they can be refused.
#[derive(Debug, Clone, PartialEq, Eq)]
pub struct RawMetricsVariantAttrs {
    pub name: Option<SpannedKv<String>>,
    pub unit: Flag,
    pub timestamp: Flag,
    pub flatten: Flag,
    pub sample_group: Flag,
}

/// The validated attributes of a case.
#[derive(Debug, PartialEq, Eq)]
pub struct MetricsVariantAttrs {
    /// The name that overrides the declared one.
    pub name: Option<String>,
}

/// [`MetricsVariantAttrs`] as it is specified: text as a sequence of characters, lists as
/// sequences.
pub ghost struct MetricsVariantAttrsView {
    pub name: Option<Seq<char>>,
}

impl DeepView for MetricsVariantAttrs {
    type V = MetricsVariantAttrsView;

    open spec fn deep_view(&self) -> MetricsVariantAttrsView {
        MetricsVariantAttrsView {
            name: self.name.deep_view(),
        }
    }
}

impl View for MetricsVariantAttrs {
    type V = MetricsVariantAttrsView;

    open spec fn view(&self) -> MetricsVariantAttrsView {
        self.deep_view()
    }
}

/// What a case holds.
#[derive(Debug, PartialEq, Eq)]
pub enum VariantData {
    /// Nothing.
    Unit,
    /// One field, reached by its place.
    Tuple(MetricsField),
    /// Named fields.
    Struct(Vec<MetricsField>),
}

/// [`VariantData`] as it is specified: text as a sequence of characters, lists as
/// sequences.
pub ghost enum VariantDataView {
    Unit,
    Tuple(MetricsFieldView),
    Struct(Seq<MetricsFieldView>),
}

impl DeepView for VariantData {
    type V = VariantDataView;

    open spec fn deep_view(&self) -> VariantDataView {
        match self {
            VariantData::Unit => VariantDataView::Unit,
            VariantData::Tuple(f) => VariantDataView::Tuple(f@),
            VariantData::Struct(fields) => VariantDataView::Struct(fields.deep_view()),
        }
    }
}

impl View for VariantData {
    type V = VariantDataView;

    open spec fn view(&self) -> VariantDataView {
        self.deep_view()
    }
}

/// A case with validated attributes.
#[derive(Debug, PartialEq, Eq)]
pub struct MetricsVariant {
    pub ident: Ident,
    pub external_attrs: Vec<Attribute>,
    pub attrs: MetricsVariantAttrs,
    pub data: VariantData,
}

/// [`MetricsVariant`] as it is specified: text as a sequence of characters, lists as
/// sequences.
pub ghost struct MetricsVariantView {
    pub ident: IdentView,
    pub external_attrs: Seq<AttributeView>,
    pub attrs: MetricsVariantAttrsView,
    pub data: VariantDataView,
}

impl DeepView for MetricsVariant {
    type V = MetricsVariantView;

    open spec fn deep_view(&self) -> MetricsVariantView {
        MetricsVariantView {
            ident: self.ident@,
            external_attrs: self.external_attrs.deep_view(),
            attrs: self.attrs@,
            data: self.data@,
        }
    }
}

impl View for MetricsVariant {
    type V = MetricsVariantView;

    open spec fn view(&self) -> MetricsVariantView {
        self.deep_view()
    }
}


impl HasInflectableName for MetricsVariant {
    open spec fn spec_name_override(&self) -> Option<Seq<char>> {
        self@.attrs.name
    }

    open spec fn spec_has_name(&self) -> bool {
        true
    }

    open spec fn spec_name(&self) -> Seq<char> {
        self@.ident.name
    }

    fn name_override(&self) -> (r: Option<&str>) {
        match &self.attrs.name {
            Some(name) => Some(name.as_str()),
            None => None,
        }
    }

    fn name(&self) -> (r: String) {
        self.ident.name.clone()
    }
}

/// The finding that an attribute is declared where it is not known.
pub open spec fn spec_unknown_attr(attr: AttrName, span: Span) -> DiagnosticView {
    spec_error("Unknown field: `"@ + attr.spec_text() + "`"@, span)
}

/// The finding on a flag that does not belong on a case, if it is present.
pub open spec fn spec_flag_finding(attr: AttrName, flag: Flag) -> Seq<DiagnosticView> {
    if flag.present {
        seq![spec_unknown_attr(attr, flag.span)]
    } else {
        seq![]
    }
}

/// The finding on the name of a case, if there is one.
pub open spec fn spec_name_finding(name: Option<SpannedKv<String>>) -> Seq<DiagnosticView> {
    match spec_validate_name(name) {
        Some(e) => seq![e],
        None => seq![],
    }
}

/// The findings on the attributes of a case, all of them: `unit`,
/// `timestamp`, `flatten` and `sample_group` belong on fields, and a name is
/// neither empty nor holds white space.
pub open spec fn spec_variant_attr_findings(raw: RawMetricsVariantAttrs) -> Seq<DiagnosticView> {
    spec_flag_finding(AttrName::Unit, raw.unit) + spec_flag_finding(
        AttrName::Timestamp,
        raw.timestamp,
    ) + spec_flag_finding(AttrName::Flatten, raw.flatten) + spec_flag_finding(
        AttrName::SampleGroup,
        raw.sample_group,
    ) + spec_name_finding(raw.name)
}

/// The validated attributes of a case on which there is no finding.
pub open spec fn spec_variant_attrs(raw: RawMetricsVariantAttrs) -> MetricsVariantAttrsView {
    MetricsVariantAttrsView {
        name: match raw.name {
            Some(kv) => Some(kv.value@),
            None => None,
        },
    }
}

/// Adds the finding on a flag that does not belong on a case, if it is
/// present.
fn refuse_flag(attr: AttrName, flag: &Flag, findings: &mut Vec<Diagnostic>)
    ensures
        final(findings).deep_view() == old(findings).deep_view() + spec_flag_finding(attr, *flag),
{
    if flag.is_present() {
        let ghost before = *findings;
        let mut message = String::from_str("Unknown field: `");
        message.append(attr.text());
        message.append("`");
        let d = Diagnostic { message, span: flag.span(), conflict: None };
        findings.push(d);
        proof {
            lemma_deep_view_push(before, *findings, d);
        }
    } else {}
}

impl RawMetricsVariantAttrs {
    /// Validates the attributes of a case: all findings, or the attributes as
    /// they stand.
    pub fn validate(&self) -> (r: Result<MetricsVariantAttrs, Vec<Diagnostic>>)
        ensures
            match r {
                Ok(attrs) => spec_variant_attr_findings(*self).len() == 0 && attrs@
                    == spec_variant_attrs(*self),
                Err(errors) => errors.len() > 0 && errors.deep_view() == spec_variant_attr_findings(
                    *self,
                ),
            },
    {
        let mut findings: Vec<Diagnostic> = Vec::new();
        refuse_flag(AttrName::Unit, &self.unit, &mut findings);
        refuse_flag(AttrName::Timestamp, &self.timestamp, &mut findings);
        refuse_flag(AttrName::Flatten, &self.flatten, &mut findings);
        refuse_flag(AttrName::SampleGroup, &self.sample_group, &mut findings);
        if let Some(n) = &self.name {
            match validate_name(n) {
                Ok(_) => {},
                Err(e) => {
                    let ghost before = findings;
                    findings.push(e);
                    proof {
                        lemma_deep_view_push(before, findings, e);
                    }
                },
            }
        }
        if findings.len() > 0 {
            return Err(findings);
        }
        Ok(
            MetricsVariantAttrs {
                name: match &self.name {
                    Some(n) => Some(n.value.clone()),
                    None => None,
                },
            },
        )
    }
}

/// Whether a case holds no field.
pub open spec fn spec_fields_empty(fields: Fields) -> bool {
    match fields {
        Fields::Named(f) => f@.len() == 0,
        Fields::Unnamed(f) => f@.len() == 0,
        Fields::Unit => true,
    }
}

/// Whether a case holds no field.
pub fn fields_empty(fields: &Fields) -> (r: bool)
    ensures
        r == spec_fields_empty(*fields),
{
    match fields {
        Fields::Named(f) => f.len() == 0,
        Fields::Unnamed(f) => f.len() == 0,
        Fields::Unit => true,
    }
}

/// The findings on the one field of a tuple case: there is exactly one
/// field, it is valid, and it is flattened.
pub open spec fn spec_tuple_findings(span: Span, fields: Seq<Field>) -> Seq<DiagnosticView> {
    if fields.len() != 1 {
        seq![spec_error("tuple variants must have exactly one field"@, span)]
    } else if spec_field_errors(fields).len() > 0 {
        spec_field_errors(fields)
    } else if spec_parsed_fields(fields).len() == 1 && !(spec_parsed_fields(
        fields,
    )[0].attrs.kind is Flatten) && !(spec_parsed_fields(fields)[0].attrs.kind is FlattenEntry) {
        seq![
            spec_error(
                "tuple variant fields must be `flatten` or `flatten_entry`"@,
                spec_parsed_fields(fields)[0].span,
            ),
        ]
    } else {
        seq![]
    }
}

/// The findings on the shape of a case. A value that is written as a string
/// has cases without fields only. An entry has no such case: its tuple cases
/// hold one flattened field, and its other cases hold named fields, on which
/// all findings are reported.
pub open spec fn spec_shape_findings(v: Variant, kind: UnionKind) -> Seq<DiagnosticView> {
    match kind {
        UnionKind::ValueString => if spec_fields_empty(v.fields) {
            seq![]
        } else {
            seq![spec_error("variants with fields are not supported"@, v.span)]
        },
        UnionKind::Entry => if spec_fields_empty(v.fields) {
            seq![spec_error("unit variants are not supported for entry enums"@, v.span)]
        } else {
            match v.fields {
                Fields::Unnamed(fields) => spec_tuple_findings(v.span, fields@),
                Fields::Named(fields) => spec_field_errors(fields@),
                Fields::Unit => seq![],
            }
        },
    }
}

/// The findings on the attributes of a case: the front-end's, or those of
/// validation.
pub open spec fn spec_attr_findings(v: Variant) -> Seq<DiagnosticView> {
    match v.metrics {
        Err(d) => seq![d@],
        Ok(raw) => spec_variant_attr_findings(raw),
    }
}

/// All findings on a case: those on its shape, then those on its
/// attributes.
pub open spec fn spec_variant_findings(v: Variant, kind: UnionKind) -> Seq<DiagnosticView> {
    spec_shape_findings(v, kind) + spec_attr_findings(v)
}

/// What a case on which there is no finding holds.
pub open spec fn spec_variant_data(v: Variant, kind: UnionKind) -> VariantDataView {
    match kind {
        UnionKind::ValueString => VariantDataView::Unit,
        UnionKind::Entry => match v.fields {
            Fields::Unnamed(fields) => if spec_parsed_fields(fields@).len() == 1 {
                VariantDataView::Tuple(spec_parsed_fields(fields@)[0])
            } else {
                VariantDataView::Unit
            },
            Fields::Named(fields) => VariantDataView::Struct(spec_parsed_fields(fields@)),
            Fields::Unit => VariantDataView::Unit,
        },
    }
}

/// The attributes of a case on which there is no finding.
pub open spec fn spec_parsed_variant_attrs(v: Variant) -> MetricsVariantAttrsView {
    match v.metrics {
        Ok(raw) => spec_variant_attrs(raw),
        Err(_) => MetricsVariantAttrsView { name: None },
    }
}

/// A case on which there is no finding, validated.
pub open spec fn spec_parsed_variant(v: Variant, kind: UnionKind) -> MetricsVariantView {
    MetricsVariantView {
        ident: v.ident@,
        external_attrs: spec_clean_attrs(v.attrs.deep_view()),
        attrs: spec_parsed_variant_attrs(v),
        data: spec_variant_data(v, kind),
    }
}

/// What a case holds, or the findings on its shape.
pub fn parse_variant_data(variant: &Variant, kind: UnionKind) -> (r: Result<
    VariantData,
    Vec<Diagnostic>,
>)
    ensures
        match r {
            Ok(data) => spec_shape_findings(*variant, kind).len() == 0 && data@
                == spec_variant_data(*variant, kind),
            Err(errors) => errors.len() > 0 && errors.deep_view() == spec_shape_findings(
                *variant,
                kind,
            ),
        },
{
    match kind {
        UnionKind::ValueString => {
            if !fields_empty(&variant.fields) {
                return Err(
                    single(Diagnostic::new("variants with fields are not supported", variant.span)),
                );
            }
            Ok(VariantData::Unit)
        },
        UnionKind::Entry => {
            if fields_empty(&variant.fields) {
                return Err(
                    single(
                        Diagnostic::new(
                            "unit variants are not supported for entry enums",
                            variant.span,
                        ),
                    ),
                );
            }
            match &variant.fields {
                Fields::Unnamed(fields) => {
                    if fields.len() != 1 {
                        return Err(
                            single(
                                Diagnostic::new(
                                    "tuple variants must have exactly one field",
                                    variant.span,
                                ),
                            ),
                        );
                    }
                    let mut parsed = match parse_struct_fields(fields) {
                        Ok(parsed) => parsed,
                        Err(errors) => {
                            return Err(errors);
                        },
                    };
                    proof {
                        lemma_filter_map_indexed_count(
                            fields@,
                            spec_pick_field(),
                            spec_pick_error(),
                        );
                    }
                    match parsed.pop() {
                        Some(field) => {
                            let flattened = match &field.attrs.kind {
                                MetricsFieldKind::Flatten { .. } => true,
                                MetricsFieldKind::FlattenEntry(_) => true,
                                _ => false,
                            };
                            if !flattened {
                                return Err(
                                    single(
                                        Diagnostic::new(
                                            "tuple variant fields must be `flatten` or `flatten_entry`",
                                            field.span,
                                        ),
                                    ),
                                );
                            }
                            Ok(VariantData::Tuple(field))
                        },
                        None => Ok(VariantData::Unit),
                    }
                },
                Fields::Named(fields) => {
                    match parse_struct_fields(fields) {
                        Ok(parsed) => Ok(VariantData::Struct(parsed)),
                        Err(errors) => Err(errors),
                    }
                },
                Fields::Unit => Ok(VariantData::Unit),
            }
        },
    }
}

/// The attributes of a case, or the findings on them.
pub fn parse_variant_attrs(variant: &Variant) -> (r: Result<MetricsVariantAttrs, Vec<Diagnostic>>)
    ensures
        match r {
            Ok(attrs) => spec_attr_findings(*variant).len() == 0 && attrs@
                == spec_parsed_variant_attrs(*variant),
            Err(errors) => errors.len() > 0 && errors.deep_view() == spec_attr_findings(*variant),
        },
{
    match &variant.metrics {
        Ok(raw) => raw.validate(),
        Err(d) => Err(single(d.clone())),
    }
}

/// Picks the validated case, where there is no finding on it.
pub open spec fn spec_pick_variant(kind: UnionKind) -> spec_fn(Variant) -> Option<
    MetricsVariantView,
> {
    |v: Variant|
        if spec_variant_findings(v, kind).len() == 0 {
            Some(spec_parsed_variant(v, kind))
        } else {
            None
        }
}

/// Gives the findings on a case.
pub open spec fn spec_find_in_variant(kind: UnionKind) -> spec_fn(Variant) -> Seq<
    DiagnosticView,
> {
    |v: Variant| spec_variant_findings(v, kind)
}

/// The findings on the cases of a union: all findings on each case, in the
/// order of the cases.
pub open spec fn spec_enum_findings(
    variants: Seq<Variant>,
    kind: UnionKind,
) -> Seq<DiagnosticView> {
    flat_map(variants, spec_find_in_variant(kind))
}

/// The validated cases of a union, in their order.
pub open spec fn spec_parsed_variants(
    variants: Seq<Variant>,
    kind: UnionKind,
) -> Seq<MetricsVariantView> {
    filter_map(variants, spec_pick_variant(kind))
}

/// Validates the cases of a union. Every case is looked at, so that the
/// findings on all of them come back together.
pub fn parse_enum_variants(variants: &Vec<Variant>, kind: UnionKind) -> (r:
    Result<Vec<MetricsVariant>, Vec<Diagnostic>>)
    ensures
        match r {
            Ok(parsed) => spec_enum_findings(variants@, kind).len() == 0
                && parsed.deep_view() == spec_parsed_variants(variants@, kind),
            Err(errors) => errors.len() > 0 && errors.deep_view() == spec_enum_findings(
                variants@,
                kind,
            ),
        },
{
    let mut parsed_variants: Vec<MetricsVariant> = Vec::new();
    let mut errors: Vec<Diagnostic> = Vec::new();
    let ghost pick = spec_pick_variant(kind);
    let ghost find = spec_find_in_variant(kind);
    let mut i: usize = 0;
    while i < variants.len()
        invariant
            i <= variants.len(),
            pick == spec_pick_variant(kind),
            find == spec_find_in_variant(kind),
            parsed_variants.deep_view() == filter_map(variants@.take(i as int), pick),
            errors.deep_view() == flat_map(variants@.take(i as int), find),
        decreases variants.len() - i,
    {
        let variant = &variants[i];
        proof {
            lemma_filter_map_step(variants@, i as int, pick);
            lemma_flat_map_step(variants@, i as int, find);
        }
        let data = match parse_variant_data(variant, kind) {
            Ok(data) => Some(data),
            Err(mut e) => {
                let ghost added = e;
                let ghost before = errors;
                errors.append(&mut e);
                proof {
                    lemma_deep_view_append(before, errors, added);
                }
                None
            },
        };
        let attrs = match parse_variant_attrs(variant) {
            Ok(attrs) => Some(attrs),
            Err(mut e) => {
                let ghost added = e;
                let ghost before = errors;
                errors.append(&mut e);
                proof {
                    lemma_deep_view_append(before, errors, added);
                }
                None
            },
        };
        match (data, attrs) {
            (Some(data), Some(attrs)) => {
                let ghost before = parsed_variants;
                let parsed = MetricsVariant {
                    ident: variant.ident.clone(),
                    external_attrs: clean_attrs(variant.attrs.as_slice()),
                    attrs,
                    data,
                };
                parsed_variants.push(parsed);
                proof {
                    lemma_deep_view_push(before, parsed_variants, parsed);
                }
            },
            _ => {},
        }
        i += 1;
    }
    assert(variants@.take(variants.len() as int) =~= variants@);
    if errors.len() > 0 {
        Err(errors)
    } else {
        Ok(parsed_variants)
    }
}

/// What a case holds in the declaration that is handed back.
#[derive(Debug, PartialEq, Eq)]
pub enum CoreVariantData {
    /// Nothing.
    Unit,
    /// Fields reached by their place.
    Tuple(Vec<CoreField>),
    /// Named fields.
    Struct(Vec<CoreField>),
}

/// [`CoreVariantData`] as it is specified: text as a sequence of characters, lists as
/// sequences.
pub ghost enum CoreVariantDataView {
    Unit,
    Tuple(Seq<CoreFieldView>),
    Struct(Seq<CoreFieldView>),
}

impl DeepView for CoreVariantData {
    type V = CoreVariantDataView;

    open spec fn deep_view(&self) -> CoreVariantDataView {
        match self {
            CoreVariantData::Unit => CoreVariantDataView::Unit,
            CoreVariantData::Tuple(f) => CoreVariantDataView::Tuple(f.deep_view()),
            CoreVariantData::Struct(fields) => CoreVariantDataView::Struct(fields.deep_view()),
        }
    }
}

impl View for CoreVariantData {
    type V = CoreVariantDataView;

    open spec fn view(&self) -> CoreVariantDataView {
        self.deep_view()
    }
}

/// A case as it stands in the declaration that is handed back: what was
/// declared, without the schema compiler's own attributes.
#[derive(Debug, PartialEq, Eq)]
pub struct CoreVariant {
    pub external_attrs: Vec<Attribute>,
    pub ident: String,
    pub data: CoreVariantData,
}

/// [`CoreVariant`] as it is specified: text as a sequence of characters, lists as
/// sequences.
pub ghost struct CoreVariantView {
    pub external_attrs: Seq<AttributeView>,
    pub ident: Seq<char>,
    pub data: CoreVariantDataView,
}

impl DeepView for CoreVariant {
    type V = CoreVariantView;

    open spec fn deep_view(&self) -> CoreVariantView {
        CoreVariantView {
            external_attrs: self.external_attrs.deep_view(),
            ident: self.ident@,
            data: self.data@,
        }
    }
}

impl View for CoreVariant {
    type V = CoreVariantView;

    open spec fn view(&self) -> CoreVariantView {
        self.deep_view()
    }
}

/// The declaration of a union.
#[derive(Debug, PartialEq, Eq)]
pub struct EnumDecl {
    pub attrs: Vec<Attribute>,
    pub vis: Syntax,
    pub name: String,
    pub generics: Syntax,
    pub variants: Vec<CoreVariant>,
}

/// [`EnumDecl`] as it is specified: text as a sequence of characters, lists as
/// sequences.
pub ghost struct EnumDeclView {
    pub attrs: Seq<AttributeView>,
    pub vis: Syntax,
    pub name: Seq<char>,
    pub generics: Syntax,
    pub variants: Seq<CoreVariantView>,
}

impl DeepView for EnumDecl {
    type V = EnumDeclView;

    open spec fn deep_view(&self) -> EnumDeclView {
        EnumDeclView {
            attrs: self.attrs.deep_view(),
            vis: self.vis,
            name: self.name@,
            generics: self.generics,
            variants: self.variants.deep_view(),
        }
    }
}

impl View for EnumDecl {
    type V = EnumDeclView;

    open spec fn view(&self) -> EnumDeclView {
        self.deep_view()
    }
}

/// What a case of the entry holds.
#[derive(Debug, PartialEq, Eq)]
pub enum EntryVariantData {
    /// Nothing.
    Unit,
    /// The field that mirrors the one field of the case, unless that is ignored.
    Tuple(Option<EntryField>),
    /// Named fields.
    Struct(Vec<EntryField>),
}

/// [`EntryVariantData`] as it is specified: text as a sequence of characters, lists as
/// sequences.
pub ghost enum EntryVariantDataView {
    Unit,
    Tuple(Option<EntryFieldView>),
    Struct(Seq<EntryFieldView>),
}

impl DeepView for EntryVariantData {
    type V = EntryVariantDataView;

    open spec fn deep_view(&self) -> EntryVariantDataView {
        match self {
            EntryVariantData::Unit => EntryVariantDataView::Unit,
            EntryVariantData::Tuple(f) => EntryVariantDataView::Tuple(f.deep_view()),
            EntryVariantData::Struct(fields) => EntryVariantDataView::Struct(fields.deep_view()),
        }
    }
}

impl View for EntryVariantData {
    type V = EntryVariantDataView;

    open spec fn view(&self) -> EntryVariantDataView {
        self.deep_view()
    }
}

/// A case of the entry that mirrors a case of the union.
#[derive(Debug, PartialEq, Eq)]
pub struct EntryVariant {
    pub ident: Ident,
    pub data: EntryVariantData,
}

/// [`EntryVariant`] as it is specified: text as a sequence of characters, lists as
/// sequences.
pub ghost struct EntryVariantView {
    pub ident: IdentView,
    pub data: EntryVariantDataView,
}

impl DeepView for EntryVariant {
    type V = EntryVariantView;

    open spec fn deep_view(&self) -> EntryVariantView {
        EntryVariantView {
            ident: self.ident@,
            data: self.data@,
        }
    }
}

impl View for EntryVariant {
    type V = EntryVariantView;

    open spec fn view(&self) -> EntryVariantView {
        self.deep_view()
    }
}

/// The declaration of the entry of a union.
#[derive(Debug, PartialEq, Eq)]
pub struct EntryEnum {
    pub name: String,
    pub variants: Vec<EntryVariant>,
}

/// [`EntryEnum`] as it is specified: text as a sequence of characters, lists as
/// sequences.
pub ghost struct EntryEnumView {
    pub name: Seq<char>,
    pub variants: Seq<EntryVariantView>,
}

impl DeepView for EntryEnum {
    type V = EntryEnumView;

    open spec fn deep_view(&self) -> EntryEnumView {
        EntryEnumView {
            name: self.name@,
            variants: self.variants.deep_view(),
        }
    }
}

impl View for EntryEnum {
    type V = EntryEnumView;

    open spec fn view(&self) -> EntryEnumView {
        self.deep_view()
    }
}

/// The name under which a case is written.
#[derive(Debug, PartialEq, Eq)]
pub struct VariantName {
    pub variant: Ident,
    pub metric_name: String,
}

/// [`VariantName`] as it is specified: text as a sequence of characters, lists as
/// sequences.
pub ghost struct VariantNameView {
    pub variant: IdentView,
    pub metric_name: Seq<char>,
}

impl DeepView for VariantName {
    type V = VariantNameView;

    open spec fn deep_view(&self) -> VariantNameView {
        VariantNameView {
            variant: self.variant@,
            metric_name: self.metric_name@,
        }
    }
}

impl View for VariantName {
    type V = VariantNameView;

    open spec fn view(&self) -> VariantNameView {
        self.deep_view()
    }
}

/// The name of each case of a union, by which a value tells which case it
/// is: as a string, and as a sample group.
#[derive(Debug, PartialEq, Eq)]
pub struct FromAndSampleGroup {
    /// The type whose values tell their case.
    pub target: String,
    pub names: Vec<VariantName>,
}

/// [`FromAndSampleGroup`] as it is specified: text as a sequence of characters, lists as
/// sequences.
pub ghost struct FromAndSampleGroupView {
    pub target: Seq<char>,
    pub names: Seq<VariantNameView>,
}

impl DeepView for FromAndSampleGroup {
    type V = FromAndSampleGroupView;

    open spec fn deep_view(&self) -> FromAndSampleGroupView {
        FromAndSampleGroupView {
            target: self.target@,
            names: self.names.deep_view(),
        }
    }
}

impl View for FromAndSampleGroup {
    type V = FromAndSampleGroupView;

    open spec fn view(&self) -> FromAndSampleGroupView {
        self.deep_view()
    }
}

/// How the entry of a union writes itself when it is the given case.
#[derive(Debug, PartialEq, Eq)]
pub struct WriteArm {
    pub variant: Ident,
    pub writes: Vec<WriteStatement>,
    pub sample_groups: Chain<SampleGroupStatement>,
}

/// [`WriteArm`] as it is specified: text as a sequence of characters, lists as
/// sequences.
pub ghost struct WriteArmView {
    pub variant: IdentView,
    pub writes: Seq<WriteStatementView>,
    pub sample_groups: ChainView<SampleGroupStatementView>,
}

impl DeepView for WriteArm {
    type V = WriteArmView;

    open spec fn deep_view(&self) -> WriteArmView {
        WriteArmView {
            variant: self.variant@,
            writes: self.writes.deep_view(),
            sample_groups: self.sample_groups.deep_view(),
        }
    }
}

impl View for WriteArm {
    type V = WriteArmView;

    open spec fn view(&self) -> WriteArmView {
        self.deep_view()
    }
}

/// How the entry of a union writes itself: by the arm of its case.
#[derive(Debug, PartialEq, Eq)]
pub struct UnionEntryImpl {
    pub entry_name: String,
    pub arms: Vec<WriteArm>,
}

/// [`UnionEntryImpl`] as it is specified: text as a sequence of characters, lists as
/// sequences.
pub ghost struct UnionEntryImplView {
    pub entry_name: Seq<char>,
    pub arms: Seq<WriteArmView>,
}

impl DeepView for UnionEntryImpl {
    type V = UnionEntryImplView;

    open spec fn deep_view(&self) -> UnionEntryImplView {
        UnionEntryImplView {
            entry_name: self.entry_name@,
            arms: self.arms.deep_view(),
        }
    }
}

impl View for UnionEntryImpl {
    type V = UnionEntryImplView;

    open spec fn view(&self) -> UnionEntryImplView {
        self.deep_view()
    }
}


/// The case as it stands in the declaration that is handed back.
pub open spec fn spec_core_variant(v: MetricsVariantView) -> CoreVariantView {
    CoreVariantView {
        external_attrs: v.external_attrs,
        ident: v.ident.name,
        data: match v.data {
            VariantDataView::Unit => CoreVariantDataView::Unit,
            VariantDataView::Tuple(f) => CoreVariantDataView::Tuple(
                seq![spec_core_field(f, false)],
            ),
            VariantDataView::Struct(fields) => CoreVariantDataView::Struct(
                spec_core_fields_as(fields, true),
            ),
        },
    }
}

/// The case of the entry that mirrors `v`: of the same shape, each field
/// with the type that the field has in the entry.
pub open spec fn spec_entry_variant(v: MetricsVariantView) -> EntryVariantView {
    EntryVariantView {
        ident: v.ident,
        data: match v.data {
            VariantDataView::Unit => EntryVariantDataView::Unit,
            VariantDataView::Tuple(f) => EntryVariantDataView::Tuple(spec_entry_field(f, false)),
            VariantDataView::Struct(fields) => EntryVariantDataView::Struct(
                spec_entry_fields(fields, true),
            ),
        },
    }
}

/// The name under which a case is written: its override as it stands, or
/// else its declared name in the case style of the union. The prefix of the
/// union stands before the names of fields, never before the name of a case.
pub open spec fn spec_variant_name(
    root: RootAttributesView,
    v: MetricsVariantView,
) -> VariantNameView {
    VariantNameView {
        variant: v.ident,
        metric_name: spec_metric_name(None, root.rename_all, v.attrs.name, v.ident.name),
    }
}

/// How one case is closed into the same case of the entry.
pub open spec fn spec_close_arm(v: MetricsVariantView, ownership: OwnershipKind) -> CloseArmView {
    CloseArmView {
        variant: v.ident,
        data: match v.data {
            VariantDataView::Unit => CloseArmDataView::Unit,
            VariantDataView::Tuple(f) => CloseArmDataView::Tuple(
                if f.is_ignored() {
                    None
                } else {
                    Some(spec_close_value(f, ownership))
                },
            ),
            VariantDataView::Struct(fields) => CloseArmDataView::Struct(
                spec_close_fields(fields, ownership),
            ),
        },
    }
}

/// The stem of the constants that hold the prefix of the union for a case.
pub open spec fn spec_container_stem(v: MetricsVariantView) -> Seq<char> {
    v.ident.name + "Container"@
}

/// The statements that write the one field of a tuple case. A flattened
/// schema resolves its names behind the prefix of the union and then behind
/// the prefix of the field; a flattened entry writes itself.
pub open spec fn spec_tuple_writes(
    root: RootAttributesView,
    v: MetricsVariantView,
    f: MetricsFieldView,
) -> Seq<WriteStatementView> {
    let ns = spec_make_ns(root.rename_all, f.span);
    match f.attrs.kind {
        MetricsFieldKindView::Flatten { span, prefix } => {
            let outer = spec_prefix_layer(ns, root.prefix, spec_container_stem(v), f.span);
            let inner = spec_prefix_layer(ns, prefix, v.ident.name, f.span);
            seq![
                WriteStatementView::Flatten {
                    field: f.ident,
                    span,
                    extra: outer.0 + inner.0,
                    ns: NamespaceView { base: ns, prefixes: outer.1 + inner.1 },
                },
            ]
        },
        MetricsFieldKindView::FlattenEntry(span) => seq![
            WriteStatementView::FlattenEntry { field: f.ident, span },
        ],
        _ => seq![],
    }
}

/// The sources of sample groups of a tuple case: its one field, flattened.
pub open spec fn spec_tuple_sample_groups(root: RootAttributesView, f: MetricsFieldView) -> Seq<
    SampleGroupStatementView,
> {
    match f.attrs.kind {
        MetricsFieldKindView::Flatten { span, .. } => seq![
            SampleGroupStatementView::Flatten {
                field: f.ident,
                span,
                ns: spec_make_ns(root.rename_all, f.span),
            },
        ],
        MetricsFieldKindView::FlattenEntry(span) => seq![
            SampleGroupStatementView::FlattenEntry { field: f.ident, span },
        ],
        _ => seq![],
    }
}

/// How the entry writes itself when it is the case `v`. The prefix of the
/// union stands before the names of the fields of a struct case, as before
/// those of a record; a schema flattened in such a case keeps its own names.
pub open spec fn spec_write_arm(root: RootAttributesView, v: MetricsVariantView) -> WriteArmView {
    match v.data {
        VariantDataView::Unit => WriteArmView {
            variant: v.ident,
            writes: seq![],
            sample_groups: spec_chain(seq![]),
        },
        VariantDataView::Tuple(f) => WriteArmView {
            variant: v.ident,
            writes: spec_tuple_writes(root, v, f),
            sample_groups: spec_chain(spec_tuple_sample_groups(root, f)),
        },
        VariantDataView::Struct(fields) => WriteArmView {
            variant: v.ident,
            writes: filter_map(fields, spec_pick_write(root)),
            sample_groups: spec_chain(spec_sample_group_sources(fields, root)),
        },
    }
}

/// Whether the fields of a struct case all have names.
pub open spec fn spec_variant_named(v: MetricsVariantView) -> bool {
    match v.data {
        VariantDataView::Struct(fields) => spec_all_named(fields),
        _ => true,
    }
}

impl MetricsVariant {
    /// The case as it stands in the declaration that is handed back.
    pub fn core_variant(&self) -> (r: CoreVariant)
        ensures
            r@ == spec_core_variant(self@),
    {
        let data = match &self.data {
            VariantData::Unit => CoreVariantData::Unit,
            VariantData::Tuple(f) => {
                let mut fields: Vec<CoreField> = Vec::new();
                fields.push(f.core_field(false));
                assert(fields.deep_view() =~= seq![spec_core_field(f@, false)]);
                CoreVariantData::Tuple(fields)
            },
            VariantData::Struct(fields) => CoreVariantData::Struct(
                core_fields(fields.as_slice(), true),
            ),
        };
        CoreVariant {
            external_attrs: copy_attrs(self.external_attrs.as_slice()),
            ident: self.ident.name.clone(),
            data,
        }
    }

    /// The case of the entry that mirrors this case.
    pub fn entry_variant(&self) -> (r: EntryVariant)
        ensures
            r@ == spec_entry_variant(self@),
    {
        let data = match &self.data {
            VariantData::Unit => EntryVariantData::Unit,
            VariantData::Tuple(f) => EntryVariantData::Tuple(f.entry_field(false)),
            VariantData::Struct(fields) => EntryVariantData::Struct(
                entry_fields(fields.as_slice(), true),
            ),
        };
        EntryVariant { ident: self.ident.clone(), data }
    }

    /// The name under which the case is written.
    pub fn variant_name(&self, root_attrs: &RootAttributes) -> (r: VariantName)
        ensures
            r@ == spec_variant_name(root_attrs@, self@),
    {
        let unprefixed = RootAttributes {
            prefix: None,
            rename_all: root_attrs.rename_all,
            emf_dimensions: root_attrs.emf_dimensions,
            sample_group: root_attrs.sample_group,
            mode: root_attrs.mode,
        };
        VariantName {
            variant: self.ident.clone(),
            metric_name: metric_name(&unprefixed, root_attrs.rename_all, self),
        }
    }

    /// How the case is closed into the same case of the entry.
    pub fn close_arm(&self, ownership: OwnershipKind) -> (r: CloseArm)
        ensures
            r@ == spec_close_arm(self@, ownership),
    {
        let data = match &self.data {
            VariantData::Unit => CloseArmData::Unit,
            VariantData::Tuple(f) => CloseArmData::Tuple(
                if f.is_ignored() {
                    None
                } else {
                    Some(f.close_value(ownership))
                },
            ),
            VariantData::Struct(fields) => CloseArmData::Struct(
                close_fields(fields.as_slice(), ownership),
            ),
        };
        CloseArm { variant: self.ident.clone(), data }
    }

    /// The statements that write the one field of a tuple case.
    pub fn tuple_writes(&self, root_attrs: &RootAttributes, f: &MetricsField) -> (r: Vec<
        WriteStatement,
    >)
        ensures
            r.deep_view() == spec_tuple_writes(root_attrs@, self@, f@),
    {
        let ns = make_ns(root_attrs.rename_all, f.span);
        let mut writes: Vec<WriteStatement> = Vec::new();
        match &f.attrs.kind {
            MetricsFieldKind::Flatten { span, prefix } => {
                let plain = Namespace { base: ns, prefixes: Vec::new() };
                let container = joined(self.ident.name.as_str(), "Container");
                let (mut extra, outer) = extend_namespace(
                    plain,
                    &root_attrs.prefix,
                    container.as_str(),
                    f.span,
                );
                let (mut more, both) = extend_namespace(
                    outer,
                    prefix,
                    self.ident.name.as_str(),
                    f.span,
                );
                let ghost head = extra;
                let ghost tail = more;
                extra.append(&mut more);
                proof {
                    lemma_deep_view_append(head, extra, tail);
                }
                let w = WriteStatement::Flatten {
                    field: f.ident.clone(),
                    span: *span,
                    extra,
                    ns: both,
                };
                writes.push(w);
            },
            MetricsFieldKind::FlattenEntry(span) => {
                let w = WriteStatement::FlattenEntry { field: f.ident.clone(), span: *span };
                writes.push(w);
            },
            _ => {},
        }
        writes
    }

    /// The sources of sample groups of a tuple case.
    pub fn tuple_sample_groups(root_attrs: &RootAttributes, f: &MetricsField) -> (r: Vec<
        SampleGroupStatement,
    >)
        ensures
            r.deep_view() == spec_tuple_sample_groups(root_attrs@, f@),
    {
        let mut sources: Vec<SampleGroupStatement> = Vec::new();
        match &f.attrs.kind {
            MetricsFieldKind::Flatten { span, .. } => {
                let s = SampleGroupStatement::Flatten {
                    field: f.ident.clone(),
                    span: *span,
                    ns: make_ns(root_attrs.rename_all, f.span),
                };
                sources.push(s);
            },
            MetricsFieldKind::FlattenEntry(span) => {
                let s = SampleGroupStatement::FlattenEntry { field: f.ident.clone(), span: *span };
                sources.push(s);
            },
            _ => {},
        }
        sources
    }

    /// How the entry writes itself when it is this case.
    pub fn write_arm(&self, root_attrs: &RootAttributes) -> (r: WriteArm)
        requires
            spec_variant_named(self@),
        ensures
            r@ == spec_write_arm(root_attrs@, self@),
    {
        match &self.data {
            VariantData::Unit => {
                let writes: Vec<WriteStatement> = Vec::new();
                let sources: Vec<SampleGroupStatement> = Vec::new();
                assert(writes.deep_view() =~= Seq::empty());
                WriteArm {
                    variant: self.ident.clone(),
                    writes,
                    sample_groups: make_binary_tree_chain(sources),
                }
            },
            VariantData::Tuple(f) => WriteArm {
                variant: self.ident.clone(),
                writes: self.tuple_writes(root_attrs, f),
                sample_groups: make_binary_tree_chain(Self::tuple_sample_groups(root_attrs, f)),
            },
            VariantData::Struct(fields) => WriteArm {
                variant: self.ident.clone(),
                writes: field_write_statements(fields.as_slice(), root_attrs),
                sample_groups: make_binary_tree_chain(
                    sample_group_sources(fields.as_slice(), root_attrs),
                ),
            },
        }
    }

    /// Whether the fields of the case all have names, if it is a struct case.
    pub fn is_named(&self) -> (r: bool)
        ensures
            r == spec_variant_named(self@),
    {
        match &self.data {
            VariantData::Struct(fields) => all_named(fields.as_slice()),
            _ => true,
        }
    }
}

/// The cases as they stand in the declaration that is handed back.
pub open spec fn spec_core_variants(variants: Seq<MetricsVariantView>) -> Seq<CoreVariantView> {
    Seq::new(variants.len(), |i: int| spec_core_variant(variants[i]))
}

/// The cases of the entry, one for each case of the union, in their order.
pub open spec fn spec_entry_variants(variants: Seq<MetricsVariantView>) -> Seq<EntryVariantView> {
    Seq::new(variants.len(), |i: int| spec_entry_variant(variants[i]))
}

/// The names under which the cases are written, in the order of the cases.
pub open spec fn spec_variant_names(
    variants: Seq<MetricsVariantView>,
    root: RootAttributesView,
) -> Seq<VariantNameView> {
    Seq::new(variants.len(), |i: int| spec_variant_name(root, variants[i]))
}

/// How the cases are closed, in the order of the cases.
pub open spec fn spec_close_arms(
    variants: Seq<MetricsVariantView>,
    ownership: OwnershipKind,
) -> Seq<CloseArmView> {
    Seq::new(variants.len(), |i: int| spec_close_arm(variants[i], ownership))
}

/// How the entry writes itself in each case, in the order of the cases.
pub open spec fn spec_write_arms(
    variants: Seq<MetricsVariantView>,
    root: RootAttributesView,
) -> Seq<WriteArmView> {
    Seq::new(variants.len(), |i: int| spec_write_arm(root, variants[i]))
}

/// Whether the fields of every struct case have names.
pub open spec fn spec_variants_named(variants: Seq<MetricsVariantView>) -> bool {
    forall|i: int| 0 <= i < variants.len() ==> spec_variant_named(#[trigger] variants[i])
}

/// The cases as they stand in the declaration that is handed back.
pub fn core_variants(variants: &[MetricsVariant]) -> (r: Vec<CoreVariant>)
    ensures
        r.deep_view() == spec_core_variants(variants.deep_view()),
{
    let mut out: Vec<CoreVariant> = Vec::new();
    let mut i: usize = 0;
    while i < variants.len()
        invariant
            i <= variants.len(),
            out.deep_view().len() == i,
            forall|j: int|
                0 <= j < i ==> #[trigger] out.deep_view()[j] == spec_core_variant(
                    variants.deep_view()[j],
                ),
        decreases variants.len() - i,
    {
        let ghost before = out;
        let x = variants[i].core_variant();
        out.push(x);
        proof {
            lemma_deep_view_push(before, out, x);
        }
        i += 1;
    }
    out
}

/// The cases of the entry, one for each case of the union.
pub fn entry_variants(variants: &[MetricsVariant]) -> (r: Vec<EntryVariant>)
    ensures
        r.deep_view() == spec_entry_variants(variants.deep_view()),
{
    let mut out: Vec<EntryVariant> = Vec::new();
    let mut i: usize = 0;
    while i < variants.len()
        invariant
            i <= variants.len(),
            out.deep_view().len() == i,
            forall|j: int|
                0 <= j < i ==> #[trigger] out.deep_view()[j] == spec_entry_variant(
                    variants.deep_view()[j],
                ),
        decreases variants.len() - i,
    {
        let ghost before = out;
        let x = variants[i].entry_variant();
        out.push(x);
        proof {
            lemma_deep_view_push(before, out, x);
        }
        i += 1;
    }
    out
}

/// The names under which the cases are written.
pub fn variant_names(variants: &[MetricsVariant], root_attrs: &RootAttributes) -> (r: Vec<
    VariantName,
>)
    ensures
        r.deep_view() == spec_variant_names(variants.deep_view(), root_attrs@),
{
    let mut out: Vec<VariantName> = Vec::new();
    let mut i: usize = 0;
    while i < variants.len()
        invariant
            i <= variants.len(),
            out.deep_view().len() == i,
            forall|j: int|
                0 <= j < i ==> #[trigger] out.deep_view()[j] == spec_variant_name(
                    root_attrs@,
                    variants.deep_view()[j],
                ),
        decreases variants.len() - i,
    {
        let ghost before = out;
        let x = variants[i].variant_name(root_attrs);
        out.push(x);
        proof {
            lemma_deep_view_push(before, out, x);
        }
        i += 1;
    }
    out
}

/// How the cases are closed, case by case.
pub fn close_arms(variants: &[MetricsVariant], ownership: OwnershipKind) -> (r: Vec<CloseArm>)
    ensures
        r.deep_view() == spec_close_arms(variants.deep_view(), ownership),
{
    let mut out: Vec<CloseArm> = Vec::new();
    let mut i: usize = 0;
    while i < variants.len()
        invariant
            i <= variants.len(),
            out.deep_view().len() == i,
            forall|j: int|
                0 <= j < i ==> #[trigger] out.deep_view()[j] == spec_close_arm(
                    variants.deep_view()[j],
                    ownership,
                ),
        decreases variants.len() - i,
    {
        let ghost before = out;
        let x = variants[i].close_arm(ownership);
        out.push(x);
        proof {
            lemma_deep_view_push(before, out, x);
        }
        i += 1;
    }
    out
}

/// How the entry writes itself in each case.
pub fn write_arms(variants: &[MetricsVariant], root_attrs: &RootAttributes) -> (r: Vec<WriteArm>)
    requires
        spec_variants_named(variants.deep_view()),
    ensures
        r.deep_view() == spec_write_arms(variants.deep_view(), root_attrs@),
{
    let mut out: Vec<WriteArm> = Vec::new();
    let mut i: usize = 0;
    while i < variants.len()
        invariant
            i <= variants.len(),
            spec_variants_named(variants.deep_view()),
            out.deep_view().len() == i,
            forall|j: int|
                0 <= j < i ==> #[trigger] out.deep_view()[j] == spec_write_arm(
                    root_attrs@,
                    variants.deep_view()[j],
                ),
        decreases variants.len() - i,
    {
        let ghost before = out;
        assert(spec_variant_named(variants.deep_view()[i as int]));
        let x = variants[i].write_arm(root_attrs);
        out.push(x);
        proof {
            lemma_deep_view_push(before, out, x);
        }
        i += 1;
    }
    out
}

/// Whether the fields of every struct case have names.
pub fn variants_named(variants: &[MetricsVariant]) -> (r: bool)
    ensures
        r == spec_variants_named(variants.deep_view()),
{
    let mut i: usize = 0;
    while i < variants.len()
        invariant
            i <= variants.len(),
            forall|j: int| 0 <= j < i ==> spec_variant_named(#[trigger] variants.deep_view()[j]),
        decreases variants.len() - i,
    {
        if !variants[i].is_named() {
            assert(!spec_variant_named(variants.deep_view()[i as int]));
            return false;
        }
        i += 1;
    }
    true
}

/// The declaration of the union itself, handed back with the cases as they
/// were declared.
pub open spec fn spec_base_enum(
    name: Seq<char>,
    vis: Syntax,
    generics: Syntax,
    attrs: Seq<AttributeView>,
    variants: Seq<MetricsVariantView>,
) -> EnumDeclView {
    EnumDeclView { attrs, vis, name, generics, variants: spec_core_variants(variants) }
}

/// The declaration of the union itself, without the schema compiler's
/// attributes.
pub fn generate_base_enum(
    name: &str,
    vis: Syntax,
    generics: Syntax,
    attrs: &[Attribute],
    variants: &[MetricsVariant],
) -> (r: EnumDecl)
    ensures
        r@ == spec_base_enum(name@, vis, generics, attrs.deep_view(), variants.deep_view()),
{
    EnumDecl {
        attrs: copy_attrs(attrs),
        vis,
        name: String::from_str(name),
        generics,
        variants: core_variants(variants),
    }
}

/// The declaration of the entry of a union.
pub fn generate_value_enum(
    name: &str,
    _generics: Syntax,
    variants: &[MetricsVariant],
    _root_attrs: &RootAttributes,
) -> (r: EntryEnum)
    ensures
        r@ == (EntryEnumView { name: name@, variants: spec_entry_variants(variants.deep_view()) }),
{
    EntryEnum { name: String::from_str(name), variants: entry_variants(variants) }
}

/// The name of each case, for the values of `target`.
pub open spec fn spec_from_and_sample_group(
    target: Seq<char>,
    variants: Seq<MetricsVariantView>,
    root: RootAttributesView,
) -> FromAndSampleGroupView {
    FromAndSampleGroupView { target, names: spec_variant_names(variants, root) }
}

/// The name of each case, by which the values of `value_name` tell their
/// case.
pub fn generate_from_and_sample_group_for_enum(
    value_name: &str,
    parsed_variants: &[MetricsVariant],
    root_attrs: &RootAttributes,
) -> (r: FromAndSampleGroup)
    ensures
        r@ == spec_from_and_sample_group(value_name@, parsed_variants.deep_view(), root_attrs@),
{
    FromAndSampleGroup {
        target: String::from_str(value_name),
        names: variant_names(parsed_variants, root_attrs),
    }
}

/// How the entry of a union writes itself.
pub open spec fn spec_entry_impl_for_enum(
    entry_name: Seq<char>,
    variants: Seq<MetricsVariantView>,
    root: RootAttributesView,
) -> UnionEntryImplView {
    UnionEntryImplView { entry_name, arms: spec_write_arms(variants, root) }
}

/// How the entry of a union writes itself: by the arm of its case.
pub fn generate_entry_impl_for_enum(
    entry_name: &str,
    variants: &[MetricsVariant],
    root_attrs: &RootAttributes,
) -> (r: UnionEntryImpl)
    requires
        spec_variants_named(variants.deep_view()),
    ensures
        r@ == spec_entry_impl_for_enum(entry_name@, variants.deep_view(), root_attrs@),
{
    UnionEntryImpl {
        entry_name: String::from_str(entry_name),
        arms: write_arms(variants, root_attrs),
    }
}

/// The closing of a union into its entry: case by case.
pub open spec fn spec_close_value_impls_for_enum(
    enum_name: Seq<char>,
    entry: Seq<char>,
    variants: Seq<MetricsVariantView>,
    root: RootAttributesView,
) -> CloseValueImplsView {
    spec_close_value_impls(
        root,
        enum_name,
        entry,
        CloseBodyView::Union(spec_close_arms(variants, spec_ownership_kind(root.mode))),
    )
}

/// The closing of a union into its entry.
pub fn generate_close_value_impls_for_enum(
    enum_name: &str,
    entry: &str,
    variants: &[MetricsVariant],
    root_attrs: &RootAttributes,
) -> (r: CloseValueImpls)
    ensures
        r@ == spec_close_value_impls_for_enum(
            enum_name@,
            entry@,
            variants.deep_view(),
            root_attrs@,
        ),
{
    let arms = close_arms(variants, root_attrs.ownership_kind());
    generate_close_value_impls(root_attrs, enum_name, entry, CloseBody::Union(arms))
}

/// How the entry of a union writes itself.
#[derive(Debug, PartialEq, Eq)]
pub enum UnionInnerImpl {
    /// As the name of its case.
    Value(UnionValueImpl),
    /// As an entry, by the arm of its case; the union itself tells its case
    /// by name.
    Entry { names: FromAndSampleGroup, entry: UnionEntryImpl },
}

/// [`UnionInnerImpl`] as it is specified: text as a sequence of characters, lists as
/// sequences.
pub ghost enum UnionInnerImplView {
    Value(UnionValueImplView),
    Entry { names: FromAndSampleGroupView, entry: UnionEntryImplView },
}

impl DeepView for UnionInnerImpl {
    type V = UnionInnerImplView;

    open spec fn deep_view(&self) -> UnionInnerImplView {
        match self {
            UnionInnerImpl::Value(v) => UnionInnerImplView::Value(v@),
            UnionInnerImpl::Entry { names, entry } => UnionInnerImplView::Entry {
                names: names@,
                entry: entry@,
            },
        }
    }
}

impl View for UnionInnerImpl {
    type V = UnionInnerImplView;

    open spec fn view(&self) -> UnionInnerImplView {
        self.deep_view()
    }
}

/// All that is generated for a union.
#[derive(Debug, PartialEq, Eq)]
pub struct UnionMetrics {
    /// The union itself, without the schema compiler's attributes.
    pub base_enum: EnumDecl,
    /// The entry of the union.
    pub value_enum: EntryEnum,
    pub inner_impl: UnionInnerImpl,
    pub close_value_impl: CloseValueImpls,
    pub warnings: Vec<Warning>,
    /// The guard and the handle, for a root entry.
    pub root_entry_specifics: Option<OnDropWrapper>,
}

/// [`UnionMetrics`] as it is specified: text as a sequence of characters, lists as
/// sequences.
pub ghost struct UnionMetricsView {
    pub base_enum: EnumDeclView,
    pub value_enum: EntryEnumView,
    pub inner_impl: UnionInnerImplView,
    pub close_value_impl: CloseValueImplsView,
    pub warnings: Seq<WarningView>,
    pub root_entry_specifics: Option<OnDropWrapperView>,
}

impl DeepView for UnionMetrics {
    type V = UnionMetricsView;

    open spec fn deep_view(&self) -> UnionMetricsView {
        UnionMetricsView {
            base_enum: self.base_enum@,
            value_enum: self.value_enum@,
            inner_impl: self.inner_impl@,
            close_value_impl: self.close_value_impl@,
            warnings: self.warnings.deep_view(),
            root_entry_specifics: self.root_entry_specifics.deep_view(),
        }
    }
}

impl View for UnionMetrics {
    type V = UnionMetricsView;

    open spec fn view(&self) -> UnionMetricsView {
        self.deep_view()
    }
}


/// What a union is compiled into in a given mode.
pub open spec fn spec_union_kind(mode: MetricMode) -> UnionKind {
    if mode == MetricMode::ValueString {
        UnionKind::ValueString
    } else {
        UnionKind::Entry
    }
}

/// The name of the entry of a union.
pub open spec fn spec_union_entry_name(enum_name: Seq<char>, mode: MetricMode) -> Seq<char> {
    if mode == MetricMode::ValueString {
        enum_name + "Value"@
    } else {
        enum_name + "Entry"@
    }
}

/// The findings on a union, if there are any: those on its cases, all of
/// them; or else the first on the union as a whole.
pub open spec fn spec_union_findings(
    root: RootAttributesView,
    input: DeriveInput,
    variants: Seq<Variant>,
) -> Seq<DiagnosticView> {
    let kind = spec_union_kind(root.mode);
    let findings = spec_enum_findings(variants, kind);
    if findings.len() > 0 {
        findings
    } else if kind == UnionKind::Entry && root.emf_dimensions is Some {
        seq![
            spec_error(
                "dimension-sets are not supported for enums"@,
                root.emf_dimensions.unwrap().span,
            ),
        ]
    } else if !spec_variants_named(spec_parsed_variants(variants, kind)) {
        seq![spec_error("Only named fields are supported"@, input.span)]
    } else {
        seq![]
    }
}

/// All that is generated for a union on which there is no finding.
pub open spec fn spec_union_metrics(
    root: RootAttributesView,
    input: DeriveInput,
    variants: Seq<Variant>,
) -> UnionMetricsView {
    let kind = spec_union_kind(root.mode);
    let parsed = spec_parsed_variants(variants, kind);
    let enum_name = input.ident.name@;
    let value_name = spec_union_entry_name(enum_name, root.mode);
    UnionMetricsView {
        base_enum: spec_base_enum(
            enum_name,
            input.vis,
            input.generics,
            input.attrs.deep_view(),
            parsed,
        ),
        value_enum: EntryEnumView { name: value_name, variants: spec_entry_variants(parsed) },
        inner_impl: if kind == UnionKind::ValueString {
            UnionInnerImplView::Value(
                UnionValueImplView {
                    from_and_sample_group: spec_from_and_sample_group(value_name, parsed, root),
                    value_name,
                },
            )
        } else {
            UnionInnerImplView::Entry {
                names: spec_from_and_sample_group(enum_name, parsed, root),
                entry: spec_entry_impl_for_enum(value_name, parsed, root),
            }
        },
        close_value_impl: spec_close_value_impls_for_enum(enum_name, value_name, parsed, root),
        warnings: seq![],
        root_entry_specifics: if root.mode == MetricMode::RootEntry {
            Some(
                OnDropWrapperView {
                    vis: input.vis,
                    guard: enum_name + "Guard"@,
                    inner: enum_name,
                    target: value_name,
                    handle: enum_name + "Handle"@,
                },
            )
        } else {
            None
        },
    }
}

/// Compiles a union: all findings on it, or all that is generated for it.
pub fn generate_metrics_for_enum(
    root_attrs: RootAttributes,
    input: &DeriveInput,
    variants: &Vec<Variant>,
) -> (r: Result<UnionMetrics, Vec<Diagnostic>>)
    ensures
        match r {
            Ok(m) => spec_union_findings(root_attrs@, *input, variants@).len() == 0 && m@
                == spec_union_metrics(root_attrs@, *input, variants@),
            Err(errors) => errors.len() > 0 && errors.deep_view() == spec_union_findings(
                root_attrs@,
                *input,
                variants@,
            ),
        },
{
    let enum_name = input.ident.name.as_str();
    let kind = if root_attrs.mode == MetricMode::ValueString {
        UnionKind::ValueString
    } else {
        UnionKind::Entry
    };
    let parsed_variants = match parse_enum_variants(variants, kind) {
        Ok(parsed) => parsed,
        Err(errors) => {
            return Err(errors);
        },
    };
    if kind == UnionKind::Entry {
        if let Some(dims) = &root_attrs.emf_dimensions {
            return Err(
                single(Diagnostic::new("dimension-sets are not supported for enums", dims.span)),
            );
        }
    }
    if !variants_named(parsed_variants.as_slice()) {
        return Err(single(Diagnostic::new("Only named fields are supported", input.span)));
    }
    let value_name = if kind == UnionKind::ValueString {
        joined(enum_name, "Value")
    } else {
        joined(enum_name, "Entry")
    };
    let base_enum = generate_base_enum(
        enum_name,
        input.vis,
        input.generics,
        input.attrs.as_slice(),
        parsed_variants.as_slice(),
    );
    let warnings = root_attrs.warnings();
    assert(warnings.deep_view() =~= Seq::empty());
    let value_enum = generate_value_enum(
        value_name.as_str(),
        input.generics,
        parsed_variants.as_slice(),
        &root_attrs,
    );
    let inner_impl = match kind {
        UnionKind::ValueString => UnionInnerImpl::Value(
            generate_value_impl_for_enum(
                &root_attrs,
                value_name.as_str(),
                parsed_variants.as_slice(),
            ),
        ),
        UnionKind::Entry => UnionInnerImpl::Entry {
            names: generate_from_and_sample_group_for_enum(
                enum_name,
                parsed_variants.as_slice(),
                &root_attrs,
            ),
            entry: generate_entry_impl_for_enum(
                value_name.as_str(),
                parsed_variants.as_slice(),
                &root_attrs,
            ),
        },
    };
    let close_value_impl = generate_close_value_impls_for_enum(
        enum_name,
        value_name.as_str(),
        parsed_variants.as_slice(),
        &root_attrs,
    );
    let root_entry_specifics = match root_attrs.mode {
        MetricMode::RootEntry => Some(
            generate_on_drop_wrapper(
                input.vis,
                joined(enum_name, "Guard").as_str(),
                enum_name,
                value_name.as_str(),
                joined(enum_name, "Handle").as_str(),
            ),
        ),
        _ => None,
    };
    Ok(
        UnionMetrics {
            base_enum,
            value_enum,
            inner_impl,
            close_value_impl,
            warnings,
            root_entry_specifics,
        },
    )
}

impl Default for RawMetricsVariantAttrs {
    /// The attributes of a case that declares none.
    fn default() -> (r: RawMetricsVariantAttrs)
        ensures
            spec_variant_attr_findings(r).len() == 0,
            spec_variant_attrs(r) == (MetricsVariantAttrsView { name: None }),
    {
        RawMetricsVariantAttrs {
            name: None,
            unit: Flag::absent(),
            timestamp: Flag::absent(),
            flatten: Flag::absent(),
            sample_group: Flag::absent(),
        }
    }
}

} // verus!
