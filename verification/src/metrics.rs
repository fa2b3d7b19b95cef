//! A declaration in, generated code out: which path a declaration takes, and
//! what is handed back when it cannot be compiled.

use vstd::prelude::*;
use vstd::string::*;
use crate::attrs::MetricMode;
use crate::attrs::RawRootAttributes;
use crate::attrs::RootAttributes;
use crate::attrs::RootAttributesView;
use crate::attrs::spec_default_root;
use crate::attrs::spec_root_attrs;
use crate::attrs::spec_root_error;
use crate::enums::CoreVariant;
use crate::enums::CoreVariantData;
use crate::enums::CoreVariantDataView;
use crate::enums::CoreVariantView;
use crate::enums::EnumDecl;
use crate::enums::EnumDeclView;
use crate::enums::UnionMetrics;
use crate::enums::UnionMetricsView;
use crate::enums::generate_metrics_for_enum;
use crate::enums::spec_union_findings;
use crate::enums::spec_union_metrics;
use crate::input::Data;
use crate::input::DeriveInput;
use crate::input::Field;
use crate::input::Fields;
use crate::input::Variant;
use crate::seqs::lemma_deep_view_push;
use crate::source::Diagnostic;
use crate::source::DiagnosticView;
use crate::source::spec_error;
use crate::structs::RecordMetrics;
use crate::structs::RecordMetricsView;
use crate::structs::StructDecl;
use crate::structs::StructDeclView;
use crate::structs::clean_attrs;
use crate::structs::clean_base_struct;
use crate::structs::clean_base_unnamed_struct;
use crate::structs::clean_fields;
use crate::structs::generate_metrics_for_struct;
use crate::structs::single;
use crate::structs::spec_clean_attrs;
use crate::structs::spec_clean_fields;
use crate::structs::spec_clean_struct;
use crate::structs::spec_struct_findings;
use crate::structs::spec_struct_metrics;

verus! {

/// All that is generated for a schema.
#[derive(Debug, PartialEq, Eq)]
pub enum Metrics {
    Record(RecordMetrics),
    Union(UnionMetrics),
}

/// [`Metrics`] as it is specified: text as a sequence of characters, lists as
/// sequences.
pub ghost enum MetricsView {
    Record(RecordMetricsView),
    Union(UnionMetricsView),
}

impl DeepView for Metrics {
    type V = MetricsView;

    open spec fn deep_view(&self) -> MetricsView {
        match self {
            Metrics::Record(r) => MetricsView::Record(r@),
            Metrics::Union(u) => MetricsView::Union(u@),
        }
    }
}

impl View for Metrics {
    type V = MetricsView;

    open spec fn view(&self) -> MetricsView {
        self.deep_view()
    }
}

/// The declaration that takes the place of a schema that could not be
/// compiled: the same declaration without the schema compiler's attributes,
/// so that what else refers to it still finds it.
#[derive(Debug, PartialEq, Eq)]
pub enum CleanDecl {
    Struct(StructDecl),
    Enum(EnumDecl),
    /// The declaration as it was written.
    Echo,
}

/// [`CleanDecl`] as it is specified: text as a sequence of characters, lists as
/// sequences.
pub ghost enum CleanDeclView {
    Struct(StructDeclView),
    Enum(EnumDeclView),
    Echo,
}

impl DeepView for CleanDecl {
    type V = CleanDeclView;

    open spec fn deep_view(&self) -> CleanDeclView {
        match self {
            CleanDecl::Struct(s) => CleanDeclView::Struct(s@),
            CleanDecl::Enum(e) => CleanDeclView::Enum(e@),
            CleanDecl::Echo => CleanDeclView::Echo,
        }
    }
}

impl View for CleanDecl {
    type V = CleanDeclView;

    open spec fn view(&self) -> CleanDeclView {
        self.deep_view()
    }
}

/// What comes of compiling one declaration.
#[derive(Debug, PartialEq, Eq)]
pub enum Outcome {
    /// The generated code.
    Generated(Metrics),
    /// The findings on the declaration, and the declaration that is handed
    /// back in place of the generated code.
    Rejected { fallback: CleanDecl, errors: Vec<Diagnostic> },
}

/// [`Outcome`] as it is specified: text as a sequence of characters, lists as
/// sequences.
pub ghost enum OutcomeView {
    Generated(MetricsView),
    Rejected { fallback: CleanDeclView, errors: Seq<DiagnosticView> },
}

impl DeepView for Outcome {
    type V = OutcomeView;

    open spec fn deep_view(&self) -> OutcomeView {
        match self {
            Outcome::Generated(m) => OutcomeView::Generated(m@),
            Outcome::Rejected { fallback, errors } => OutcomeView::Rejected {
                fallback: fallback@,
                errors: errors.deep_view(),
            },
        }
    }
}

impl View for Outcome {
    type V = OutcomeView;

    open spec fn view(&self) -> OutcomeView {
        self.deep_view()
    }
}

/// What the schema compiler hands back for one declaration.
#[derive(Debug, PartialEq, Eq)]
pub struct MacroOutput {
    /// The finding on the attributes of the schema, if there is one. The
    /// declaration is then validated as if it had declared none, and nothing
    /// is generated.
    pub root_error: Option<Diagnostic>,
    pub outcome: Outcome,
}

/// [`MacroOutput`] as it is specified: text as a sequence of characters, lists as
/// sequences.
pub ghost struct MacroOutputView {
    pub root_error: Option<DiagnosticView>,
    pub outcome: OutcomeView,
}

impl DeepView for MacroOutput {
    type V = MacroOutputView;

    open spec fn deep_view(&self) -> MacroOutputView {
        MacroOutputView { root_error: self.root_error.deep_view(), outcome: self.outcome@ }
    }
}

impl View for MacroOutput {
    type V = MacroOutputView;

    open spec fn view(&self) -> MacroOutputView {
        self.deep_view()
    }
}

/// The finding, if any, on the attributes of a schema: the front-end's, or
/// that of validation.
pub open spec fn spec_parse_root_error(attr: Result<RawRootAttributes, Diagnostic>) -> Option<
    DiagnosticView,
> {
    match attr {
        Err(d) => Some(d@),
        Ok(raw) => spec_root_error(raw),
    }
}

/// The validated attributes of a schema, or the finding on them.
pub fn parse_root_attrs(attr: Result<RawRootAttributes, Diagnostic>) -> (r: Result<
    RootAttributes,
    Diagnostic,
>)
    ensures
        match r {
            Ok(root) => spec_parse_root_error(attr) is None && attr is Ok && root@
                == spec_root_attrs(attr->Ok_0),
            Err(d) => spec_parse_root_error(attr) == Some(d@),
        },
{
    match attr {
        Ok(raw) => raw.validate(),
        Err(d) => Err(d),
    }
}

/// Which way a declaration goes.
pub ghost enum Route {
    Record(Seq<Field>),
    Union(Seq<Variant>),
    Refused(Seq<char>),
}

/// The path of a declaration in a given mode. An entry is a record with
/// named fields, or a union; a value is a record; a value that is written as
/// a string is a union.
pub open spec fn spec_path(mode: MetricMode, data: Data) -> Route {
    match mode {
        MetricMode::ValueString => match data {
            Data::Enum(variants) => Route::Union(variants@),
            _ => Route::Refused("Only enums are supported for values"@),
        },
        _ => match data {
            Data::Struct(Fields::Named(fields)) => Route::Record(fields@),
            Data::Struct(Fields::Unnamed(fields)) => if mode == MetricMode::Value {
                Route::Record(fields@)
            } else {
                Route::Refused("Only named fields are supported"@)
            },
            Data::Struct(Fields::Unit) => Route::Refused("Only named fields are supported"@),
            Data::Enum(variants) => if mode == MetricMode::Value {
                Route::Refused("Only structs are supported for entries"@)
            } else {
                Route::Union(variants@)
            },
            Data::Union => Route::Refused("Only structs are supported for entries"@),
        },
    }
}

/// The findings on a declaration with the given attributes.
pub open spec fn spec_findings(root: RootAttributesView, input: DeriveInput) -> Seq<
    DiagnosticView,
> {
    match spec_path(root.mode, input.data) {
        Route::Record(fields) => spec_struct_findings(root, input, fields),
        Route::Union(variants) => spec_union_findings(root, input, variants),
        Route::Refused(message) => seq![spec_error(message, input.span)],
    }
}

/// All that is generated for a declaration on which there is no finding.
pub open spec fn spec_metrics(root: RootAttributesView, input: DeriveInput) -> Option<MetricsView> {
    match spec_path(root.mode, input.data) {
        Route::Union(variants) => Some(
            MetricsView::Union(spec_union_metrics(root, input, variants)),
        ),
        Route::Record(fields) => Some(
            MetricsView::Record(spec_struct_metrics(root, input, fields)),
        ),
        Route::Refused(_) => None,
    }
}

/// Compiles a declaration with validated attributes. Generation cannot fail
/// once validation has passed: every finding is made before anything is
/// generated.
pub fn generate_metrics(root_attributes: RootAttributes, input: &DeriveInput) -> (r: Result<
    Metrics,
    Vec<Diagnostic>,
>)
    ensures
        match r {
            Ok(m) => spec_findings(root_attributes@, *input).len() == 0 && Some(m@)
                == spec_metrics(root_attributes@, *input),
            Err(errors) => errors.len() > 0 && errors.deep_view() == spec_findings(
                root_attributes@,
                *input,
            ),
        },
{
    match root_attributes.mode {
        MetricMode::RootEntry
        | MetricMode::Subfield
        | MetricMode::SubfieldOwned
        | MetricMode::Value => {
            let fields = match &input.data {
                Data::Struct(data_struct) => match data_struct {
                    Fields::Named(fields_named) => fields_named,
                    Fields::Unnamed(fields_unnamed) => {
                        if root_attributes.mode == MetricMode::Value {
                            fields_unnamed
                        } else {
                            return Err(
                                single(
                                    Diagnostic::new("Only named fields are supported", input.span),
                                ),
                            );
                        }
                    },
                    Fields::Unit => {
                        return Err(
                            single(Diagnostic::new("Only named fields are supported", input.span)),
                        );
                    },
                },
                Data::Enum(variants) => {
                    if root_attributes.mode == MetricMode::Value {
                        return Err(
                            single(
                                Diagnostic::new(
                                    "Only structs are supported for entries",
                                    input.span,
                                ),
                            ),
                        );
                    }
                    return match generate_metrics_for_enum(root_attributes, input, variants) {
                        Ok(m) => Ok(Metrics::Union(m)),
                        Err(e) => Err(e),
                    };
                },
                Data::Union => {
                    return Err(
                        single(
                            Diagnostic::new("Only structs are supported for entries", input.span),
                        ),
                    );
                },
            };
            match generate_metrics_for_struct(root_attributes, input, fields) {
                Ok(m) => Ok(Metrics::Record(m)),
                Err(e) => Err(e),
            }
        },
        MetricMode::ValueString => {
            let variants = match &input.data {
                Data::Enum(variants) => variants,
                _ => {
                    return Err(
                        single(Diagnostic::new("Only enums are supported for values", input.span)),
                    );
                },
            };
            match generate_metrics_for_enum(root_attributes, input, variants) {
                Ok(m) => Ok(Metrics::Union(m)),
                Err(e) => Err(e),
            }
        },
    }
}

/// A declared case without the schema compiler's attributes.
pub open spec fn spec_clean_variant(v: Variant) -> CoreVariantView {
    CoreVariantView {
        external_attrs: spec_clean_attrs(v.attrs.deep_view()),
        ident: v.ident.name@,
        data: match v.fields {
            Fields::Unit => CoreVariantDataView::Unit,
            Fields::Unnamed(fields) => CoreVariantDataView::Tuple(
                spec_clean_fields(fields@, false),
            ),
            Fields::Named(fields) => CoreVariantDataView::Struct(spec_clean_fields(fields@, true)),
        },
    }
}

/// The declared cases without the schema compiler's attributes.
pub open spec fn spec_clean_variants(variants: Seq<Variant>) -> Seq<CoreVariantView> {
    Seq::new(variants.len(), |i: int| spec_clean_variant(variants[i]))
}

/// The declaration as it was written, without the schema compiler's
/// attributes: on the declaration, on its fields, on its cases and on their
/// fields. A declaration that holds nothing to clean is handed back as it is.
pub open spec fn spec_clean_base_adt(input: DeriveInput) -> CleanDeclView {
    let filtered_attrs = spec_clean_attrs(input.attrs.deep_view());
    match input.data {
        Data::Struct(Fields::Named(fields)) => CleanDeclView::Struct(
            spec_clean_struct(
                input.vis,
                input.ident.name@,
                input.generics,
                filtered_attrs,
                fields@,
                true,
            ),
        ),
        Data::Struct(Fields::Unnamed(fields)) => CleanDeclView::Struct(
            spec_clean_struct(
                input.vis,
                input.ident.name@,
                input.generics,
                filtered_attrs,
                fields@,
                false,
            ),
        ),
        Data::Struct(Fields::Unit) => CleanDeclView::Echo,
        Data::Enum(variants) => CleanDeclView::Enum(
            EnumDeclView {
                attrs: filtered_attrs,
                vis: input.vis,
                name: input.ident.name@,
                generics: input.generics,
                variants: spec_clean_variants(variants@),
            },
        ),
        Data::Union => CleanDeclView::Echo,
    }
}

/// The cases of a declaration, each without the schema compiler's
/// attributes.
pub fn clean_variants(variants: &[Variant]) -> (r: Vec<CoreVariant>)
    ensures
        r.deep_view() == spec_clean_variants(variants@),
{
    let mut out: Vec<CoreVariant> = Vec::new();
    let mut i: usize = 0;
    while i < variants.len()
        invariant
            i <= variants.len(),
            out.deep_view().len() == i,
            forall|j: int|
                0 <= j < i ==> #[trigger] out.deep_view()[j] == spec_clean_variant(variants@[j]),
        decreases variants.len() - i,
    {
        let v = &variants[i];
        let data = match &v.fields {
            Fields::Unit => CoreVariantData::Unit,
            Fields::Unnamed(fields) => CoreVariantData::Tuple(
                clean_fields(fields.as_slice(), false),
            ),
            Fields::Named(fields) => CoreVariantData::Struct(clean_fields(fields.as_slice(), true)),
        };
        let ghost before = out;
        let c = CoreVariant {
            external_attrs: clean_attrs(v.attrs.as_slice()),
            ident: v.ident.name.clone(),
            data,
        };
        out.push(c);
        proof {
            lemma_deep_view_push(before, out, c);
        }
        i += 1;
    }
    out
}

/// The declaration as it was written, without the schema compiler's
/// attributes.
pub fn clean_base_adt(input: &DeriveInput) -> (r: CleanDecl)
    ensures
        r@ == spec_clean_base_adt(*input),
{
    let adt_name = input.ident.name.as_str();
    let vis = input.vis;
    let generics = input.generics;
    let filtered_attrs = clean_attrs(input.attrs.as_slice());
    match &input.data {
        Data::Struct(data_struct) => match data_struct {
            Fields::Named(fields_named) => CleanDecl::Struct(
                clean_base_struct(vis, adt_name, generics, filtered_attrs, fields_named.as_slice()),
            ),
            Fields::Unnamed(fields_unnamed) => CleanDecl::Struct(
                clean_base_unnamed_struct(
                    vis,
                    adt_name,
                    generics,
                    filtered_attrs,
                    fields_unnamed.as_slice(),
                ),
            ),
            Fields::Unit => CleanDecl::Echo,
        },
        Data::Enum(variants) => CleanDecl::Enum(
            EnumDecl {
                attrs: filtered_attrs,
                vis,
                name: String::from_str(adt_name),
                generics,
                variants: clean_variants(variants.as_slice()),
            },
        ),
        Data::Union => CleanDecl::Echo,
    }
}

/// The attributes that a declaration is validated with: its own where they
/// are valid, none otherwise.
pub open spec fn spec_effective_root(
    attr: Result<RawRootAttributes, Diagnostic>,
) -> RootAttributesView {
    match attr {
        Ok(raw) => if spec_root_error(raw) is None {
            spec_root_attrs(raw)
        } else {
            spec_default_root()
        },
        Err(_) => spec_default_root(),
    }
}

/// What the schema compiler hands back for a declaration. Code is generated
/// only where there is no finding at all. A finding on the attributes of the
/// schema does not end the work: the declaration is still validated, as if it
/// had declared none, so that the findings on its fields are reported in the
/// same pass. Where there is any finding, on the attributes or on the
/// declaration, nothing is generated: the declaration is handed back without
/// the schema compiler's attributes, beside the findings.
pub open spec fn spec_macro_output(
    attr: Result<RawRootAttributes, Diagnostic>,
    input: DeriveInput,
) -> MacroOutputView {
    let root = spec_effective_root(attr);
    MacroOutputView {
        root_error: spec_parse_root_error(attr),
        outcome: match spec_metrics(root, input) {
            Some(generated) if spec_parse_root_error(attr) is None && spec_findings(
                root,
                input,
            ).len() == 0 => OutcomeView::Generated(generated),
            _ => OutcomeView::Rejected {
                fallback: spec_clean_base_adt(input),
                errors: spec_findings(root, input),
            },
        },
    }
}

/// Compiles one declaration into the code that makes it a unit-of-work
/// metric. Where there is a finding, on the attributes of the schema or on the
/// declaration, no code is generated for it.
pub fn metrics(attr: Result<RawRootAttributes, Diagnostic>, input: &DeriveInput) -> (r: MacroOutput)
    ensures
        r@ == spec_macro_output(attr, *input),
        r@.outcome is Generated <==> spec_parse_root_error(attr) is None && spec_findings(
            spec_effective_root(attr),
            *input,
        ).len() == 0,
        r@.outcome is Rejected ==> r@.outcome->Rejected_fallback == spec_clean_base_adt(*input),
{
    let mut root_error: Option<Diagnostic> = None;
    let root_attrs = match parse_root_attrs(attr) {
        Ok(root_attrs) => root_attrs,
        Err(e) => {
            root_error = Some(e);
            RootAttributes::default()
        },
    };
    let outcome = match generate_metrics(root_attrs, input) {
        Ok(output) => {
            if root_error.is_some() {
                let errors: Vec<Diagnostic> = Vec::new();
                assert(errors.deep_view() =~= Seq::empty());
                Outcome::Rejected { fallback: clean_base_adt(input), errors }
            } else {
                Outcome::Generated(output)
            }
        },
        Err(errors) => Outcome::Rejected { fallback: clean_base_adt(input), errors },
    };
    MacroOutput { root_error, outcome }
}

} // verus!
