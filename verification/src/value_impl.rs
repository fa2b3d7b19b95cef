//! Schemas that are written as a single value.

use vstd::prelude::*;
use vstd::string::*;
use crate::attrs::RootAttributes;
use crate::attrs::RootAttributesView;
use crate::enums::FromAndSampleGroup;
use crate::enums::FromAndSampleGroupView;
use crate::enums::MetricsVariant;
use crate::enums::generate_from_and_sample_group_for_enum;
use crate::enums::spec_from_and_sample_group;
use crate::field_attrs::MetricsFieldKind;
use crate::field_attrs::MetricsFieldKindView;
use crate::inflect::NameStyle;
use crate::seqs::filter_map;
use crate::seqs::lemma_deep_view_push;
use crate::seqs::lemma_filter_map_step;
use crate::source::Diagnostic;
use crate::source::DiagnosticView;
use crate::source::Span;
use crate::source::Syntax;
use crate::source::spec_error;
use crate::structs::Member;
use crate::structs::MemberView;
use crate::structs::MetricsField;
use crate::structs::MetricsFieldView;

verus! {

/// The value of a field as it is handed to the writer: the field itself, or
/// the field behind its formatter where one is declared.
#[derive(Debug, PartialEq, Eq)]
pub struct ValueExpr {
    pub field: Member,
    pub format: Option<Syntax>,
    pub span: Span,
}

/// [`ValueExpr`] as it is specified: text as a sequence of characters, lists as
/// sequences.
pub ghost struct ValueExprView {
    pub field: MemberView,
    pub format: Option<Syntax>,
    pub span: Span,
}

impl DeepView for ValueExpr {
    type V = ValueExprView;

    open spec fn deep_view(&self) -> ValueExprView {
        ValueExprView {
            field: self.field@,
            format: self.format,
            span: self.span,
        }
    }
}

impl View for ValueExpr {
    type V = ValueExprView;

    open spec fn view(&self) -> ValueExprView {
        self.deep_view()
    }
}


/// The value of a field as it is handed to the writer: behind its
/// formatter where one is declared.
pub fn format_value(format: &Option<Syntax>, span: Span, field: Member) -> (r: ValueExpr)
    ensures
        r@ == (ValueExprView { field: field@, format: *format, span }),
{
    ValueExpr { field, format: *format, span }
}

/// The sample group of a value schema: that of its one field.
#[derive(Debug, PartialEq, Eq)]
pub struct SampleGroupForward {
    pub field: Member,
    pub span: Span,
}

/// [`SampleGroupForward`] as it is specified: text as a sequence of characters, lists as
/// sequences.
pub ghost struct SampleGroupForwardView {
    pub field: MemberView,
    pub span: Span,
}

impl DeepView for SampleGroupForward {
    type V = SampleGroupForwardView;

    open spec fn deep_view(&self) -> SampleGroupForwardView {
        SampleGroupForwardView {
            field: self.field@,
            span: self.span,
        }
    }
}

impl View for SampleGroupForward {
    type V = SampleGroupForwardView;

    open spec fn view(&self) -> SampleGroupForwardView {
        self.deep_view()
    }
}

/// How a value schema writes itself: as its one field that is not ignored,
/// or as nothing where every field is ignored.
#[derive(Debug, PartialEq, Eq)]
pub struct ValueImpl {
    pub value_name: String,
    pub body: Option<ValueExpr>,
    pub sample_group: Option<SampleGroupForward>,
}

/// [`ValueImpl`] as it is specified: text as a sequence of characters, lists as
/// sequences.
pub ghost struct ValueImplView {
    pub value_name: Seq<char>,
    pub body: Option<ValueExprView>,
    pub sample_group: Option<SampleGroupForwardView>,
}

impl DeepView for ValueImpl {
    type V = ValueImplView;

    open spec fn deep_view(&self) -> ValueImplView {
        ValueImplView {
            value_name: self.value_name@,
            body: self.body.deep_view(),
            sample_group: self.sample_group.deep_view(),
        }
    }
}

impl View for ValueImpl {
    type V = ValueImplView;

    open spec fn view(&self) -> ValueImplView {
        self.deep_view()
    }
}


/// Keeps a field unless it is ignored.
pub open spec fn spec_pick_kept() -> spec_fn(MetricsFieldView) -> Option<MetricsFieldView> {
    |f: MetricsFieldView|
        if f.is_ignored() {
            None
        } else {
            Some(f)
        }
}

/// The fields that are not ignored, in their order.
pub open spec fn spec_non_ignored(fields: Seq<MetricsFieldView>) -> Seq<MetricsFieldView> {
    filter_map(fields, spec_pick_kept())
}

/// The fields that are not ignored, in their order.
pub fn non_ignored_fields(fields: &[MetricsField]) -> (r: Vec<&MetricsField>)
    ensures
        r.deep_view() == spec_non_ignored(fields.deep_view()),
{
    let mut out: Vec<&MetricsField> = Vec::new();
    let mut i: usize = 0;
    while i < fields.len()
        invariant
            i <= fields.len(),
            out.deep_view() == filter_map(fields.deep_view().take(i as int), spec_pick_kept()),
        decreases fields.len() - i,
    {
        proof {
            lemma_filter_map_step(fields.deep_view(), i as int, spec_pick_kept());
        }
        if !fields[i].is_ignored() {
            let ghost before = out;
            let f = &fields[i];
            out.push(f);
            proof {
                lemma_deep_view_push(before, out, f);
            }
        }
        i += 1;
    }
    assert(fields.deep_view().take(fields.len() as int) =~= fields.deep_view());
    out
}

/// The finding, if any, on the one field of a value schema: the mark of a
/// sample group and a name belong to the schema, not to the field.
pub open spec fn spec_value_field_error(f: MetricsFieldView) -> Option<DiagnosticView> {
    match f.attrs.kind {
        MetricsFieldKindView::Field { sample_group, name, .. } => if sample_group is Some {
            Some(
                spec_error(
                    "`sample_group` in value structs is used as a struct attribute, not a field attribute: `#[metrics(value, sample_group)]`"@,
                    f.span,
                ),
            )
        } else if name is Some {
            Some(spec_error("`name` does not make sense with #[metrics(value)]"@, f.span))
        } else {
            None
        },
        _ => None,
    }
}

/// The finding, if any, on the attributes of a value schema of which `kept`
/// fields are not ignored.
pub open spec fn spec_value_root_error(
    root: RootAttributesView,
    value_span: Span,
    kept: nat,
) -> Option<DiagnosticView> {
    if root.sample_group && kept == 0 {
        Some(spec_error("`sample_group` requires a non-ignore field"@, value_span))
    } else if root.emf_dimensions is Some {
        Some(spec_error("emf_dimensions is not supported for #[metrics(value)]"@, value_span))
    } else if root.prefix is Some {
        Some(spec_error("prefix is not supported for #[metrics(value)]"@, value_span))
    } else if root.rename_all != NameStyle::Preserve {
        Some(spec_error("NameStyle is not supported for #[metrics(value)]"@, value_span))
    } else {
        None
    }
}

/// The first finding on a value schema, if there is one: more than one field
/// that is not ignored; an attribute on its field that belongs to the schema;
/// a schema attribute that a value cannot have.
pub open spec fn spec_value_struct_error(
    root: RootAttributesView,
    value_span: Span,
    fields: Seq<MetricsFieldView>,
) -> Option<DiagnosticView> {
    let kept = spec_non_ignored(fields);
    if kept.len() > 1 {
        Some(spec_error("multiple non-ignored fields for #[metrics(value)]"@, kept[1].span))
    } else if kept.len() == 1 && spec_value_field_error(kept[0]) is Some {
        spec_value_field_error(kept[0])
    } else {
        spec_value_root_error(root, value_span, kept.len())
    }
}

/// Checks that a record can be written as a single value.
pub fn validate_value_impl_for_struct(
    root_attrs: &RootAttributes,
    value_span: Span,
    parsed_fields: &[MetricsField],
) -> (r: Result<(), Diagnostic>)
    ensures
        match r {
            Ok(_) => spec_value_struct_error(root_attrs@, value_span, parsed_fields.deep_view())
                is None,
            Err(d) => spec_value_struct_error(root_attrs@, value_span, parsed_fields.deep_view())
                == Some(d@),
        },
{
    let non_ignore_fields = non_ignored_fields(parsed_fields);
    if non_ignore_fields.len() > 1 {
        return Err(
            Diagnostic::new(
                "multiple non-ignored fields for #[metrics(value)]",
                non_ignore_fields[1].span,
            ),
        );
    }
    if non_ignore_fields.len() == 1 {
        let field = non_ignore_fields[0];
        if let MetricsFieldKind::Field { unit: _, sample_group, name, format: _ } =
            &field.attrs.kind {
            if sample_group.is_some() {
                return Err(
                    Diagnostic::new(
                        "`sample_group` in value structs is used as a struct attribute, not a field attribute: `#[metrics(value, sample_group)]`",
                        field.span,
                    ),
                );
            }
            if name.is_some() {
                return Err(
                    Diagnostic::new("`name` does not make sense with #[metrics(value)]", field.span),
                );
            }
        }
    }
    if root_attrs.sample_group && non_ignore_fields.len() == 0 {
        return Err(Diagnostic::new("`sample_group` requires a non-ignore field", value_span));
    }
    if root_attrs.emf_dimensions.is_some() {
        return Err(
            Diagnostic::new("emf_dimensions is not supported for #[metrics(value)]", value_span),
        );
    }
    if root_attrs.prefix.is_some() {
        return Err(Diagnostic::new("prefix is not supported for #[metrics(value)]", value_span));
    }
    if root_attrs.rename_all != NameStyle::Preserve {
        return Err(Diagnostic::new("NameStyle is not supported for #[metrics(value)]", value_span));
    }
    Ok(())
}

/// The finding, if any, that the one field of a value schema is not a plain
/// field.
pub open spec fn spec_value_impl_error(fields: Seq<MetricsFieldView>) -> Option<DiagnosticView> {
    let kept = spec_non_ignored(fields);
    if kept.len() > 0 && !(kept[0].attrs.kind is Field) {
        Some(spec_error("only plain fields are supported in #[metrics(value)]"@, kept[0].span))
    } else {
        None
    }
}

/// How a value schema writes itself.
pub open spec fn spec_value_impl(
    root: RootAttributesView,
    value_name: Seq<char>,
    fields: Seq<MetricsFieldView>,
) -> ValueImplView {
    let kept = spec_non_ignored(fields);
    if kept.len() == 0 {
        ValueImplView { value_name, body: None, sample_group: None }
    } else {
        let f = kept[0];
        ValueImplView {
            value_name,
            body: Some(
                ValueExprView {
                    field: f.ident,
                    format: match f.attrs.kind {
                        MetricsFieldKindView::Field { format, .. } => format,
                        _ => None,
                    },
                    span: f.span,
                },
            ),
            sample_group: if root.sample_group {
                Some(SampleGroupForwardView { field: f.ident, span: f.span })
            } else {
                None
            },
        }
    }
}

/// How a value schema writes itself: as its one field that is not ignored.
pub fn generate_value_impl_for_struct(
    root_attrs: &RootAttributes,
    value_name: &str,
    parsed_fields: &[MetricsField],
) -> (r: Result<ValueImpl, Diagnostic>)
    requires
        spec_non_ignored(parsed_fields.deep_view()).len() <= 1,
    ensures
        match r {
            Ok(v) => spec_value_impl_error(parsed_fields.deep_view()) is None && v@
                == spec_value_impl(root_attrs@, value_name@, parsed_fields.deep_view()),
            Err(d) => spec_value_impl_error(parsed_fields.deep_view()) == Some(d@),
        },
{
    let non_ignore_fields = non_ignored_fields(parsed_fields);
    if non_ignore_fields.len() == 0 {
        return Ok(
            ValueImpl { value_name: String::from_str(value_name), body: None, sample_group: None },
        );
    }
    let field = non_ignore_fields[0];
    match &field.attrs.kind {
        MetricsFieldKind::Field { unit: _, sample_group: _, name: _, format } => {
            let value = format_value(format, field.span, field.ident.clone());
            let sample_group_impl = if root_attrs.sample_group {
                Some(SampleGroupForward { field: field.ident.clone(), span: field.span })
            } else {
                None
            };
            Ok(
                ValueImpl {
                    value_name: String::from_str(value_name),
                    body: Some(value),
                    sample_group: sample_group_impl,
                },
            )
        },
        _ => Err(
            Diagnostic::new("only plain fields are supported in #[metrics(value)]", field.span),
        ),
    }
}

/// How a union that is a value writes itself: as the name of its case.
#[derive(Debug, PartialEq, Eq)]
pub struct UnionValueImpl {
    pub from_and_sample_group: FromAndSampleGroup,
    pub value_name: String,
}

/// [`UnionValueImpl`] as it is specified: text as a sequence of characters, lists as
/// sequences.
pub ghost struct UnionValueImplView {
    pub from_and_sample_group: FromAndSampleGroupView,
    pub value_name: Seq<char>,
}

impl DeepView for UnionValueImpl {
    type V = UnionValueImplView;

    open spec fn deep_view(&self) -> UnionValueImplView {
        UnionValueImplView {
            from_and_sample_group: self.from_and_sample_group@,
            value_name: self.value_name@,
        }
    }
}

impl View for UnionValueImpl {
    type V = UnionValueImplView;

    open spec fn view(&self) -> UnionValueImplView {
        self.deep_view()
    }
}


/// How a union that is a value writes itself: as the name of its case.
pub fn generate_value_impl_for_enum(
    root_attrs: &RootAttributes,
    value_name: &str,
    parsed_variants: &[MetricsVariant],
) -> (r: UnionValueImpl)
    ensures
        r@ == (UnionValueImplView {
            from_and_sample_group: spec_from_and_sample_group(
                value_name@,
                parsed_variants.deep_view(),
                root_attrs@,
            ),
            value_name: value_name@,
        }),
{
    let from_and_sample_group = generate_from_and_sample_group_for_enum(
        value_name,
        parsed_variants,
        root_attrs,
    );
    UnionValueImpl { from_and_sample_group, value_name: String::from_str(value_name) }
}

} // verus!
