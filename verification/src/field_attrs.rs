//! The attributes of one field: its kind, and what a leaf field carries.

use vstd::prelude::*;
use vstd::string::*;
use crate::attrs::Prefix;
use crate::attrs::PrefixLevel;
use crate::attrs::PrefixView;
use crate::attrs::get_field_flag;
use crate::attrs::get_field_option;
use crate::attrs::set_exclusive;
use crate::attrs::spec_leaf_only_conflict;
use crate::attrs::spec_prefix;
use crate::attrs::spec_prefix_error;
use crate::attrs::spec_set_exclusive;
use crate::attrs::spec_then_exclusive;
use crate::attrs::spec_validate_name;
use crate::attrs::validate_name;
use crate::source::AttrName;
use crate::source::Diagnostic;
use crate::source::DiagnosticView;
use crate::source::Flag;
use crate::source::Span;
use crate::source::SpannedKv;
use crate::source::Syntax;
use crate::source::cannot_combine_error;
use crate::source::spec_cannot_combine;
use crate::source::spec_error;

verus! {

/// The attributes of a field as declared.
#[derive(Debug, Clone, PartialEq, Eq)]
pub struct RawMetricsFieldAttrs {
    pub flatten: Flag,
    pub flatten_entry: Flag,
    pub no_close: Flag,
    pub timestamp: Flag,
    pub sample_group: Flag,
    pub ignore: Flag,
    pub unit: Option<SpannedKv<Syntax>>,
    pub format: Option<SpannedKv<Syntax>>,
    pub name: Option<SpannedKv<String>>,
    pub prefix: Option<SpannedKv<String>>,
    pub exact_prefix: Option<SpannedKv<String>>,
}

/// What a field is to the entry. The kinds exclude one another.
#[derive(Debug, Clone, PartialEq, Eq)]
pub enum MetricsFieldKind {
    /// Left out of the entry.
    Ignore(Span),
    /// A nested schema whose fields join the entry, behind a prefix if one
    /// is declared.
    Flatten { span: Span, prefix: Option<Prefix> },
    /// A nested entry that is written as it is.
    FlattenEntry(Span),
    /// The time of the entry.
    Timestamp(Span),
    /// A value of its own.
    Field {
        unit: Option<Syntax>,
        name: Option<String>,
        format: Option<Syntax>,
        sample_group: Option<Span>,
    },
}

/// [`MetricsFieldKind`] as it is specified: text as a sequence of characters, lists as
/// sequences.
pub ghost enum MetricsFieldKindView {
    Ignore(Span),
    Flatten { span: Span, prefix: Option<PrefixView> },
    FlattenEntry(Span),
    Timestamp(Span),
    Field {
        unit: Option<Syntax>,
        name: Option<Seq<char>>,
        format: Option<Syntax>,
        sample_group: Option<Span>,
    },
}

impl DeepView for MetricsFieldKind {
    type V = MetricsFieldKindView;

    open spec fn deep_view(&self) -> MetricsFieldKindView {
        match self {
            MetricsFieldKind::Ignore(span) => MetricsFieldKindView::Ignore(*span),
            MetricsFieldKind::Flatten { span, prefix } => MetricsFieldKindView::Flatten {
                span: *span,
                prefix: prefix.deep_view(),
            },
            MetricsFieldKind::FlattenEntry(span) => MetricsFieldKindView::FlattenEntry(*span),
            MetricsFieldKind::Timestamp(span) => MetricsFieldKindView::Timestamp(*span),
            MetricsFieldKind::Field {
                unit,
                name,
                format,
                sample_group,
            } => MetricsFieldKindView::Field {
                unit: *unit,
                name: name.deep_view(),
                format: *format,
                sample_group: *sample_group,
            },
        }
    }
}

impl View for MetricsFieldKind {
    type V = MetricsFieldKindView;

    open spec fn view(&self) -> MetricsFieldKindView {
        self.deep_view()
    }
}

/// The validated attributes of a field.
#[derive(Debug, Clone, PartialEq, Eq)]
pub struct MetricsFieldAttrs {
    /// Whether the value is closed on its way into the entry.
    pub close: bool,
    pub kind: MetricsFieldKind,
}

/// [`MetricsFieldAttrs`] as it is specified: text as a sequence of characters, lists as
/// sequences.
pub ghost struct MetricsFieldAttrsView {
    pub close: bool,
    pub kind: MetricsFieldKindView,
}

impl DeepView for MetricsFieldAttrs {
    type V = MetricsFieldAttrsView;

    open spec fn deep_view(&self) -> MetricsFieldAttrsView {
        MetricsFieldAttrsView { close: self.close, kind: self.kind.deep_view() }
    }
}

impl View for MetricsFieldAttrs {
    type V = MetricsFieldAttrsView;

    open spec fn view(&self) -> MetricsFieldAttrsView {
        self.deep_view()
    }
}

/// The first of two findings that is there.
pub open spec fn first_of(a: Option<DiagnosticView>, b: Option<DiagnosticView>) -> Option<
    DiagnosticView,
> {
    match a {
        Some(_) => a,
        None => b,
    }
}

/// The place of a `key = value` attribute, if it is declared.
pub open spec fn spec_key_span<T>(kv: Option<SpannedKv<T>>) -> Option<Span> {
    match kv {
        Some(kv) => Some(kv.key_span),
        None => None,
    }
}

/// The place of a flag, if it is present.
pub open spec fn spec_flag_span(flag: Flag) -> Option<Span> {
    if flag.present {
        Some(flag.span)
    } else {
        None
    }
}

/// The kind that the declared flags select, as far as they agree: the first
/// one present sets it, and a second one is refused.
pub open spec fn spec_kind_state(raw: RawMetricsFieldAttrs) -> Result<
    Option<(MetricsFieldKindView, AttrName)>,
    DiagnosticView,
> {
    let s1 = spec_set_exclusive(
        MetricsFieldKindView::Flatten { span: raw.flatten.span, prefix: None },
        AttrName::Flatten,
        None,
        raw.flatten,
    );
    let s2 = spec_then_exclusive(
        s1,
        MetricsFieldKindView::FlattenEntry(raw.flatten_entry.span),
        AttrName::FlattenEntry,
        raw.flatten_entry,
    );
    let s3 = spec_then_exclusive(
        s2,
        MetricsFieldKindView::Timestamp(raw.timestamp.span),
        AttrName::Timestamp,
        raw.timestamp,
    );
    spec_then_exclusive(
        s3,
        MetricsFieldKindView::Ignore(raw.ignore.span),
        AttrName::Ignore,
        raw.ignore,
    )
}

/// The attribute that set the kind, if one did.
pub open spec fn spec_kind_name(out: Option<(MetricsFieldKindView, AttrName)>) -> Option<
    AttrName,
> {
    match out {
        Some((_, name)) => Some(name),
        None => None,
    }
}

/// The finding, if any, that an ignored field declares `no_close`.
pub open spec fn spec_no_close_conflict(
    raw: RawMetricsFieldAttrs,
    out: Option<(MetricsFieldKindView, AttrName)>,
) -> Option<DiagnosticView> {
    match out {
        Some((MetricsFieldKindView::Ignore(span), _)) => if raw.no_close.present {
            Some(spec_cannot_combine(AttrName::NoClose, AttrName::Ignore, span))
        } else {
            None
        },
        _ => None,
    }
}

/// The finding, if any, that a field which is not flattened declares a
/// prefix.
pub open spec fn spec_prefix_misplaced(
    raw: RawMetricsFieldAttrs,
    out: Option<(MetricsFieldKindView, AttrName)>,
) -> Option<DiagnosticView> {
    match spec_prefix(raw.prefix, raw.exact_prefix) {
        Some((_, span)) => match out {
            Some((MetricsFieldKindView::Flatten { .. }, _)) => None,
            _ => Some(spec_error("prefix can only be used with `flatten`"@, span)),
        },
        None => None,
    }
}

/// The first finding on the attributes of a field, if there is one. They are
/// looked for in this order: two kinds at once; a name that is empty or holds
/// white space; `name`, `unit`, `format` or `sample_group` on a field that is not
/// a leaf; `no_close` on an ignored field; a prefix that is refused; a prefix
/// on a field that is not flattened.
pub open spec fn spec_field_error(raw: RawMetricsFieldAttrs) -> Option<DiagnosticView> {
    match spec_kind_state(raw) {
        Err(e) => Some(e),
        Ok(out) => {
            let kind = spec_kind_name(out);
            first_of(
                spec_validate_name(raw.name),
                first_of(
                    spec_leaf_only_conflict(AttrName::Name, kind, spec_key_span(raw.name)),
                    first_of(
                        spec_leaf_only_conflict(AttrName::Unit, kind, spec_key_span(raw.unit)),
                        first_of(
                            spec_leaf_only_conflict(
                                AttrName::Format,
                                kind,
                                spec_key_span(raw.format),
                            ),
                            first_of(
                                spec_leaf_only_conflict(
                                    AttrName::SampleGroup,
                                    kind,
                                    spec_flag_span(raw.sample_group),
                                ),
                                first_of(
                                    spec_no_close_conflict(raw, out),
                                    first_of(
                                        spec_prefix_error(
                                            raw.prefix,
                                            raw.exact_prefix,
                                            PrefixLevel::Field,
                                        ),
                                        spec_prefix_misplaced(raw, out),
                                    ),
                                ),
                            ),
                        ),
                    ),
                ),
            )
        },
    }
}

/// The prefix alone of a declared prefix and its place.
pub open spec fn spec_prefix_value(p: Option<(PrefixView, Span)>) -> Option<PrefixView> {
    match p {
        Some((p, _)) => Some(p),
        None => None,
    }
}

/// The value of a `key = value` attribute, if it is declared.
pub open spec fn spec_kv_value<T>(kv: Option<SpannedKv<T>>) -> Option<T> {
    match kv {
        Some(kv) => Some(kv.value),
        None => None,
    }
}

/// The validated attributes of a field on which there is no finding.
pub open spec fn spec_field_attrs(raw: RawMetricsFieldAttrs) -> MetricsFieldAttrsView {
    MetricsFieldAttrsView {
        close: !raw.no_close.present,
        kind: match spec_kind_state(raw) {
            Ok(Some((MetricsFieldKindView::Flatten { span, .. }, _))) => {
                MetricsFieldKindView::Flatten {
                    span,
                    prefix: spec_prefix_value(spec_prefix(raw.prefix, raw.exact_prefix)),
                }
            },
            Ok(Some((kind, _))) => kind,
            _ => MetricsFieldKindView::Field {
                unit: spec_kv_value(raw.unit),
                name: spec_kv_value(raw.name).deep_view(),
                format: spec_kv_value(raw.format),
                sample_group: spec_flag_span(raw.sample_group),
            },
        },
    }
}

/// The kind selected so far, seen as it is specified.
pub open spec fn kind_state_view(out: Option<(MetricsFieldKind, AttrName)>) -> Option<
    (MetricsFieldKindView, AttrName),
> {
    match out {
        Some((k, n)) => Some((k@, n)),
        None => None,
    }
}

impl RawMetricsFieldAttrs {
    /// The kind that the four kind flags select.
    fn kind_flags(&self) -> (r: Result<Option<(MetricsFieldKind, AttrName)>, Diagnostic>)
        ensures
            match r {
                Ok(out) => spec_kind_state(*self) == Ok::<
                    Option<(MetricsFieldKindView, AttrName)>,
                    DiagnosticView,
                >(kind_state_view(out)),
                Err(d) => spec_kind_state(*self) == Err::<
                    Option<(MetricsFieldKindView, AttrName)>,
                    DiagnosticView,
                >(d@),
            },
    {
        let out: Option<(MetricsFieldKind, AttrName)> = None;
        let out = match set_exclusive(
            MetricsFieldKind::Flatten { span: self.flatten.span(), prefix: None },
            AttrName::Flatten,
            out,
            &self.flatten,
        ) {
            Ok(o) => o,
            Err(e) => {
                return Err(e);
            },
        };
        let out = match set_exclusive(
            MetricsFieldKind::FlattenEntry(self.flatten_entry.span()),
            AttrName::FlattenEntry,
            out,
            &self.flatten_entry,
        ) {
            Ok(o) => o,
            Err(e) => {
                return Err(e);
            },
        };
        let out = match set_exclusive(
            MetricsFieldKind::Timestamp(self.timestamp.span()),
            AttrName::Timestamp,
            out,
            &self.timestamp,
        ) {
            Ok(o) => o,
            Err(e) => {
                return Err(e);
            },
        };
        let out = match set_exclusive(
            MetricsFieldKind::Ignore(self.ignore.span()),
            AttrName::Ignore,
            out,
            &self.ignore,
        ) {
            Ok(o) => o,
            Err(e) => {
                return Err(e);
            },
        };
        Ok(out)
    }

    /// Validates the attributes of a field: the first finding, or the
    /// attributes as they stand.
    pub fn validate(&self) -> (r: Result<MetricsFieldAttrs, Diagnostic>)
        ensures
            match r {
                Ok(attrs) => spec_field_error(*self) is None && attrs@ == spec_field_attrs(*self),
                Err(d) => spec_field_error(*self) == Some(d@),
            },
    {
        let out = match self.kind_flags() {
            Ok(o) => o,
            Err(e) => {
                return Err(e);
            },
        };
        if let Some(n) = &self.name {
            match validate_name(n) {
                Ok(_) => {},
                Err(e) => {
                    return Err(e);
                },
            }
        }
        let name = match get_field_option(AttrName::Name, &out, &self.name) {
            Ok(n) => n,
            Err(e) => {
                return Err(e);
            },
        };
        let unit = match get_field_option(AttrName::Unit, &out, &self.unit) {
            Ok(u) => u,
            Err(e) => {
                return Err(e);
            },
        };
        let format = match get_field_option(AttrName::Format, &out, &self.format) {
            Ok(f) => f,
            Err(e) => {
                return Err(e);
            },
        };
        let sample_group = match get_field_flag(AttrName::SampleGroup, &out, &self.sample_group) {
            Ok(s) => s,
            Err(e) => {
                return Err(e);
            },
        };
        let close = !self.no_close.is_present();
        if !close {
            if let Some((MetricsFieldKind::Ignore(span), _)) = &out {
                return Err(cannot_combine_error(AttrName::NoClose, AttrName::Ignore, *span));
            }
        }
        let prefix = match Prefix::from_inflectable_and_exact(
            &self.prefix,
            &self.exact_prefix,
            PrefixLevel::Field,
        ) {
            Ok(p) => p,
            Err(e) => {
                return Err(e);
            },
        };
        let kind = match prefix {
            Some((prefix_, prefix_span)) => match out {
                Some((MetricsFieldKind::Flatten { span, .. }, _)) => MetricsFieldKind::Flatten {
                    span,
                    prefix: Some(prefix_),
                },
                _ => {
                    return Err(
                        Diagnostic::new("prefix can only be used with `flatten`", prefix_span),
                    );
                },
            },
            None => match out {
                Some((out, _)) => out,
                None => MetricsFieldKind::Field {
                    sample_group,
                    name: match name {
                        Some(n) => Some(n.clone()),
                        None => None,
                    },
                    unit: match unit {
                        Some(u) => Some(*u),
                        None => None,
                    },
                    format: match format {
                        Some(f) => Some(*f),
                        None => None,
                    },
                },
            },
        };
        Ok(MetricsFieldAttrs { close, kind })
    }
}

impl Default for RawMetricsFieldAttrs {
    /// The attributes of a field that declares none: a plain field that is
    /// closed.
    fn default() -> (r: RawMetricsFieldAttrs)
        ensures
            spec_field_error(r) is None,
            spec_field_attrs(r) == (MetricsFieldAttrsView {
                close: true,
                kind: MetricsFieldKindView::Field {
                    unit: None,
                    name: None,
                    format: None,
                    sample_group: None,
                },
            }),
    {
        RawMetricsFieldAttrs {
            flatten: Flag::absent(),
            flatten_entry: Flag::absent(),
            no_close: Flag::absent(),
            timestamp: Flag::absent(),
            sample_group: Flag::absent(),
            ignore: Flag::absent(),
            unit: None,
            format: None,
            name: None,
            prefix: None,
            exact_prefix: None,
        }
    }
}

} // verus!
