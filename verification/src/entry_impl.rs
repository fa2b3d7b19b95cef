//! How an entry writes itself: one statement for each field that is written,
//! and the chain of its sample groups.

use vstd::prelude::*;
use vstd::string::*;
use crate::attrs::ConfigurationField;
use crate::attrs::DimensionSets;
use crate::attrs::Prefix;
use crate::attrs::PrefixView;
use crate::attrs::RootAttributes;
use crate::attrs::RootAttributesView;
use crate::chain::Chain;
use crate::chain::ChainView;
use crate::chain::chain_view;
use crate::chain::make_binary_tree_chain;
use crate::chain::spec_chain;
use crate::chain::two_to;
use crate::emit::member_eq;
use crate::field_attrs::MetricsFieldKind;
use crate::field_attrs::MetricsFieldKindView;
use crate::inflect::HasInflectableName;
use crate::inflect::NameStyle;
use crate::inflect::metric_name;
use crate::inflect::spec_apply_prefix;
use crate::inflect::spec_metric_name;
use crate::seqs::distinct;
use crate::seqs::filter_map;
use crate::seqs::lemma_add_distinct_step;
use crate::seqs::lemma_deep_view_append;
use crate::seqs::lemma_deep_view_push;
use crate::seqs::lemma_distinct;
use crate::seqs::lemma_filter_map_concat;
use crate::seqs::lemma_filter_map_step;
use crate::source::Span;
use crate::structs::Member;
use crate::structs::MemberView;
use crate::structs::MetricsField;
use crate::structs::MetricsFieldView;
use crate::text::joined;
use crate::value_impl::ValueExpr;
use crate::value_impl::ValueExprView;
use crate::value_impl::format_value;

verus! {

/// A named constant string of the generated code.
#[derive(Debug, PartialEq, Eq)]
pub struct ConstStr {
    pub ident: String,
    pub value: String,
}

/// [`ConstStr`] as it is specified: text as a sequence of characters, lists as
/// sequences.
pub ghost struct ConstStrView {
    pub ident: Seq<char>,
    pub value: Seq<char>,
}

impl DeepView for ConstStr {
    type V = ConstStrView;

    open spec fn deep_view(&self) -> ConstStrView {
        ConstStrView {
            ident: self.ident@,
            value: self.value@,
        }
    }
}

impl View for ConstStr {
    type V = ConstStrView;

    open spec fn view(&self) -> ConstStrView {
        self.deep_view()
    }
}

/// A name under each of the four case styles.
#[derive(Debug, PartialEq, Eq)]
pub struct NameTable {
    pub preserve: String,
    pub pascal: String,
    pub snake: String,
    pub kebab: String,
}

/// [`NameTable`] as it is specified: text as a sequence of characters, lists as
/// sequences.
pub ghost struct NameTableView {
    pub preserve: Seq<char>,
    pub pascal: Seq<char>,
    pub snake: Seq<char>,
    pub kebab: Seq<char>,
}

impl DeepView for NameTable {
    type V = NameTableView;

    open spec fn deep_view(&self) -> NameTableView {
        NameTableView {
            preserve: self.preserve@,
            pascal: self.pascal@,
            snake: self.snake@,
            kebab: self.kebab@,
        }
    }
}

impl View for NameTable {
    type V = NameTableView;

    open spec fn view(&self) -> NameTableView {
        self.deep_view()
    }
}

/// The case style in which a schema resolves its names, relative to the
/// style that the enclosing schema hands down.
#[derive(Clone, Copy, Debug, PartialEq, Eq, Structural)]
pub enum NsBase {
    /// The style handed down, unchanged.
    Inherit,
    PascalCase,
    SnakeCase,
    KebabCase,
}

/// A case style to resolve names in, selected at some place.
#[derive(Clone, Copy, Debug, PartialEq, Eq, Structural)]
pub struct Ns {
    pub base: NsBase,
    pub span: Span,
}

/// What a table of names stands for.
#[derive(Clone, Copy, Debug, PartialEq, Eq, Structural)]
pub enum InflectKind {
    /// A full metric name, behind whatever prefix is handed down.
    Inflect,
    /// A part of a name, such as a prefix.
    InflectAffix,
}

/// The choice among the four constants of a table, made by the case style
/// in force where the name is used.
#[derive(Debug, PartialEq, Eq)]
pub struct InflectName {
    pub ns: Ns,
    pub inflect: InflectKind,
    pub name_ident: String,
    pub name_pascal: String,
    pub name_snake: String,
    pub name_kebab: String,
}

/// [`InflectName`] as it is specified: text as a sequence of characters, lists as
/// sequences.
pub ghost struct InflectNameView {
    pub ns: Ns,
    pub inflect: InflectKind,
    pub name_ident: Seq<char>,
    pub name_pascal: Seq<char>,
    pub name_snake: Seq<char>,
    pub name_kebab: Seq<char>,
}

impl DeepView for InflectName {
    type V = InflectNameView;

    open spec fn deep_view(&self) -> InflectNameView {
        InflectNameView {
            ns: self.ns,
            inflect: self.inflect,
            name_ident: self.name_ident@,
            name_pascal: self.name_pascal@,
            name_snake: self.name_snake@,
            name_kebab: self.name_kebab@,
        }
    }
}

impl View for InflectName {
    type V = InflectNameView;

    open spec fn view(&self) -> InflectNameView {
        self.deep_view()
    }
}

/// A prefix that is put before every name of a flattened schema.
#[derive(Debug, PartialEq, Eq)]
pub enum PrefixArg {
    /// Chosen by the case style in force.
    Inflected { name: InflectName, span: Span },
    /// The constant of this name, whatever the case style.
    Exact { ident: String, span: Span },
}

/// [`PrefixArg`] as it is specified: text as a sequence of characters, lists as
/// sequences.
pub ghost enum PrefixArgView {
    Inflected { name: InflectNameView, span: Span },
    Exact { ident: Seq<char>, span: Span },
}

impl DeepView for PrefixArg {
    type V = PrefixArgView;

    open spec fn deep_view(&self) -> PrefixArgView {
        match self {
            PrefixArg::Inflected { name, span } => PrefixArgView::Inflected {
                name: name@,
                span: *span,
            },
            PrefixArg::Exact { ident, span } => PrefixArgView::Exact { ident: ident@, span: *span },
        }
    }
}

impl View for PrefixArg {
    type V = PrefixArgView;

    open spec fn view(&self) -> PrefixArgView {
        self.deep_view()
    }
}

/// The namespace that a flattened schema resolves its names in: a case
/// style, and the prefixes appended to what is handed down, outermost first.
#[derive(Debug, PartialEq, Eq)]
pub struct Namespace {
    pub base: Ns,
    pub prefixes: Vec<PrefixArg>,
}

/// [`Namespace`] as it is specified: text as a sequence of characters, lists as
/// sequences.
pub ghost struct NamespaceView {
    pub base: Ns,
    pub prefixes: Seq<PrefixArgView>,
}

impl DeepView for Namespace {
    type V = NamespaceView;

    open spec fn deep_view(&self) -> NamespaceView {
        NamespaceView {
            base: self.base,
            prefixes: self.prefixes.deep_view(),
        }
    }
}

impl View for Namespace {
    type V = NamespaceView;

    open spec fn view(&self) -> NamespaceView {
        self.deep_view()
    }
}

/// One statement of the code that writes an entry.
#[derive(Debug, PartialEq, Eq)]
pub enum WriteStatement {
    /// Writes a configuration field of the entry.
    Configuration { config: ConfigurationField },
    /// Hands the field to the writer as the time of the entry.
    Timestamp { field: Member, span: Span },
    /// Lets the nested entry write itself.
    FlattenEntry { field: Member, span: Span },
    /// Lets the nested schema write itself in the given namespace, after
    /// the constants in `extra` are declared.
    Flatten { field: Member, span: Span, extra: Vec<ConstStr>, ns: Namespace },
    /// Writes the field as a value under its name, after the constants in
    /// `extra` are declared.
    Value { span: Span, extra: Vec<ConstStr>, name: InflectName, value: ValueExpr },
}

/// [`WriteStatement`] as it is specified: text as a sequence of characters, lists as
/// sequences.
pub ghost enum WriteStatementView {
    Configuration { config: ConfigurationField },
    Timestamp { field: MemberView, span: Span },
    FlattenEntry { field: MemberView, span: Span },
    Flatten { field: MemberView, span: Span, extra: Seq<ConstStrView>, ns: NamespaceView },
    Value {
        span: Span,
        extra: Seq<ConstStrView>,
        name: InflectNameView,
        value: ValueExprView,
    },
}

impl DeepView for WriteStatement {
    type V = WriteStatementView;

    open spec fn deep_view(&self) -> WriteStatementView {
        match self {
            WriteStatement::Configuration { config } => WriteStatementView::Configuration {
                config: *config,
            },
            WriteStatement::Timestamp { field, span } => WriteStatementView::Timestamp {
                field: field@,
                span: *span,
            },
            WriteStatement::FlattenEntry { field, span } => WriteStatementView::FlattenEntry {
                field: field@,
                span: *span,
            },
            WriteStatement::Flatten { field, span, extra, ns } => WriteStatementView::Flatten {
                field: field@,
                span: *span,
                extra: extra.deep_view(),
                ns: ns@,
            },
            WriteStatement::Value { span, extra, name, value } => WriteStatementView::Value {
                span: *span,
                extra: extra.deep_view(),
                name: name@,
                value: value@,
            },
        }
    }
}

impl View for WriteStatement {
    type V = WriteStatementView;

    open spec fn view(&self) -> WriteStatementView {
        self.deep_view()
    }
}

/// One source of sample groups of an entry.
#[derive(Debug, PartialEq, Eq)]
pub enum SampleGroupStatement {
    /// The sample groups of the nested schema, under their own names.
    Flatten { field: Member, span: Span, ns: Ns },
    /// The sample groups of the nested entry.
    FlattenEntry { field: Member, span: Span },
    /// The field itself, as one tag under its name.
    Tag { field: Member, span: Span, extra: Vec<ConstStr>, name: InflectName },
}

/// [`SampleGroupStatement`] as it is specified: text as a sequence of characters, lists as
/// sequences.
pub ghost enum SampleGroupStatementView {
    Flatten { field: MemberView, span: Span, ns: Ns },
    FlattenEntry { field: MemberView, span: Span },
    Tag { field: MemberView, span: Span, extra: Seq<ConstStrView>, name: InflectNameView },
}

impl DeepView for SampleGroupStatement {
    type V = SampleGroupStatementView;

    open spec fn deep_view(&self) -> SampleGroupStatementView {
        match self {
            SampleGroupStatement::Flatten { field, span, ns } => SampleGroupStatementView::Flatten {
                field: field@,
                span: *span,
                ns: *ns,
            },
            SampleGroupStatement::FlattenEntry {
                field,
                span,
            } => SampleGroupStatementView::FlattenEntry { field: field@, span: *span },
            SampleGroupStatement::Tag {
                field,
                span,
                extra,
                name,
            } => SampleGroupStatementView::Tag {
                field: field@,
                span: *span,
                extra: extra.deep_view(),
                name: name@,
            },
        }
    }
}

impl View for SampleGroupStatement {
    type V = SampleGroupStatementView;

    open spec fn view(&self) -> SampleGroupStatementView {
        self.deep_view()
    }
}

/// How the entry of a schema writes itself, under whatever case style the
/// enclosing schema selects.
#[derive(Debug, PartialEq, Eq)]
pub struct EntryImpl {
    pub entry_name: String,
    pub writes: Vec<WriteStatement>,
    pub sample_groups: Chain<SampleGroupStatement>,
}

/// [`EntryImpl`] as it is specified: text as a sequence of characters, lists as
/// sequences.
pub ghost struct EntryImplView {
    pub entry_name: Seq<char>,
    pub writes: Seq<WriteStatementView>,
    pub sample_groups: ChainView<SampleGroupStatementView>,
}

impl DeepView for EntryImpl {
    type V = EntryImplView;

    open spec fn deep_view(&self) -> EntryImplView {
        EntryImplView {
            entry_name: self.entry_name@,
            writes: self.writes.deep_view(),
            sample_groups: self.sample_groups.deep_view(),
        }
    }
}

impl View for EntryImpl {
    type V = EntryImplView;

    open spec fn view(&self) -> EntryImplView {
        self.deep_view()
    }
}

/// The case style that a schema with the given `rename_all` resolves its
/// names in: the style handed down where it preserves names, its own style
/// otherwise.
pub open spec fn spec_make_ns(ns: NameStyle, span: Span) -> Ns {
    Ns {
        base: match ns {
            NameStyle::PascalCase => NsBase::PascalCase,
            NameStyle::SnakeCase => NsBase::SnakeCase,
            NameStyle::KebabCase => NsBase::KebabCase,
            NameStyle::Preserve => NsBase::Inherit,
        },
        span,
    }
}

/// The case style that a schema with the given `rename_all` resolves its
/// names in.
pub fn make_ns(ns: NameStyle, span: Span) -> (r: Ns)
    ensures
        r == spec_make_ns(ns, span),
{
    match ns {
        NameStyle::PascalCase => Ns { base: NsBase::PascalCase, span },
        NameStyle::SnakeCase => Ns { base: NsBase::SnakeCase, span },
        NameStyle::KebabCase => Ns { base: NsBase::KebabCase, span },
        NameStyle::Preserve => Ns { base: NsBase::Inherit, span },
    }
}

/// A named constant string of the generated code.
pub fn const_str(ident: &str, value: &str) -> (r: ConstStr)
    ensures
        r@ == (ConstStrView { ident: ident@, value: value@ }),
{
    ConstStr { ident: String::from_str(ident), value: String::from_str(value) }
}

/// The name of the constant that holds a name in `style`: the stem followed
/// by the word for the style.
pub open spec fn spec_const_name(stem: Seq<char>, style: NameStyle) -> Seq<char> {
    stem + style.spec_word()
}

/// The name of the constant that holds the name of `field` in `style`: the
/// field's name followed by the word for the style.
pub open spec fn spec_const_str_struct_name(style: NameStyle, field: MetricsFieldView) -> Seq<
    char,
> {
    spec_const_name(field.name(), style)
}

/// The name of the constant that holds the name of `field` in
/// `name_style`.
pub fn const_str_struct_name(name_style: NameStyle, field: &MetricsField) -> (r: String)
    requires
        field@.is_named(),
    ensures
        r@ == spec_const_str_struct_name(name_style, field@),
{
    let stem = field.name();
    joined(stem.as_str(), name_style.to_word())
}

/// The four constants that hold a table of names, named after `stem`.
pub open spec fn spec_stem_constants(names: NameTableView, stem: Seq<char>) -> Seq<ConstStrView> {
    seq![
        ConstStrView { ident: spec_const_name(stem, NameStyle::Preserve), value: names.preserve },
        ConstStrView { ident: spec_const_name(stem, NameStyle::KebabCase), value: names.kebab },
        ConstStrView { ident: spec_const_name(stem, NameStyle::PascalCase), value: names.pascal },
        ConstStrView { ident: spec_const_name(stem, NameStyle::SnakeCase), value: names.snake },
    ]
}

/// The choice among the four constants named after `stem`, made by `ns`.
pub open spec fn spec_stem_inflect_name(
    ns: Ns,
    inflect: InflectKind,
    stem: Seq<char>,
) -> InflectNameView {
    InflectNameView {
        ns,
        inflect,
        name_ident: spec_const_name(stem, NameStyle::Preserve),
        name_pascal: spec_const_name(stem, NameStyle::PascalCase),
        name_snake: spec_const_name(stem, NameStyle::SnakeCase),
        name_kebab: spec_const_name(stem, NameStyle::KebabCase),
    }
}

/// The four constants that hold a table of names for `field`.
pub open spec fn spec_inflect_constants(names: NameTableView, field: MetricsFieldView) -> Seq<
    ConstStrView,
> {
    spec_stem_constants(names, field.name())
}

/// The choice among the four constants of `field`, made by `ns`.
pub open spec fn spec_inflect_name(
    ns: Ns,
    inflect: InflectKind,
    field: MetricsFieldView,
) -> InflectNameView {
    spec_stem_inflect_name(ns, inflect, field.name())
}

/// Declares a table of names as four constants named after `stem`, and
/// gives the choice among them that `ns` makes.
pub fn make_inflect_for(ns: &Ns, inflect: InflectKind, names: &NameTable, stem: &str) -> (r: (
    Vec<ConstStr>,
    InflectName,
))
    ensures
        r.0.deep_view() == spec_stem_constants(names@, stem@),
        r.1@ == spec_stem_inflect_name(*ns, inflect, stem@),
{
    let name_ident = joined(stem, NameStyle::Preserve.to_word());
    let name_kebab = joined(stem, NameStyle::KebabCase.to_word());
    let name_pascal = joined(stem, NameStyle::PascalCase.to_word());
    let name_snake = joined(stem, NameStyle::SnakeCase.to_word());
    let extra_preserve = const_str(name_ident.as_str(), names.preserve.as_str());
    let extra_kebab = const_str(name_kebab.as_str(), names.kebab.as_str());
    let extra_pascal = const_str(name_pascal.as_str(), names.pascal.as_str());
    let extra_snake = const_str(name_snake.as_str(), names.snake.as_str());
    let mut extra: Vec<ConstStr> = Vec::new();
    extra.push(extra_preserve);
    extra.push(extra_kebab);
    extra.push(extra_pascal);
    extra.push(extra_snake);
    (extra, InflectName { ns: *ns, inflect, name_ident, name_pascal, name_snake, name_kebab })
}

/// Declares a table of names for `field` as four constants, and gives the
/// choice among them that `ns` makes.
pub fn make_inflect(ns: &Ns, inflect: InflectKind, names: &NameTable, field: &MetricsField) -> (r: (
    Vec<ConstStr>,
    InflectName,
))
    requires
        field@.is_named(),
    ensures
        r.0.deep_view() == spec_inflect_constants(names@, field@),
        r.1@ == spec_inflect_name(*ns, inflect, field@),
{
    let stem = field.name();
    make_inflect_for(ns, inflect, names, stem.as_str())
}

/// The metric name of a declaration under each of the four case styles.
pub open spec fn spec_name_table(
    prefix: Option<PrefixView>,
    name_override: Option<Seq<char>>,
    name: Seq<char>,
) -> NameTableView {
    NameTableView {
        preserve: spec_metric_name(prefix, NameStyle::Preserve, name_override, name),
        pascal: spec_metric_name(prefix, NameStyle::PascalCase, name_override, name),
        snake: spec_metric_name(prefix, NameStyle::SnakeCase, name_override, name),
        kebab: spec_metric_name(prefix, NameStyle::KebabCase, name_override, name),
    }
}

/// Resolves the metric name of `field` under every case style at once, so
/// that choosing a style later costs no work on strings.
pub fn name_table<F: HasInflectableName>(root_attrs: &RootAttributes, field: &F) -> (r: NameTable)
    requires
        field.spec_name_override() is None ==> field.spec_has_name(),
    ensures
        r@ == spec_name_table(
            root_attrs.prefix.deep_view(),
            field.spec_name_override(),
            field.spec_name(),
        ),
{
    NameTable {
        preserve: metric_name(root_attrs, NameStyle::Preserve, field),
        pascal: metric_name(root_attrs, NameStyle::PascalCase, field),
        snake: metric_name(root_attrs, NameStyle::SnakeCase, field),
        kebab: metric_name(root_attrs, NameStyle::KebabCase, field),
    }
}

/// An inflectable prefix under each of the four case styles.
pub open spec fn spec_prefix_table(prefix: Seq<char>) -> NameTableView {
    NameTableView {
        preserve: spec_apply_prefix(NameStyle::Preserve, prefix),
        pascal: spec_apply_prefix(NameStyle::PascalCase, prefix),
        snake: spec_apply_prefix(NameStyle::SnakeCase, prefix),
        kebab: spec_apply_prefix(NameStyle::KebabCase, prefix),
    }
}

/// Resolves an inflectable prefix under every case style at once.
pub fn prefix_table(prefix: &str) -> (r: NameTable)
    ensures
        r@ == spec_prefix_table(prefix@),
{
    NameTable {
        preserve: NameStyle::Preserve.apply_prefix(prefix),
        pascal: NameStyle::PascalCase.apply_prefix(prefix),
        snake: NameStyle::SnakeCase.apply_prefix(prefix),
        kebab: NameStyle::KebabCase.apply_prefix(prefix),
    }
}

/// Declares the metric name of `field` under every case style, and gives
/// the choice among them that the style of the schema makes.
pub fn make_inflect_metric_name(root_attrs: &RootAttributes, field: &MetricsField) -> (r: (
    Vec<ConstStr>,
    InflectName,
))
    requires
        field@.is_named(),
    ensures
        r.0.deep_view() == spec_inflect_constants(
            spec_name_table(root_attrs@.prefix, field@.name_override(), field@.name()),
            field@,
        ),
        r.1@ == spec_inflect_name(
            spec_make_ns(root_attrs.rename_all, field.span),
            InflectKind::Inflect,
            field@,
        ),
{
    let names = name_table(root_attrs, field);
    make_inflect(&make_ns(root_attrs.rename_all, field.span), InflectKind::Inflect, &names, field)
}

/// Declares one constant named after `stem` that holds `name` as it is.
pub fn make_const_str_noinflect(name: String, stem: &str) -> (r: (Vec<ConstStr>, String))
    ensures
        r.0.deep_view() == seq![
            ConstStrView { ident: spec_const_name(stem@, NameStyle::Preserve), value: name@ },
        ],
        r.1@ == spec_const_name(stem@, NameStyle::Preserve),
{
    let name_ident = joined(stem, NameStyle::Preserve.to_word());
    let mut extra: Vec<ConstStr> = Vec::new();
    extra.push(const_str(name_ident.as_str(), name.as_str()));
    (extra, name_ident)
}

/// Appends a prefix to a namespace: the names resolved in the result stand
/// behind the prefixes of `ns` and then behind `prefix`.
pub fn append_prefix_to_ns(ns: Namespace, extra: Vec<ConstStr>, prefix: PrefixArg) -> (r: (
    Vec<ConstStr>,
    Namespace,
))
    ensures
        r.0 == extra,
        r.1@ == (NamespaceView { base: ns.base, prefixes: ns@.prefixes.push(prefix@) }),
{
    let mut ns = ns;
    let ghost before = ns.prefixes;
    ns.prefixes.push(prefix);
    proof {
        lemma_deep_view_push(before, ns.prefixes, prefix);
    }
    (extra, ns)
}

/// One prefix as a layer of a namespace: the constants that hold it, named
/// after `stem`, and the prefix as the namespace takes it. An inflectable
/// prefix is resolved under every case style as a prefix, so that it ends with
/// the style's delimiter; an exact prefix is one constant.
pub open spec fn spec_prefix_layer(
    ns: Ns,
    prefix: Option<PrefixView>,
    stem: Seq<char>,
    span: Span,
) -> (Seq<ConstStrView>, Seq<PrefixArgView>) {
    match prefix {
        None => (Seq::empty(), Seq::empty()),
        Some(PrefixView::Inflectable { prefix }) => (
            spec_stem_constants(spec_prefix_table(prefix), stem),
            seq![
                PrefixArgView::Inflected {
                    name: spec_stem_inflect_name(ns, InflectKind::InflectAffix, stem),
                    span,
                },
            ],
        ),
        Some(PrefixView::Exact(exact_prefix)) => (
            seq![
                ConstStrView {
                    ident: spec_const_name(stem, NameStyle::Preserve),
                    value: exact_prefix,
                },
            ],
            seq![PrefixArgView::Exact { ident: spec_const_name(stem, NameStyle::Preserve), span }],
        ),
    }
}

/// The constants and the namespace for a flattened field of a schema: the
/// schema's own case style, behind the prefix of the field where it has one.
pub open spec fn spec_flatten_namespace(
    ns: Ns,
    prefix: Option<PrefixView>,
    field: MetricsFieldView,
) -> (Seq<ConstStrView>, NamespaceView) {
    (
        spec_prefix_layer(ns, prefix, field.name(), field.span).0,
        NamespaceView {
            base: ns,
            prefixes: spec_prefix_layer(ns, prefix, field.name(), field.span).1,
        },
    )
}

/// The statement that writes `f`: none for an ignored field.
pub open spec fn spec_write_statement(root: RootAttributesView, f: MetricsFieldView) -> Option<
    WriteStatementView,
> {
    let ns = spec_make_ns(root.rename_all, f.span);
    match f.attrs.kind {
        MetricsFieldKindView::Timestamp(span) => Some(
            WriteStatementView::Timestamp { field: f.ident, span },
        ),
        MetricsFieldKindView::FlattenEntry(span) => Some(
            WriteStatementView::FlattenEntry { field: f.ident, span },
        ),
        MetricsFieldKindView::Flatten { span, prefix } => Some(
            WriteStatementView::Flatten {
                field: f.ident,
                span,
                extra: spec_flatten_namespace(ns, prefix, f).0,
                ns: spec_flatten_namespace(ns, prefix, f).1,
            },
        ),
        MetricsFieldKindView::Ignore(_) => None,
        MetricsFieldKindView::Field { format, .. } => Some(
            WriteStatementView::Value {
                span: f.span,
                extra: spec_inflect_constants(
                    spec_name_table(root.prefix, f.name_override(), f.name()),
                    f,
                ),
                name: spec_inflect_name(ns, InflectKind::Inflect, f),
                value: ValueExprView { field: f.ident, format, span: f.span },
            },
        ),
    }
}

/// Picks the statement that writes a field, where there is one.
pub open spec fn spec_pick_write(root: RootAttributesView) -> spec_fn(MetricsFieldView) -> Option<
    WriteStatementView,
> {
    |f: MetricsFieldView| spec_write_statement(root, f)
}

/// The statements that write the configuration fields.
pub open spec fn spec_write_configuration(dims: Option<DimensionSets>) -> Seq<WriteStatementView> {
    match dims {
        Some(_) => seq![
            WriteStatementView::Configuration { config: ConfigurationField::EntryDimensions },
        ],
        None => seq![],
    }
}

/// The statements that write an entry: those for the configuration fields,
/// then one for each field that is not ignored, in the order of the fields.
pub open spec fn spec_write_statements(
    fields: Seq<MetricsFieldView>,
    root: RootAttributesView,
) -> Seq<WriteStatementView> {
    spec_write_configuration(root.emf_dimensions) + filter_map(fields, spec_pick_write(root))
}

/// Whether every field has a name.
pub open spec fn spec_all_named(fields: Seq<MetricsFieldView>) -> bool {
    forall|i: int| 0 <= i < fields.len() ==> (#[trigger] fields[i]).is_named()
}

/// Puts one more prefix behind those of a namespace, where there is one.
pub fn extend_namespace(ns: Namespace, prefix: &Option<Prefix>, stem: &str, span: Span) -> (r: (
    Vec<ConstStr>,
    Namespace,
))
    ensures
        r.0.deep_view() == spec_prefix_layer(ns.base, prefix.deep_view(), stem@, span).0,
        r.1@ == (NamespaceView {
            base: ns.base,
            prefixes: ns@.prefixes + spec_prefix_layer(ns.base, prefix.deep_view(), stem@, span).1,
        }),
{
    let base = ns.base;
    let ghost before = ns@.prefixes;
    match prefix {
        None => {
            let extra: Vec<ConstStr> = Vec::new();
            (extra, ns)
        },
        Some(Prefix::Inflectable { prefix: inflectable }) => {
            let names = prefix_table(inflectable.as_str());
            let (extra, name) = make_inflect_for(&base, InflectKind::InflectAffix, &names, stem);
            let r = append_prefix_to_ns(ns, extra, PrefixArg::Inflected { name, span });
            assert(r.1@.prefixes =~= before + spec_prefix_layer(
                base,
                prefix.deep_view(),
                stem@,
                span,
            ).1);
            r
        },
        Some(Prefix::Exact(exact_prefix)) => {
            let (extra, ident) = make_const_str_noinflect(exact_prefix.clone(), stem);
            let r = append_prefix_to_ns(ns, extra, PrefixArg::Exact { ident, span });
            assert(r.1@.prefixes =~= before + spec_prefix_layer(
                base,
                prefix.deep_view(),
                stem@,
                span,
            ).1);
            r
        },
    }
}

/// The constants and the namespace for a flattened field.
pub fn flatten_namespace(ns: Ns, prefix: &Option<Prefix>, field: &MetricsField) -> (r: (
    Vec<ConstStr>,
    Namespace,
))
    requires
        field@.is_named(),
    ensures
        r.0.deep_view() == spec_flatten_namespace(ns, prefix.deep_view(), field@).0,
        r.1@ == spec_flatten_namespace(ns, prefix.deep_view(), field@).1,
{
    let stem = field.name();
    let plain = Namespace { base: ns, prefixes: Vec::new() };
    let r = extend_namespace(plain, prefix, stem.as_str(), field.span);
    r
}

/// The statement that writes one field.
pub fn write_statement(field: &MetricsField, root_attrs: &RootAttributes) -> (r: Option<
    WriteStatement,
>)
    requires
        field@.is_named(),
    ensures
        r.deep_view() == spec_write_statement(root_attrs@, field@),
{
    let field_span = field.span;
    let ns = make_ns(root_attrs.rename_all, field_span);
    match &field.attrs.kind {
        MetricsFieldKind::Timestamp(span) => Some(
            WriteStatement::Timestamp { field: field.ident.clone(), span: *span },
        ),
        MetricsFieldKind::FlattenEntry(span) => Some(
            WriteStatement::FlattenEntry { field: field.ident.clone(), span: *span },
        ),
        MetricsFieldKind::Flatten { span, prefix } => {
            let (extra, ns) = flatten_namespace(ns, prefix, field);
            Some(WriteStatement::Flatten { field: field.ident.clone(), span: *span, extra, ns })
        },
        MetricsFieldKind::Ignore(_) => None,
        MetricsFieldKind::Field { format, .. } => {
            let (extra, name) = make_inflect_metric_name(root_attrs, field);
            let value = format_value(format, field_span, field.ident.clone());
            Some(WriteStatement::Value { span: field_span, extra, name, value })
        },
    }
}

/// The statements that write the given fields: one for each field that is
/// not ignored, in the order of the fields.
pub fn field_write_statements(fields: &[MetricsField], root_attrs: &RootAttributes) -> (r: Vec<
    WriteStatement,
>)
    requires
        spec_all_named(fields.deep_view()),
    ensures
        r.deep_view() == filter_map(fields.deep_view(), spec_pick_write(root_attrs@)),
{
    let mut writes: Vec<WriteStatement> = Vec::new();
    let ghost pick = spec_pick_write(root_attrs@);
    let mut i: usize = 0;
    while i < fields.len()
        invariant
            i <= fields.len(),
            spec_all_named(fields.deep_view()),
            pick == spec_pick_write(root_attrs@),
            writes.deep_view() == filter_map(fields.deep_view().take(i as int), pick),
        decreases fields.len() - i,
    {
        proof {
            lemma_filter_map_step(fields.deep_view(), i as int, pick);
        }
        if let Some(w) = write_statement(&fields[i], root_attrs) {
            let ghost before = writes;
            writes.push(w);
            proof {
                lemma_deep_view_push(before, writes, w);
            }
        }
        i += 1;
    }
    assert(fields.deep_view().take(fields.len() as int) =~= fields.deep_view());
    writes
}

/// The statements that write an entry: those for the configuration fields,
/// then those for the fields.
pub fn generate_write_statements(fields: &[MetricsField], root_attrs: &RootAttributes) -> (r: Vec<
    WriteStatement,
>)
    requires
        spec_all_named(fields.deep_view()),
    ensures
        r.deep_view() == spec_write_statements(fields.deep_view(), root_attrs@),
{
    let mut writes: Vec<WriteStatement> = Vec::new();
    let config = root_attrs.configuration_fields();
    if config.len() > 0 {
        let ghost before = writes;
        let w = WriteStatement::Configuration { config: config[0] };
        writes.push(w);
        proof {
            lemma_deep_view_push(before, writes, w);
        }
    }
    let mut of_fields = field_write_statements(fields, root_attrs);
    let ghost head = writes;
    let ghost tail = of_fields;
    writes.append(&mut of_fields);
    proof {
        lemma_deep_view_append(head, writes, tail);
    }
    writes
}

/// The sources of sample groups among the given fields, in the order of the
/// fields.
pub fn sample_group_sources(fields: &[MetricsField], root_attrs: &RootAttributes) -> (r: Vec<
    SampleGroupStatement,
>)
    requires
        spec_all_named(fields.deep_view()),
    ensures
        r.deep_view() == spec_sample_group_sources(fields.deep_view(), root_attrs@),
{
    let mut sample_group_fields: Vec<SampleGroupStatement> = Vec::new();
    let ghost pick = spec_pick_sample_group(root_attrs@);
    let mut i: usize = 0;
    while i < fields.len()
        invariant
            i <= fields.len(),
            spec_all_named(fields.deep_view()),
            pick == spec_pick_sample_group(root_attrs@),
            sample_group_fields.deep_view() == filter_map(fields.deep_view().take(i as int), pick),
        decreases fields.len() - i,
    {
        proof {
            lemma_filter_map_step(fields.deep_view(), i as int, pick);
        }
        if let Some(s) = sample_group_statement(&fields[i], root_attrs) {
            let ghost before = sample_group_fields;
            sample_group_fields.push(s);
            proof {
                lemma_deep_view_push(before, sample_group_fields, s);
            }
        }
        i += 1;
    }
    assert(fields.deep_view().take(fields.len() as int) =~= fields.deep_view());
    sample_group_fields
}

/// The source of sample groups that `f` is: none for a field that is
/// ignored, that holds the time, or that is a leaf without the mark. A
/// flattened schema yields its own tags under their own names: no prefix of
/// the enclosing field reaches them.
pub open spec fn spec_sample_group_statement(
    root: RootAttributesView,
    f: MetricsFieldView,
) -> Option<SampleGroupStatementView> {
    match f.attrs.kind {
        MetricsFieldKindView::Flatten { span, .. } => Some(
            SampleGroupStatementView::Flatten {
                field: f.ident,
                span,
                ns: spec_make_ns(root.rename_all, f.span),
            },
        ),
        MetricsFieldKindView::FlattenEntry(span) => Some(
            SampleGroupStatementView::FlattenEntry { field: f.ident, span },
        ),
        MetricsFieldKindView::Field { sample_group: Some(span), .. } => Some(
            SampleGroupStatementView::Tag {
                field: f.ident,
                span,
                extra: spec_inflect_constants(
                    spec_name_table(root.prefix, f.name_override(), f.name()),
                    f,
                ),
                name: spec_inflect_name(
                    spec_make_ns(root.rename_all, f.span),
                    InflectKind::Inflect,
                    f,
                ),
            },
        ),
        _ => None,
    }
}

/// Picks the source of sample groups that a field is, where it is one.
pub open spec fn spec_pick_sample_group(root: RootAttributesView) -> spec_fn(
    MetricsFieldView,
) -> Option<SampleGroupStatementView> {
    |f: MetricsFieldView| spec_sample_group_statement(root, f)
}

/// The sources of sample groups of an entry, in the order of the fields.
pub open spec fn spec_sample_group_sources(
    fields: Seq<MetricsFieldView>,
    root: RootAttributesView,
) -> Seq<SampleGroupStatementView> {
    filter_map(fields, spec_pick_sample_group(root))
}

/// The source of sample groups that one field is.
pub fn sample_group_statement(field: &MetricsField, root_attrs: &RootAttributes) -> (r: Option<
    SampleGroupStatement,
>)
    requires
        field@.is_named(),
    ensures
        r.deep_view() == spec_sample_group_statement(root_attrs@, field@),
{
    match &field.attrs.kind {
        MetricsFieldKind::Flatten { span, prefix: _ } => {
            let ns = make_ns(root_attrs.rename_all, field.span);
            Some(SampleGroupStatement::Flatten { field: field.ident.clone(), span: *span, ns })
        },
        MetricsFieldKind::FlattenEntry(span) => Some(
            SampleGroupStatement::FlattenEntry { field: field.ident.clone(), span: *span },
        ),
        MetricsFieldKind::Field { sample_group: Some(span), .. } => {
            let (extra, name) = make_inflect_metric_name(root_attrs, field);
            Some(
                SampleGroupStatement::Tag { field: field.ident.clone(), span: *span, extra, name },
            )
        },
        MetricsFieldKind::Field { sample_group: None, .. }
        | MetricsFieldKind::Ignore(_)
        | MetricsFieldKind::Timestamp(_) => None,
    }
}

/// The sample groups of an entry: the sources among its fields, in the
/// order of the fields, joined into a balanced chain.
pub fn generate_sample_group_statements(
    fields: &[MetricsField],
    root_attrs: &RootAttributes,
) -> (r: Chain<SampleGroupStatement>)
    requires
        spec_all_named(fields.deep_view()),
    ensures
        r.deep_view() == spec_chain(spec_sample_group_sources(fields.deep_view(), root_attrs@)),
        r.deep_view().items() == spec_sample_group_sources(fields.deep_view(), root_attrs@),
        forall|k: nat|
            spec_sample_group_sources(fields.deep_view(), root_attrs@).len() <= two_to(k)
                ==> r.deep_view().depth() <= k,
{
    let sample_group_fields = sample_group_sources(fields, root_attrs);
    make_binary_tree_chain(sample_group_fields)
}

/// How the entry of a record writes itself.
pub open spec fn spec_entry_impl(
    entry_name: Seq<char>,
    fields: Seq<MetricsFieldView>,
    root: RootAttributesView,
) -> EntryImplView {
    EntryImplView {
        entry_name,
        writes: spec_write_statements(fields, root),
        sample_groups: spec_chain(spec_sample_group_sources(fields, root)),
    }
}

/// How the entry of a record writes itself and yields its sample groups,
/// under whatever case style the enclosing schema selects.
pub fn generate_entry_impl(
    entry_name: &str,
    fields: &[MetricsField],
    root_attrs: &RootAttributes,
) -> (r: EntryImpl)
    requires
        spec_all_named(fields.deep_view()),
    ensures
        r@ == spec_entry_impl(entry_name@, fields.deep_view(), root_attrs@),
{
    let writes = generate_write_statements(fields, root_attrs);
    let sample_groups = generate_sample_group_statements(fields, root_attrs);
    EntryImpl { entry_name: String::from_str(entry_name), writes, sample_groups }
}

impl NameTableView {
    /// The name under `style`.
    pub open spec fn under(self, style: NameStyle) -> Seq<char> {
        match style {
            NameStyle::Preserve => self.preserve,
            NameStyle::PascalCase => self.pascal,
            NameStyle::SnakeCase => self.snake,
            NameStyle::KebabCase => self.kebab,
        }
    }
}

impl NameTable {
    /// The name under `style`.
    pub fn under(&self, style: NameStyle) -> (r: &str)
        ensures
            r@ == self@.under(style),
    {
        match style {
            NameStyle::Preserve => self.preserve.as_str(),
            NameStyle::PascalCase => self.pascal.as_str(),
            NameStyle::SnakeCase => self.snake.as_str(),
            NameStyle::KebabCase => self.kebab.as_str(),
        }
    }
}

/// The field that a statement reads, if it reads one.
pub open spec fn spec_write_member(stmt: WriteStatementView) -> Option<MemberView> {
    match stmt {
        WriteStatementView::Configuration { .. } => None,
        WriteStatementView::Timestamp { field, .. } => Some(field),
        WriteStatementView::FlattenEntry { field, .. } => Some(field),
        WriteStatementView::Flatten { field, .. } => Some(field),
        WriteStatementView::Value { value, .. } => Some(value.field),
    }
}

/// The field that a source of sample groups reads.
pub open spec fn spec_source_member(stmt: SampleGroupStatementView) -> MemberView {
    match stmt {
        SampleGroupStatementView::Flatten { field, .. } => field,
        SampleGroupStatementView::FlattenEntry { field, .. } => field,
        SampleGroupStatementView::Tag { field, .. } => field,
    }
}

/// Picks the field that a statement reads.
pub open spec fn spec_pick_write_member() -> spec_fn(WriteStatementView) -> Option<MemberView> {
    |stmt: WriteStatementView| spec_write_member(stmt)
}

/// Picks the field that a source of sample groups reads.
pub open spec fn spec_pick_source_member() -> spec_fn(SampleGroupStatementView) -> Option<
    MemberView,
> {
    |stmt: SampleGroupStatementView| Some(spec_source_member(stmt))
}

/// The fields that the statements and the sources of sample groups of an
/// entry read: those of the statements in their order, then those of the
/// sources in theirs. A field stands there as often as it is read.
pub open spec fn spec_named_members(
    writes: Seq<WriteStatementView>,
    sample_groups: ChainView<SampleGroupStatementView>,
) -> Seq<MemberView> {
    filter_map(writes, spec_pick_write_member()) + filter_map(
        sample_groups.items(),
        spec_pick_source_member(),
    )
}

/// Whether `member` is among `members`.
pub fn contains_member(members: &[Member], member: &Member) -> (r: bool)
    ensures
        r == members.deep_view().contains(member@),
{
    let mut i: usize = 0;
    while i < members.len()
        invariant
            i <= members.len(),
            forall|j: int| 0 <= j < i ==> members.deep_view()[j] != member@,
        decreases members.len() - i,
    {
        if member_eq(&members[i], member) {
            assert(members.deep_view()[i as int] == member@);
            return true;
        }
        i += 1;
    }
    false
}

/// The given fields without repetition, each at the place of its first
/// occurrence.
pub fn distinct_members(members: &[Member]) -> (r: Vec<Member>)
    ensures
        r.deep_view() == distinct(members.deep_view()),
{
    let mut out: Vec<Member> = Vec::new();
    let mut i: usize = 0;
    assert(members.deep_view().take(0) =~= Seq::empty());
    assert(out.deep_view() =~= Seq::empty());
    while i < members.len()
        invariant
            i <= members.len(),
            out.deep_view() == distinct(members.deep_view().take(i as int)),
        decreases members.len() - i,
    {
        proof {
            lemma_add_distinct_step(Seq::empty(), members.deep_view(), i as int);
        }
        if !contains_member(out.as_slice(), &members[i]) {
            let ghost before = out;
            let m = members[i].clone();
            out.push(m);
            proof {
                lemma_deep_view_push(before, out, m);
            }
        }
        i += 1;
    }
    assert(members.deep_view().take(members.len() as int) =~= members.deep_view());
    out
}

/// The fields that the given statements read, in the order of the
/// statements.
pub fn write_members(writes: &[WriteStatement]) -> (r: Vec<Member>)
    ensures
        r.deep_view() == filter_map(writes.deep_view(), spec_pick_write_member()),
{
    let mut out: Vec<Member> = Vec::new();
    let ghost pick = spec_pick_write_member();
    let mut i: usize = 0;
    assert(writes.deep_view().take(0) =~= Seq::empty());
    assert(out.deep_view() =~= Seq::empty());
    while i < writes.len()
        invariant
            i <= writes.len(),
            pick == spec_pick_write_member(),
            out.deep_view() == filter_map(writes.deep_view().take(i as int), pick),
        decreases writes.len() - i,
    {
        proof {
            lemma_filter_map_step(writes.deep_view(), i as int, pick);
        }
        let member = match &writes[i] {
            WriteStatement::Configuration { .. } => None,
            WriteStatement::Timestamp { field, .. } => Some(field.clone()),
            WriteStatement::FlattenEntry { field, .. } => Some(field.clone()),
            WriteStatement::Flatten { field, .. } => Some(field.clone()),
            WriteStatement::Value { value, .. } => Some(value.field.clone()),
        };
        if let Some(m) = member {
            let ghost before = out;
            out.push(m);
            proof {
                lemma_deep_view_push(before, out, m);
            }
        }
        i += 1;
    }
    assert(writes.deep_view().take(writes.len() as int) =~= writes.deep_view());
    out
}

/// Adds to `out` the fields that the sources of a chain read, in the order
/// of the sources.
pub fn source_members(chain: &Chain<SampleGroupStatement>, out: &mut Vec<Member>)
    ensures
        final(out).deep_view() == old(out).deep_view() + filter_map(
            chain.deep_view().items(),
            spec_pick_source_member(),
        ),
    decreases chain,
{
    let ghost pick = spec_pick_source_member();
    let ghost start = out.deep_view();
    match chain {
        Chain::Empty => {
            assert(filter_map(Seq::<SampleGroupStatementView>::empty(), pick) =~= Seq::empty());
            assert(start + Seq::empty() =~= start);
        },
        Chain::One(stmt) => {
            let member = match stmt {
                SampleGroupStatement::Flatten { field, .. } => field.clone(),
                SampleGroupStatement::FlattenEntry { field, .. } => field.clone(),
                SampleGroupStatement::Tag { field, .. } => field.clone(),
            };
            let ghost before = *out;
            out.push(member);
            proof {
                lemma_deep_view_push(before, *out, member);
                assert(seq![stmt@].drop_last() =~= Seq::empty());
                assert(seq![stmt@].last() == stmt@);
                assert(filter_map(Seq::<SampleGroupStatementView>::empty(), pick) =~= Seq::empty());
                assert(pick(stmt@) == Some(member@));
                assert(filter_map(seq![stmt@], pick) =~= seq![member@]);
                assert(out.deep_view() =~= start + seq![member@]);
            }
        },
        Chain::Chain(left, right) => {
            proof {
                lemma_filter_map_concat(
                    chain_view(**left).items(),
                    chain_view(**right).items(),
                    pick,
                );
            }
            source_members(left, out);
            source_members(right, out);
            assert(out.deep_view() =~= start + filter_map(chain.deep_view().items(), pick));
        },
    }
}

/// The fields that the arm of a case has to bind: every field that a
/// statement or a source of sample groups of the arm reads, once, at the
/// place at which it is first read.
pub fn bound_members(writes: &[WriteStatement], sample_groups: &Chain<SampleGroupStatement>) -> (r:
    Vec<Member>)
    ensures
        r.deep_view() == distinct(spec_named_members(writes.deep_view(), sample_groups.deep_view())),
        r.deep_view().no_duplicates(),
        forall|m: MemberView|
            #[trigger] r.deep_view().contains(m) <==> spec_named_members(
                writes.deep_view(),
                sample_groups.deep_view(),
            ).contains(m),
{
    let mut named = write_members(writes);
    source_members(sample_groups, &mut named);
    proof {
        lemma_distinct(spec_named_members(writes.deep_view(), sample_groups.deep_view()));
    }
    distinct_members(named.as_slice())
}

/// Whether one of the given fields is reached by its place: the arm of a
/// tuple case binds by place, that of a struct case by name.
pub fn binds_by_place(members: &[Member]) -> (r: bool)
    ensures
        r == exists|i: int|
            0 <= i < members.deep_view().len() && (#[trigger] members.deep_view()[i]) is Unnamed,
{
    let mut i: usize = 0;
    while i < members.len()
        invariant
            i <= members.len(),
            forall|j: int| 0 <= j < i ==> !((#[trigger] members.deep_view()[j]) is Unnamed),
        decreases members.len() - i,
    {
        match &members[i] {
            Member::Unnamed(_) => {
                assert(members.deep_view()[i as int] is Unnamed);
                return true;
            },
            Member::Named(_) => {},
        }
        i += 1;
    }
    false
}

} // verus!
