//! What holds of the schema compiler as a whole: laws that relate several of
//! its functions, each stated over their specifications and proved.

use vstd::prelude::*;
use crate::attrs::OwnershipKind;
use crate::attrs::PrefixView;
use crate::attrs::RawRootAttributes;
use crate::attrs::RootAttributesView;
use crate::attrs::spec_root_attrs;
use crate::attrs::spec_root_error;
use crate::emit::ContentView;
use crate::emit::EmittedView;
use crate::emit::FieldValueView;
use crate::emit::ObservationView;
use crate::emit::WrittenView;
use crate::emit::lemma_lookup_skip;
use crate::emit::spec_emit;
use crate::emit::spec_emit_statement;
use crate::emit::spec_emit_with;
use crate::emit::spec_find;
use crate::emit::spec_lookup;
use crate::emit::spec_pick;
use crate::emit::spec_prefix_one;
use crate::emit::spec_prefixed;
use crate::emit::spec_resolve_arg;
use crate::emit::spec_resolve_inflect;
use crate::emit::spec_resolve_prefix;
use crate::emit::spec_select;
use crate::entry_impl::ConstStrView;
use crate::entry_impl::InflectKind;
use crate::entry_impl::NameTableView;
use crate::entry_impl::Ns;
use crate::entry_impl::PrefixArgView;
use crate::entry_impl::spec_const_name;
use crate::entry_impl::spec_make_ns;
use crate::entry_impl::spec_name_table;
use crate::entry_impl::spec_pick_sample_group;
use crate::entry_impl::spec_pick_write;
use crate::entry_impl::spec_prefix_layer;
use crate::entry_impl::spec_prefix_table;
use crate::entry_impl::spec_sample_group_sources;
use crate::entry_impl::spec_stem_constants;
use crate::entry_impl::spec_stem_inflect_name;
use crate::entry_impl::spec_write_statement;
use crate::enums::MetricsVariantView;
use crate::enums::RawMetricsVariantAttrs;
use crate::enums::UnionKind;
use crate::enums::spec_container_stem;
use crate::enums::spec_enum_findings;
use crate::enums::spec_fields_empty;
use crate::enums::spec_find_in_variant;
use crate::enums::spec_flag_finding;
use crate::enums::spec_shape_findings;
use crate::enums::spec_tuple_writes;
use crate::enums::spec_unknown_attr;
use crate::enums::spec_variant_attr_findings;
use crate::enums::spec_variant_attrs;
use crate::enums::spec_variant_findings;
use crate::enums::spec_variant_name;
use crate::field_attrs::MetricsFieldKindView;
use crate::field_attrs::RawMetricsFieldAttrs;
use crate::field_attrs::spec_field_attrs;
use crate::field_attrs::spec_field_error;
use crate::field_attrs::spec_flag_span;
use crate::field_attrs::spec_kv_value;
use crate::inflect::NameStyle;
use crate::inflect::spec_apply;
use crate::inflect::spec_apply_prefix;
use crate::inflect::spec_ends_with_delimiter;
use crate::inflect::spec_metric_name;
use crate::input::Variant;
use crate::seqs::filter_map;
use crate::seqs::flat_map;
use crate::seqs::lemma_filter_map_concat;
use crate::seqs::lemma_flat_map_concat;
use crate::seqs::lemma_flat_map_one;
use crate::source::AttrName;
use crate::source::Span;
use crate::source::spec_error;
use crate::structs::MetricsFieldView;
use crate::structs::spec_close_fields;
use crate::structs::spec_close_value;
use crate::structs::spec_entry_field;
use crate::structs::spec_entry_fields;
use crate::structs::spec_pick_close;
use crate::structs::spec_pick_variant_entry_field;
use crate::text::spec_contains_whitespace;
use crate::value_impl::spec_non_ignored;

verus! {

/// An exact prefix is never inflected: under every case style the metric
/// name begins with the prefix as it is written, and what follows is the
/// name in that style.
pub proof fn lemma_exact_prefix_is_kept(exact: Seq<char>, style: NameStyle, name: Seq<char>)
    ensures
        spec_metric_name(Some(PrefixView::Exact(exact)), style, None, name).take(
            exact.len() as int,
        ) == exact,
        spec_metric_name(Some(PrefixView::Exact(exact)), style, None, name).skip(
            exact.len() as int,
        ) == spec_apply(style, name),
{
}

/// A name override is never inflected and never prefixed by the schema that
/// declares it: under every case style, and whatever the prefix of the
/// schema, the metric name is the override as it is written.
pub proof fn lemma_override_is_kept(
    prefix: Option<PrefixView>,
    style: NameStyle,
    name_override: Seq<char>,
    name: Seq<char>,
)
    ensures
        spec_metric_name(prefix, style, Some(name_override), name) == name_override,
{
}

/// An overridden name is still relative: a schema that flattens the entry
/// behind a prefix puts that prefix before it.
pub proof fn lemma_override_takes_outer_prefix(
    outer: Seq<char>,
    name_override: Seq<char>,
    value: ObservationView,
)
    ensures
        spec_prefix_one(
            EmittedView::Value { name: name_override, fixed: false, value, format: None },
            outer,
        ) == (EmittedView::Value {
            name: outer + name_override,
            fixed: false,
            value,
            format: None,
        }),
{
}

/// The attributes of a schema whose prefix inflects and does not end with a
/// delimiter are refused.
pub proof fn lemma_root_rejects_open_prefix(raw: RawRootAttributes)
    requires
        raw.prefix is Some,
        !spec_ends_with_delimiter(raw.prefix.unwrap().value@),
    ensures
        spec_root_error(raw) is Some,
{
}

/// An exact prefix is accepted whatever its text, and kept as it is written:
/// it adds no finding to those on the other attributes of the schema.
pub proof fn lemma_root_accepts_exact_prefix(raw: RawRootAttributes)
    requires
        raw.prefix is None,
        raw.exact_prefix is Some,
    ensures
        spec_root_error(raw) == spec_root_error(RawRootAttributes { exact_prefix: None, ..raw }),
        spec_root_attrs(raw).prefix == Some(PrefixView::Exact(raw.exact_prefix.unwrap().value@)),
{
}

/// The prefix of a schema does not reach a field that it flattens: the
/// flattened schema is written as if the enclosing schema had no prefix.
pub proof fn lemma_root_prefix_skips_flattened(root: RootAttributesView, f: MetricsFieldView)
    requires
        f.attrs.kind is Flatten || f.attrs.kind is FlattenEntry,
    ensures
        spec_write_statement(root, f) == spec_write_statement(
            RootAttributesView { prefix: None, ..root },
            f,
        ),
{
}

/// An ignored field leaves no trace: the entry has no field for it, closing
/// does not touch it, nothing is written for it and it is no source of
/// sample groups; and what comes of the fields around it is what would come of
/// them without it, in the same order.
pub proof fn lemma_ignored_field_leaves_no_trace(
    before: Seq<MetricsFieldView>,
    ignored: MetricsFieldView,
    after: Seq<MetricsFieldView>,
    named: bool,
    ownership: OwnershipKind,
    root: RootAttributesView,
)
    requires
        ignored.is_ignored(),
    ensures
        spec_entry_fields(before + seq![ignored] + after, named) == spec_entry_fields(
            before + after,
            named,
        ),
        spec_close_fields(before + seq![ignored] + after, ownership) == spec_close_fields(
            before + after,
            ownership,
        ),
        filter_map(before + seq![ignored] + after, spec_pick_write(root)) == filter_map(
            before + after,
            spec_pick_write(root),
        ),
        spec_sample_group_sources(before + seq![ignored] + after, root)
            == spec_sample_group_sources(before + after, root),
{
    lemma_drop_unpicked(before, ignored, after, spec_pick_variant_entry_field(named));
    lemma_drop_unpicked(before, ignored, after, spec_pick_close(ownership));
    lemma_drop_unpicked(before, ignored, after, spec_pick_write(root));
    lemma_drop_unpicked(before, ignored, after, spec_pick_sample_group(root));
}

/// An item of which `f` makes nothing can be left out.
pub proof fn lemma_drop_unpicked<A, B>(
    before: Seq<A>,
    item: A,
    after: Seq<A>,
    f: spec_fn(A) -> Option<B>,
)
    requires
        f(item) is None,
    ensures
        filter_map(before + seq![item] + after, f) == filter_map(before + after, f),
{
    lemma_filter_map_concat(before + seq![item], after, f);
    lemma_filter_map_concat(before, seq![item], f);
    lemma_filter_map_concat(before, after, f);
    assert(seq![item].drop_last() =~= Seq::<A>::empty());
    assert(filter_map(Seq::<A>::empty(), f) =~= Seq::<B>::empty());
}

/// In a union that is written as a string, a case that holds fields is
/// refused, and so is a case that declares `flatten`, `timestamp` or
/// `sample_group`.
pub proof fn lemma_value_string_refuses(v: Variant)
    ensures
        !spec_fields_empty(v.fields) ==> spec_variant_findings(v, UnionKind::ValueString).contains(
            spec_error("variants with fields are not supported"@, v.span),
        ),
        v.metrics is Ok && v.metrics->Ok_0.flatten.present ==> spec_variant_findings(
            v,
            UnionKind::ValueString,
        ).contains(spec_unknown_attr(AttrName::Flatten, v.metrics->Ok_0.flatten.span)),
        v.metrics is Ok && v.metrics->Ok_0.timestamp.present ==> spec_variant_findings(
            v,
            UnionKind::ValueString,
        ).contains(spec_unknown_attr(AttrName::Timestamp, v.metrics->Ok_0.timestamp.span)),
        v.metrics is Ok && v.metrics->Ok_0.sample_group.present ==> spec_variant_findings(
            v,
            UnionKind::ValueString,
        ).contains(spec_unknown_attr(AttrName::SampleGroup, v.metrics->Ok_0.sample_group.span)),
{
    let all = spec_variant_findings(v, UnionKind::ValueString);
    if !spec_fields_empty(v.fields) {
        assert(all[0] == spec_error("variants with fields are not supported"@, v.span));
    }
    if v.metrics is Ok {
        let raw = v.metrics->Ok_0;
        let shape = spec_shape_findings(v, UnionKind::ValueString);
        let unit = spec_flag_finding(AttrName::Unit, raw.unit);
        let timestamp = spec_flag_finding(AttrName::Timestamp, raw.timestamp);
        let flatten = spec_flag_finding(AttrName::Flatten, raw.flatten);
        if raw.timestamp.present {
            assert(all[(shape.len() + unit.len()) as int] == spec_unknown_attr(
                AttrName::Timestamp,
                raw.timestamp.span,
            ));
        }
        if raw.flatten.present {
            assert(all[(shape.len() + unit.len() + timestamp.len()) as int] == spec_unknown_attr(
                AttrName::Flatten,
                raw.flatten.span,
            ));
        }
        if raw.sample_group.present {
            assert(all[(shape.len() + unit.len() + timestamp.len() + flatten.len()) as int]
                == spec_unknown_attr(AttrName::SampleGroup, raw.sample_group.span));
        }
    }
}

/// The findings on a union are accumulated: those on each case stand among
/// them, together and in their order, after those on the cases before it.
pub proof fn lemma_findings_accumulate(variants: Seq<Variant>, kind: UnionKind, i: int)
    requires
        0 <= i < variants.len(),
    ensures
        ({
            let all = spec_enum_findings(variants, kind);
            let earlier = spec_enum_findings(variants.take(i), kind);
            let here = spec_variant_findings(variants[i], kind);
            &&& earlier.len() + here.len() <= all.len()
            &&& all.subrange(earlier.len() as int, (earlier.len() + here.len()) as int) == here
            &&& all.take(earlier.len() as int) == earlier
        }),
{
    let f = spec_find_in_variant(kind);
    let head = variants.take(i);
    let tail = variants.skip(i + 1);
    assert(variants =~= head + seq![variants[i]] + tail);
    lemma_flat_map_concat(head + seq![variants[i]], tail, f);
    lemma_flat_map_concat(head, seq![variants[i]], f);
    lemma_flat_map_one(variants[i], f);
}

/// The four constants that hold a table of names have four different names.
pub proof fn lemma_const_names_differ(stem: Seq<char>, a: NameStyle, b: NameStyle)
    requires
        a != b,
    ensures
        spec_const_name(stem, a) != spec_const_name(stem, b),
{
    reveal_strlit("Preserve");
    reveal_strlit("Pascal");
    reveal_strlit("Snake");
    reveal_strlit("Kebab");
    // Two words of different length give names of different length; two of the
    // same length differ in their first letter, which follows the stem.
    let x = spec_const_name(stem, a);
    let y = spec_const_name(stem, b);
    assert(x.len() == stem.len() + a.spec_word().len());
    assert(y.len() == stem.len() + b.spec_word().len());
    if a.spec_word().len() == b.spec_word().len() {
        assert(x[stem.len() as int] == a.spec_word()[0]);
        assert(y[stem.len() as int] == b.spec_word()[0]);
    }
}

/// The constants that the compiler declares for a table of names resolve to
/// the table: under whatever case style is handed down, the choice among
/// them yields the name under the style in force.
pub proof fn lemma_table_resolves(
    names: NameTableView,
    stem: Seq<char>,
    ns: Ns,
    inflect: InflectKind,
    style: NameStyle,
)
    ensures
        spec_resolve_inflect(
            spec_stem_inflect_name(ns, inflect, stem),
            spec_stem_constants(names, stem),
            style,
        ) == Some(names.under(spec_select(ns.base, style))),
{
    let extra = spec_stem_constants(names, stem);
    let chosen = spec_select(ns.base, style);
    let ident = spec_const_name(stem, chosen);
    lemma_const_names_differ_all(stem);
    let i: int = match chosen {
        NameStyle::Preserve => 0,
        NameStyle::KebabCase => 1,
        NameStyle::PascalCase => 2,
        NameStyle::SnakeCase => 3,
    };
    lemma_lookup_skip(extra, ident, i);
}

/// The four constants that hold a table of names have four different
/// names, taken two by two.
pub proof fn lemma_const_names_differ_all(stem: Seq<char>)
    ensures
        forall|a: NameStyle, b: NameStyle|
            a != b ==> #[trigger] spec_const_name(stem, a) != #[trigger] spec_const_name(stem, b),
{
    assert forall|a: NameStyle, b: NameStyle| a != b implies #[trigger] spec_const_name(stem, a)
        != #[trigger] spec_const_name(stem, b) by {
        lemma_const_names_differ(stem, a, b);
    }
}

/// A leaf field is written under its metric name: the statement that the
/// compiler generates for it hands over one value, whose name is the metric
/// name of the field under the case style in force. The style in force is
/// that of the schema, or the one handed down where the schema preserves
/// names.
pub proof fn lemma_leaf_is_written_under_its_name(
    root: RootAttributesView,
    f: MetricsFieldView,
    fields: Seq<FieldValueView>,
    style: NameStyle,
    value: ObservationView,
)
    requires
        f.attrs.kind is Field,
        spec_find(fields, f.ident) == Some(ContentView::Leaf(value)),
    ensures
        spec_write_statement(root, f) is Some,
        spec_emit_statement(spec_write_statement(root, f).unwrap(), fields, style) == seq![
            EmittedView::Value {
                name: spec_metric_name(
                    root.prefix,
                    spec_select(spec_make_ns(root.rename_all, f.span).base, style),
                    f.name_override(),
                    f.name(),
                ),
                fixed: false,
                value,
                format: f.attrs.kind->Field_format,
            },
        ],
{
    let ns = spec_make_ns(root.rename_all, f.span);
    let names = spec_name_table(root.prefix, f.name_override(), f.name());
    lemma_table_resolves(names, f.name(), ns, InflectKind::Inflect, style);
}

/// The text of a prefix under the case style in force: nothing where there
/// is no prefix; the prefix written as a prefix in that style where it
/// inflects; the prefix as it is written where it is exact.
pub open spec fn spec_prefix_text(prefix: Option<PrefixView>, style: NameStyle) -> Seq<char> {
    match prefix {
        None => Seq::empty(),
        Some(PrefixView::Inflectable { prefix }) => spec_apply_prefix(style, prefix),
        Some(PrefixView::Exact(exact)) => exact,
    }
}

/// The layer that the compiler generates for a prefix resolves to the text
/// of the prefix under the case style in force.
pub proof fn lemma_flatten_prefix_resolves(
    ns: Ns,
    prefix: Option<PrefixView>,
    stem: Seq<char>,
    span: Span,
    style: NameStyle,
)
    ensures
        spec_resolve_prefix(
            spec_prefix_layer(ns, prefix, stem, span).1,
            spec_prefix_layer(ns, prefix, stem, span).0,
            style,
        ) == Some(spec_prefix_text(prefix, spec_select(ns.base, style))),
{
    let layer = spec_prefix_layer(ns, prefix, stem, span);
    match prefix {
        None => {},
        Some(PrefixView::Inflectable { prefix: inflectable }) => {
            lemma_table_resolves(
                spec_prefix_table(inflectable),
                stem,
                ns,
                InflectKind::InflectAffix,
                style,
            );
        },
        Some(PrefixView::Exact(exact)) => {
            assert(spec_resolve_prefix(layer.1.drop_last(), layer.0, style) == Some(
                Seq::<char>::empty(),
            ));
        },
    }
}

/// A flattened schema is written behind the prefix of the field that
/// flattens it, under the case style in force, and behind no other prefix of
/// the enclosing schema.
pub proof fn lemma_flattened_is_written_behind_its_prefix(
    root: RootAttributesView,
    f: MetricsFieldView,
    fields: Seq<FieldValueView>,
    style: NameStyle,
    nested: WrittenView,
)
    requires
        f.attrs.kind is Flatten,
        spec_find(fields, f.ident) == Some(ContentView::Nested(nested)),
    ensures
        spec_write_statement(root, f) is Some,
        ({
            let in_force = spec_select(spec_make_ns(root.rename_all, f.span).base, style);
            spec_emit_statement(spec_write_statement(root, f).unwrap(), fields, style)
                == spec_prefixed(
                nested.under(in_force).emitted,
                spec_prefix_text(f.attrs.kind->Flatten_prefix, in_force),
            )
        }),
{
    let ns = spec_make_ns(root.rename_all, f.span);
    lemma_flatten_prefix_resolves(ns, f.attrs.kind->Flatten_prefix, f.name(), f.span, style);
}

/// Looking a constant up among two lists of constants, one after the other:
/// the first list decides where it declares the name.
pub proof fn lemma_lookup_concat(a: Seq<ConstStrView>, b: Seq<ConstStrView>, ident: Seq<char>)
    ensures
        spec_lookup(a + b, ident) == match spec_lookup(a, ident) {
            Some(value) => Some(value),
            None => spec_lookup(b, ident),
        },
    decreases a.len(),
{
    if a.len() > 0 {
        assert((a + b).drop_first() =~= a.drop_first() + b);
        lemma_lookup_concat(a.drop_first(), b, ident);
    }
}

/// A name that no constant of a list has is not found in it.
pub proof fn lemma_lookup_none(extra: Seq<ConstStrView>, ident: Seq<char>)
    requires
        forall|j: int| 0 <= j < extra.len() ==> extra[j].ident != ident,
    ensures
        spec_lookup(extra, ident) is None,
{
    lemma_lookup_skip(extra, ident, extra.len() as int);
}

/// The prefixes of a namespace resolve one after the other.
pub proof fn lemma_resolve_prefix_concat(
    first: Seq<PrefixArgView>,
    second: Seq<PrefixArgView>,
    extra: Seq<ConstStrView>,
    style: NameStyle,
)
    ensures
        spec_resolve_prefix(first + second, extra, style) == match (
            spec_resolve_prefix(first, extra, style),
            spec_resolve_prefix(second, extra, style),
        ) {
            (Some(a), Some(b)) => Some(a + b),
            _ => None,
        },
    decreases second.len(),
{
    if second.len() > 0 {
        assert((first + second).drop_last() =~= first + second.drop_last());
        lemma_resolve_prefix_concat(first, second.drop_last(), extra, style);
    }
}

/// The constants that hold the prefix of a union for a case and those that
/// hold the prefix of the field of the case have different names.
pub proof fn lemma_container_names_differ(stem: Seq<char>, a: NameStyle, b: NameStyle)
    ensures
        spec_const_name(stem + "Container"@, a) != spec_const_name(stem, b),
{
    reveal_strlit("Preserve");
    reveal_strlit("Pascal");
    reveal_strlit("Snake");
    reveal_strlit("Kebab");
    reveal_strlit("Container");
    assert(spec_const_name(stem, b).len() == stem.len() + b.spec_word().len());
}

/// The name of the constant that a prefix of a namespace refers to when
/// `style` is handed down.
pub open spec fn spec_arg_ident(arg: PrefixArgView, style: NameStyle) -> Seq<char> {
    match arg {
        PrefixArgView::Inflected { name, .. } => spec_pick(name, spec_select(name.ns.base, style)),
        PrefixArgView::Exact { ident, .. } => ident,
    }
}

/// One prefix resolves among more constants as it does among its own, where
/// the constant that it refers to is found among its own at the same place.
pub proof fn lemma_layer_resolves_among(
    args: Seq<PrefixArgView>,
    own: Seq<ConstStrView>,
    all: Seq<ConstStrView>,
    style: NameStyle,
)
    requires
        args.len() <= 1,
        args.len() == 1 ==> spec_lookup(all, spec_arg_ident(args[0], style)) == spec_lookup(
            own,
            spec_arg_ident(args[0], style),
        ),
    ensures
        spec_resolve_prefix(args, all, style) == spec_resolve_prefix(args, own, style),
{
    if args.len() == 1 {
        assert(spec_resolve_prefix(args.drop_last(), all, style) == Some(Seq::<char>::empty()));
        assert(spec_resolve_prefix(args.drop_last(), own, style) == Some(Seq::<char>::empty()));
    }
}

/// Every constant of the layer of a prefix is named after the stem of the
/// layer, and so is the constant that the layer refers to.
pub proof fn lemma_layer_names(
    ns: Ns,
    prefix: Option<PrefixView>,
    stem: Seq<char>,
    span: Span,
    style: NameStyle,
)
    ensures
        spec_prefix_layer(ns, prefix, stem, span).1.len() <= 1,
        forall|j: int|
            0 <= j < spec_prefix_layer(ns, prefix, stem, span).0.len() ==> exists|s: NameStyle|
                (#[trigger] spec_prefix_layer(ns, prefix, stem, span).0[j]).ident
                    == spec_const_name(stem, s),
        spec_prefix_layer(ns, prefix, stem, span).1.len() == 1 ==> exists|s: NameStyle|
            spec_arg_ident(spec_prefix_layer(ns, prefix, stem, span).1[0], style)
                == spec_const_name(stem, s),
{
}

/// The one field of a tuple case is written behind the prefix of the union
/// and then behind its own, both under the case style in force: where a case
/// flattens a schema, the prefix of the union reaches the names of that
/// schema.
pub proof fn lemma_tuple_case_is_written_behind_both_prefixes(
    root: RootAttributesView,
    v: MetricsVariantView,
    f: MetricsFieldView,
    fields: Seq<FieldValueView>,
    style: NameStyle,
    nested: WrittenView,
)
    requires
        f.attrs.kind is Flatten,
        spec_find(fields, f.ident) == Some(ContentView::Nested(nested)),
    ensures
        ({
            let in_force = spec_select(spec_make_ns(root.rename_all, f.span).base, style);
            spec_emit(spec_tuple_writes(root, v, f), fields, style) == spec_prefixed(
                nested.under(in_force).emitted,
                spec_prefix_text(root.prefix, in_force) + spec_prefix_text(
                    f.attrs.kind->Flatten_prefix,
                    in_force,
                ),
            )
        }),
{
    let ns = spec_make_ns(root.rename_all, f.span);
    let stem = v.ident.name;
    let container = spec_container_stem(v);
    let outer = spec_prefix_layer(ns, root.prefix, container, f.span);
    let inner = spec_prefix_layer(ns, f.attrs.kind->Flatten_prefix, stem, f.span);
    let extra = outer.0 + inner.0;
    lemma_flatten_prefix_resolves(ns, root.prefix, container, f.span, style);
    lemma_flatten_prefix_resolves(ns, f.attrs.kind->Flatten_prefix, stem, f.span, style);
    lemma_layer_names(ns, root.prefix, container, f.span, style);
    lemma_layer_names(ns, f.attrs.kind->Flatten_prefix, stem, f.span, style);
    // The prefix of the union is found among its own constants, which come first.
    if outer.1.len() == 1 {
        let ident = spec_arg_ident(outer.1[0], style);
        lemma_lookup_concat(outer.0, inner.0, ident);
    }
    lemma_layer_resolves_among(outer.1, outer.0, extra, style);
    // The prefix of the field is not found among the constants of the union.
    if inner.1.len() == 1 {
        let ident = spec_arg_ident(inner.1[0], style);
        let b = choose|s: NameStyle| ident == spec_const_name(stem, s);
        assert forall|j: int| 0 <= j < outer.0.len() implies outer.0[j].ident != ident by {
            let a = choose|s: NameStyle| outer.0[j].ident == spec_const_name(container, s);
            lemma_container_names_differ(stem, a, b);
        }
        lemma_lookup_none(outer.0, ident);
        lemma_lookup_concat(outer.0, inner.0, ident);
    }
    lemma_layer_resolves_among(inner.1, inner.0, extra, style);
    lemma_resolve_prefix_concat(outer.1, inner.1, extra, style);
    let writes = spec_tuple_writes(root, v, f);
    lemma_flat_map_one(writes[0], spec_emit_with(fields, style));
}

/// Closing fills exactly the fields of the entry: the entry has one field for
/// each field of the schema that is not ignored, closing accesses each of
/// those fields once, and both go by the order of the fields.
pub proof fn lemma_closing_fills_the_entry(
    fields: Seq<MetricsFieldView>,
    ownership: OwnershipKind,
)
    ensures
        spec_close_fields(fields, ownership).len() == spec_non_ignored(fields).len(),
        spec_entry_fields(fields, true).len() == spec_non_ignored(fields).len(),
        forall|k: int|
            0 <= k < spec_non_ignored(fields).len() ==> {
                &&& (#[trigger] spec_close_fields(fields, ownership)[k]) == spec_close_value(
                    spec_non_ignored(fields)[k],
                    ownership,
                )
                &&& Some(#[trigger] spec_entry_fields(fields, true)[k]) == spec_entry_field(
                    spec_non_ignored(fields)[k],
                    true,
                )
                &&& spec_entry_fields(fields, true)[k].ident == Some(
                    spec_close_fields(fields, ownership)[k].ident,
                )
            },
    decreases fields.len(),
{
    if fields.len() > 0 {
        lemma_closing_fills_the_entry(fields.drop_last(), ownership);
    }
}

/// The prefix of a union does not reach the names of its cases: a case is
/// written under the same name whatever prefix the union declares, while the
/// fields of its struct cases are written behind that prefix.
pub proof fn lemma_root_prefix_skips_case_names(root: RootAttributesView, v: MetricsVariantView)
    ensures
        spec_variant_name(root, v) == spec_variant_name(
            RootAttributesView { prefix: None, ..root },
            v,
        ),
        v.attrs.name is Some ==> spec_variant_name(root, v).metric_name == v.attrs.name.unwrap(),
        v.attrs.name is None ==> spec_variant_name(root, v).metric_name == spec_apply(
            root.rename_all,
            v.ident.name,
        ),
{
}

/// A name that overrides a metric name has passed validation only if it is
/// not empty and holds no white space, on a field as on a case; and it is
/// kept as it is written.
pub proof fn lemma_validated_names_hold_no_whitespace(
    field: RawMetricsFieldAttrs,
    case: RawMetricsVariantAttrs,
)
    ensures
        spec_field_error(field) is None && field.name is Some ==> {
            &&& field.name.unwrap().value@.len() > 0
            &&& !spec_contains_whitespace(field.name.unwrap().value@)
            &&& spec_field_attrs(field).kind == (MetricsFieldKindView::Field {
                unit: spec_kv_value(field.unit),
                name: Some(field.name.unwrap().value@),
                format: spec_kv_value(field.format),
                sample_group: spec_flag_span(field.sample_group),
            })
        },
        spec_variant_attr_findings(case).len() == 0 && case.name is Some ==> {
            &&& case.name.unwrap().value@.len() > 0
            &&& !spec_contains_whitespace(case.name.unwrap().value@)
            &&& spec_variant_attrs(case).name == Some(case.name.unwrap().value@)
        },
{
}

} // verus!
