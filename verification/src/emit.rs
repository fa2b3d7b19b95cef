//! What a closed entry writes: the names under which its values go out,
//! under each case style that an enclosing schema may select.
//!
//! An entry is written bottom-up. What a nested entry writes is worked out
//! first, under all four case styles at once and with names that are
//! relative to the prefix handed down; the enclosing entry then puts its own
//! prefix before those names. No work on strings is left for the moment at
//! which a style is chosen.

use vstd::prelude::*;
use vstd::string::*;
use crate::attrs::ConfigurationField;
use crate::chain::Chain;
use crate::chain::ChainView;
use crate::chain::chain_view;
use crate::close::CloseValue;
use crate::entry_impl::ConstStr;
use crate::entry_impl::ConstStrView;
use crate::entry_impl::EntryImpl;
use crate::entry_impl::InflectName;
use crate::entry_impl::InflectNameView;
use crate::entry_impl::Namespace;
use crate::entry_impl::NsBase;
use crate::entry_impl::PrefixArg;
use crate::entry_impl::PrefixArgView;
use crate::entry_impl::SampleGroupStatement;
use crate::entry_impl::SampleGroupStatementView;
use crate::entry_impl::WriteStatement;
use crate::entry_impl::WriteStatementView;
use crate::enums::FromAndSampleGroup;
use crate::enums::UnionEntryImpl;
use crate::enums::UnionEntryImplView;
use crate::enums::VariantNameView;
use crate::enums::WriteArmView;
use crate::inflect::NameStyle;
use crate::seqs::flat_map;
use crate::seqs::lemma_deep_view_push;
use crate::seqs::lemma_flat_map_concat;
use crate::seqs::lemma_flat_map_one;
use crate::seqs::lemma_flat_map_step;
use crate::source::Syntax;
use crate::structs::Member;
use crate::structs::MemberView;
use crate::text::joined;
use crate::text::str_eq;
use crate::value_impl::UnionValueImpl;
use crate::value_impl::UnionValueImplView;
use crate::value_impl::ValueImpl;
use crate::value_impl::ValueImplView;

verus! {

/// A closed value of a leaf field.
#[derive(Debug, PartialEq, Eq)]
pub enum Observation {
    Unsigned(u64),
    Boolean(bool),
    Text(String),
}

/// [`Observation`] as it is specified: text as a sequence of characters, lists as
/// sequences.
pub ghost enum ObservationView {
    Unsigned(u64),
    Boolean(bool),
    Text(Seq<char>),
}

impl DeepView for Observation {
    type V = ObservationView;

    open spec fn deep_view(&self) -> ObservationView {
        match self {
            Observation::Unsigned(n) => ObservationView::Unsigned(*n),
            Observation::Boolean(b) => ObservationView::Boolean(*b),
            Observation::Text(t) => ObservationView::Text(t@),
        }
    }
}

impl View for Observation {
    type V = ObservationView;

    open spec fn view(&self) -> ObservationView {
        self.deep_view()
    }
}

impl Clone for Observation {
    fn clone(&self) -> (r: Observation)
        ensures
            r@ == self@,
    {
        match self {
            Observation::Unsigned(n) => Observation::Unsigned(*n),
            Observation::Boolean(b) => Observation::Boolean(*b),
            Observation::Text(t) => Observation::Text(t.clone()),
        }
    }
}

impl ObservationView {
    /// The value as a number, where it is one: a truth value counts as one
    /// or zero.
    pub open spec fn as_u64(self) -> Option<u64> {
        match self {
            ObservationView::Unsigned(n) => Some(n),
            ObservationView::Boolean(b) => Some(
                if b {
                    1u64
                } else {
                    0u64
                },
            ),
            ObservationView::Text(_) => None,
        }
    }
}

impl Observation {
    /// The value as a number, where it is one.
    pub fn as_u64(&self) -> (r: Option<u64>)
        ensures
            r == self@.as_u64(),
    {
        match self {
            Observation::Unsigned(n) => Some(*n),
            Observation::Boolean(b) => Some(
                if *b {
                    1
                } else {
                    0
                },
            ),
            Observation::Text(_) => None,
        }
    }
}

/// One thing that an entry hands to the writer.
#[derive(Debug, PartialEq, Eq)]
pub enum Emitted {
    /// A configuration field of the entry.
    Configuration(ConfigurationField),
    /// The time of the entry.
    Timestamp(Observation),
    /// A value under a name. The name of a value that is not `fixed` is
    /// relative: every enclosing schema that flattens the entry behind a
    /// prefix puts that prefix before it.
    Value { name: String, fixed: bool, value: Observation, format: Option<Syntax> },
}

/// [`Emitted`] as it is specified: text as a sequence of characters, lists as
/// sequences.
pub ghost enum EmittedView {
    Configuration(ConfigurationField),
    Timestamp(ObservationView),
    Value { name: Seq<char>, fixed: bool, value: ObservationView, format: Option<Syntax> },
}

impl DeepView for Emitted {
    type V = EmittedView;

    open spec fn deep_view(&self) -> EmittedView {
        match self {
            Emitted::Configuration(c) => EmittedView::Configuration(*c),
            Emitted::Timestamp(v) => EmittedView::Timestamp(v@),
            Emitted::Value { name, fixed, value, format } => EmittedView::Value {
                name: name@,
                fixed: *fixed,
                value: value@,
                format: *format,
            },
        }
    }
}

impl View for Emitted {
    type V = EmittedView;

    open spec fn view(&self) -> EmittedView {
        self.deep_view()
    }
}

/// A sample-group tag: a name and the value that groups by it.
#[derive(Debug, PartialEq, Eq)]
pub struct Tag {
    pub name: String,
    pub value: Observation,
}

/// [`Tag`] as it is specified: text as a sequence of characters, lists as
/// sequences.
pub ghost struct TagView {
    pub name: Seq<char>,
    pub value: ObservationView,
}

impl DeepView for Tag {
    type V = TagView;

    open spec fn deep_view(&self) -> TagView {
        TagView {
            name: self.name@,
            value: self.value@,
        }
    }
}

impl View for Tag {
    type V = TagView;

    open spec fn view(&self) -> TagView {
        self.deep_view()
    }
}

/// What an entry writes under one case style.
#[derive(Debug, PartialEq, Eq)]
pub struct WrittenUnder {
    pub emitted: Vec<Emitted>,
    pub tags: Vec<Tag>,
}

/// [`WrittenUnder`] as it is specified: text as a sequence of characters, lists as
/// sequences.
pub ghost struct WrittenUnderView {
    pub emitted: Seq<EmittedView>,
    pub tags: Seq<TagView>,
}

impl DeepView for WrittenUnder {
    type V = WrittenUnderView;

    open spec fn deep_view(&self) -> WrittenUnderView {
        WrittenUnderView {
            emitted: self.emitted.deep_view(),
            tags: self.tags.deep_view(),
        }
    }
}

impl View for WrittenUnder {
    type V = WrittenUnderView;

    open spec fn view(&self) -> WrittenUnderView {
        self.deep_view()
    }
}

/// What an entry writes under each of the four case styles that an enclosing
/// schema may hand down.
#[derive(Debug, PartialEq, Eq)]
pub struct Written {
    pub preserve: WrittenUnder,
    pub pascal: WrittenUnder,
    pub snake: WrittenUnder,
    pub kebab: WrittenUnder,
}

/// [`Written`] as it is specified: text as a sequence of characters, lists as
/// sequences.
pub ghost struct WrittenView {
    pub preserve: WrittenUnderView,
    pub pascal: WrittenUnderView,
    pub snake: WrittenUnderView,
    pub kebab: WrittenUnderView,
}

impl DeepView for Written {
    type V = WrittenView;

    open spec fn deep_view(&self) -> WrittenView {
        WrittenView {
            preserve: self.preserve@,
            pascal: self.pascal@,
            snake: self.snake@,
            kebab: self.kebab@,
        }
    }
}

impl View for Written {
    type V = WrittenView;

    open spec fn view(&self) -> WrittenView {
        self.deep_view()
    }
}

/// What a field of a closed entry holds.
#[derive(Debug, PartialEq, Eq)]
pub enum Content {
    /// A closed value.
    Leaf(Observation),
    /// A nested entry, by what it writes.
    Nested(Written),
}

/// [`Content`] as it is specified: text as a sequence of characters, lists as
/// sequences.
pub ghost enum ContentView {
    Leaf(ObservationView),
    Nested(WrittenView),
}

impl DeepView for Content {
    type V = ContentView;

    open spec fn deep_view(&self) -> ContentView {
        match self {
            Content::Leaf(v) => ContentView::Leaf(v@),
            Content::Nested(w) => ContentView::Nested(w@),
        }
    }
}

impl View for Content {
    type V = ContentView;

    open spec fn view(&self) -> ContentView {
        self.deep_view()
    }
}

/// A field of a closed entry with what it holds.
#[derive(Debug, PartialEq, Eq)]
pub struct FieldValue {
    pub member: Member,
    pub content: Content,
}

/// [`FieldValue`] as it is specified: text as a sequence of characters, lists as
/// sequences.
pub ghost struct FieldValueView {
    pub member: MemberView,
    pub content: ContentView,
}

impl DeepView for FieldValue {
    type V = FieldValueView;

    open spec fn deep_view(&self) -> FieldValueView {
        FieldValueView {
            member: self.member@,
            content: self.content@,
        }
    }
}

impl View for FieldValue {
    type V = FieldValueView;

    open spec fn view(&self) -> FieldValueView {
        self.deep_view()
    }
}


impl WrittenView {
    /// What the entry writes under `style`.
    pub open spec fn under(self, style: NameStyle) -> WrittenUnderView {
        match style {
            NameStyle::Preserve => self.preserve,
            NameStyle::PascalCase => self.pascal,
            NameStyle::SnakeCase => self.snake,
            NameStyle::KebabCase => self.kebab,
        }
    }
}

impl Written {
    /// What the entry writes under `style`.
    pub fn under(&self, style: NameStyle) -> (r: &WrittenUnder)
        ensures
            r@ == self@.under(style),
    {
        match style {
            NameStyle::Preserve => &self.preserve,
            NameStyle::PascalCase => &self.pascal,
            NameStyle::SnakeCase => &self.snake,
            NameStyle::KebabCase => &self.kebab,
        }
    }
}

impl Clone for Emitted {
    fn clone(&self) -> (r: Emitted)
        ensures
            r@ == self@,
    {
        match self {
            Emitted::Configuration(c) => Emitted::Configuration(*c),
            Emitted::Timestamp(v) => Emitted::Timestamp(v.clone()),
            Emitted::Value { name, fixed, value, format } => Emitted::Value {
                name: name.clone(),
                fixed: *fixed,
                value: value.clone(),
                format: *format,
            },
        }
    }
}

impl Clone for Tag {
    fn clone(&self) -> (r: Tag)
        ensures
            r@ == self@,
    {
        Tag { name: self.name.clone(), value: self.value.clone() }
    }
}

/// The case style in force in a schema, given the style handed down to it.
pub open spec fn spec_select(base: NsBase, style: NameStyle) -> NameStyle {
    match base {
        NsBase::Inherit => style,
        NsBase::PascalCase => NameStyle::PascalCase,
        NsBase::SnakeCase => NameStyle::SnakeCase,
        NsBase::KebabCase => NameStyle::KebabCase,
    }
}

/// The case style in force in a schema, given the style handed down to it.
pub fn select(base: NsBase, style: NameStyle) -> (r: NameStyle)
    ensures
        r == spec_select(base, style),
{
    match base {
        NsBase::Inherit => style,
        NsBase::PascalCase => NameStyle::PascalCase,
        NsBase::SnakeCase => NameStyle::SnakeCase,
        NsBase::KebabCase => NameStyle::KebabCase,
    }
}

/// The constant that `style` chooses among the four of a table.
pub open spec fn spec_pick(name: InflectNameView, style: NameStyle) -> Seq<char> {
    match style {
        NameStyle::Preserve => name.name_ident,
        NameStyle::PascalCase => name.name_pascal,
        NameStyle::SnakeCase => name.name_snake,
        NameStyle::KebabCase => name.name_kebab,
    }
}

/// The constant that `style` chooses among the four of a table.
pub fn pick(name: &InflectName, style: NameStyle) -> (r: &str)
    ensures
        r@ == spec_pick(name@, style),
{
    match style {
        NameStyle::Preserve => name.name_ident.as_str(),
        NameStyle::PascalCase => name.name_pascal.as_str(),
        NameStyle::SnakeCase => name.name_snake.as_str(),
        NameStyle::KebabCase => name.name_kebab.as_str(),
    }
}

/// The value of the first constant of the given name, if one is declared.
pub open spec fn spec_lookup(extra: Seq<ConstStrView>, ident: Seq<char>) -> Option<Seq<char>>
    decreases extra.len(),
{
    if extra.len() == 0 {
        None
    } else if extra[0].ident == ident {
        Some(extra[0].value)
    } else {
        spec_lookup(extra.drop_first(), ident)
    }
}

/// The constants before the first of the given name do not matter to the
/// lookup.
pub proof fn lemma_lookup_skip(extra: Seq<ConstStrView>, ident: Seq<char>, i: int)
    requires
        0 <= i <= extra.len(),
        forall|j: int| 0 <= j < i ==> extra[j].ident != ident,
    ensures
        spec_lookup(extra, ident) == spec_lookup(extra.skip(i), ident),
    decreases i,
{
    if i > 0 {
        lemma_lookup_skip(extra.drop_first(), ident, i - 1);
        assert(extra.drop_first().skip(i - 1) =~= extra.skip(i));
    } else {
        assert(extra.skip(0) =~= extra);
    }
}

/// The value of the first constant of the given name, if one is declared.
pub fn lookup<'a>(extra: &'a [ConstStr], ident: &str) -> (r: Option<&'a str>)
    ensures
        r.deep_view() == spec_lookup(extra.deep_view(), ident@),
{
    let mut i: usize = 0;
    while i < extra.len()
        invariant
            i <= extra.len(),
            forall|j: int| 0 <= j < i ==> extra.deep_view()[j].ident != ident@,
        decreases extra.len() - i,
    {
        if str_eq(extra[i].ident.as_str(), ident) {
            proof {
                lemma_lookup_skip(extra.deep_view(), ident@, i as int);
            }
            return Some(extra[i].value.as_str());
        }
        i += 1;
    }
    proof {
        lemma_lookup_skip(extra.deep_view(), ident@, extra.len() as int);
    }
    None
}

/// The text that a table of names stands for when `style` is handed down:
/// the value of the constant that the style in force chooses.
pub open spec fn spec_resolve_inflect(
    name: InflectNameView,
    extra: Seq<ConstStrView>,
    style: NameStyle,
) -> Option<Seq<char>> {
    spec_lookup(extra, spec_pick(name, spec_select(name.ns.base, style)))
}

/// The text that a table of names stands for when `style` is handed down.
pub fn resolve_inflect<'a>(name: &InflectName, extra: &'a [ConstStr], style: NameStyle) -> (r:
    Option<&'a str>)
    ensures
        r.deep_view() == spec_resolve_inflect(name@, extra.deep_view(), style),
{
    lookup(extra, pick(name, select(name.ns.base, style)))
}

/// The text of one prefix of a namespace when `style` is handed down.
pub open spec fn spec_resolve_arg(
    arg: PrefixArgView,
    extra: Seq<ConstStrView>,
    style: NameStyle,
) -> Option<Seq<char>> {
    match arg {
        PrefixArgView::Inflected { name, .. } => spec_resolve_inflect(name, extra, style),
        PrefixArgView::Exact { ident, .. } => spec_lookup(extra, ident),
    }
}

/// The prefix that a namespace adds when `style` is handed down: its
/// prefixes one after the other, outermost first. There is none where a
/// constant is missing.
pub open spec fn spec_resolve_prefix(
    prefixes: Seq<PrefixArgView>,
    extra: Seq<ConstStrView>,
    style: NameStyle,
) -> Option<Seq<char>>
    decreases prefixes.len(),
{
    if prefixes.len() == 0 {
        Some(Seq::empty())
    } else {
        match (
            spec_resolve_prefix(prefixes.drop_last(), extra, style),
            spec_resolve_arg(prefixes.last(), extra, style),
        ) {
            (Some(head), Some(last)) => Some(head + last),
            _ => None,
        }
    }
}

/// The prefix that a namespace adds when `style` is handed down.
pub fn resolve_prefix(ns: &Namespace, extra: &[ConstStr], style: NameStyle) -> (r: Option<String>)
    ensures
        r.deep_view() == spec_resolve_prefix(ns@.prefixes, extra.deep_view(), style),
{
    let mut prefix = String::new();
    let mut i: usize = 0;
    while i < ns.prefixes.len()
        invariant
            i <= ns.prefixes.len(),
            spec_resolve_prefix(ns@.prefixes.take(i as int), extra.deep_view(), style) == Some(
                prefix@,
            ),
        decreases ns.prefixes.len() - i,
    {
        proof {
            assert(ns@.prefixes.take(i + 1).drop_last() =~= ns@.prefixes.take(i as int));
        }
        let part = match &ns.prefixes[i] {
            PrefixArg::Inflected { name, .. } => resolve_inflect(name, extra, style),
            PrefixArg::Exact { ident, .. } => lookup(extra, ident.as_str()),
        };
        match part {
            Some(p) => {
                prefix.append(p);
            },
            None => {
                proof {
                    lemma_resolve_prefix_fails(
                        ns@.prefixes,
                        extra.deep_view(),
                        style,
                        i as int + 1,
                    );
                }
                return None;
            },
        }
        i += 1;
    }
    assert(ns@.prefixes.take(ns.prefixes.len() as int) =~= ns@.prefixes);
    Some(prefix)
}

/// Where the first prefixes of a namespace give no text, all of them give
/// none.
pub proof fn lemma_resolve_prefix_fails(
    prefixes: Seq<PrefixArgView>,
    extra: Seq<ConstStrView>,
    style: NameStyle,
    i: int,
)
    requires
        0 <= i <= prefixes.len(),
        spec_resolve_prefix(prefixes.take(i), extra, style) is None,
    ensures
        spec_resolve_prefix(prefixes, extra, style) is None,
    decreases prefixes.len() - i,
{
    if i < prefixes.len() {
        assert(prefixes.take(i + 1).drop_last() =~= prefixes.take(i));
        lemma_resolve_prefix_fails(prefixes, extra, style, i + 1);
    } else {
        assert(prefixes.take(i) =~= prefixes);
    }
}

/// Whether two fields are reached in the same way.
pub fn member_eq(a: &Member, b: &Member) -> (r: bool)
    ensures
        r == (a@ == b@),
{
    match (a, b) {
        (Member::Named(x), Member::Named(y)) => str_eq(x.as_str(), y.as_str()),
        (Member::Unnamed(x), Member::Unnamed(y)) => *x == *y,
        _ => false,
    }
}

/// What the first field reached by `member` holds, if there is such a
/// field.
pub open spec fn spec_find(fields: Seq<FieldValueView>, member: MemberView) -> Option<ContentView>
    decreases fields.len(),
{
    if fields.len() == 0 {
        None
    } else if fields[0].member == member {
        Some(fields[0].content)
    } else {
        spec_find(fields.drop_first(), member)
    }
}

/// The fields before the first that `member` reaches do not matter to the
/// search.
pub proof fn lemma_find_skip(fields: Seq<FieldValueView>, member: MemberView, i: int)
    requires
        0 <= i <= fields.len(),
        forall|j: int| 0 <= j < i ==> fields[j].member != member,
    ensures
        spec_find(fields, member) == spec_find(fields.skip(i), member),
    decreases i,
{
    if i > 0 {
        lemma_find_skip(fields.drop_first(), member, i - 1);
        assert(fields.drop_first().skip(i - 1) =~= fields.skip(i));
    } else {
        assert(fields.skip(0) =~= fields);
    }
}

/// What the first field reached by `member` holds.
pub fn find<'a>(fields: &'a [FieldValue], member: &Member) -> (r: Option<&'a Content>)
    ensures
        r.deep_view() == spec_find(fields.deep_view(), member@),
{
    let mut i: usize = 0;
    while i < fields.len()
        invariant
            i <= fields.len(),
            forall|j: int| 0 <= j < i ==> fields.deep_view()[j].member != member@,
        decreases fields.len() - i,
    {
        if member_eq(&fields[i].member, member) {
            proof {
                lemma_find_skip(fields.deep_view(), member@, i as int);
            }
            return Some(&fields[i].content);
        }
        i += 1;
    }
    proof {
        lemma_find_skip(fields.deep_view(), member@, fields.len() as int);
    }
    None
}

/// What is written, behind one more prefix: the prefix stands before every
/// name that is not fixed.
pub open spec fn spec_prefix_one(e: EmittedView, prefix: Seq<char>) -> EmittedView {
    match e {
        EmittedView::Value { name, fixed, value, format } => if fixed {
            e
        } else {
            EmittedView::Value { name: prefix + name, fixed, value, format }
        },
        _ => e,
    }
}

/// All that is written, behind one more prefix.
pub open spec fn spec_prefixed(es: Seq<EmittedView>, prefix: Seq<char>) -> Seq<EmittedView> {
    Seq::new(es.len(), |i: int| spec_prefix_one(es[i], prefix))
}

/// What is written, with its name fixed: no prefix will stand before it.
pub open spec fn spec_fix_one(e: EmittedView) -> EmittedView {
    match e {
        EmittedView::Value { name, fixed, value, format } => EmittedView::Value {
            name,
            fixed: true,
            value,
            format,
        },
        _ => e,
    }
}

/// All that is written, with every name fixed.
pub open spec fn spec_fixed(es: Seq<EmittedView>) -> Seq<EmittedView> {
    Seq::new(es.len(), |i: int| spec_fix_one(es[i]))
}

/// Putting an inner prefix and then an outer one before what is written is
/// putting the two, joined, before it: prefixes compose in whatever way the
/// schemas are nested.
pub proof fn lemma_prefix_composes(es: Seq<EmittedView>, outer: Seq<char>, inner: Seq<char>)
    ensures
        spec_prefixed(spec_prefixed(es, inner), outer) == spec_prefixed(es, outer + inner),
{
    assert forall|i: int| 0 <= i < es.len() implies spec_prefix_one(
        spec_prefix_one(es[i], inner),
        outer,
    ) == spec_prefix_one(es[i], outer + inner) by {
        match es[i] {
            EmittedView::Value { name, fixed, value, format } => {
                assert(outer + (inner + name) =~= (outer + inner) + name);
            },
            _ => {},
        }
    }
}

/// Adds to `out` what `es` holds, behind one more prefix.
pub fn prefixed_into(out: &mut Vec<Emitted>, es: &[Emitted], prefix: &str)
    ensures
        final(out).deep_view() == old(out).deep_view() + spec_prefixed(es.deep_view(), prefix@),
{
    let ghost start = out.deep_view();
    let mut i: usize = 0;
    while i < es.len()
        invariant
            i <= es.len(),
            out.deep_view() == start + spec_prefixed(es.deep_view(), prefix@).take(i as int),
        decreases es.len() - i,
    {
        let e = match &es[i] {
            Emitted::Value { name, fixed, value, format } => if *fixed {
                es[i].clone()
            } else {
                Emitted::Value {
                    name: joined(prefix, name.as_str()),
                    fixed: *fixed,
                    value: value.clone(),
                    format: *format,
                }
            },
            _ => es[i].clone(),
        };
        let ghost before = *out;
        out.push(e);
        proof {
            lemma_deep_view_push(before, *out, e);
        }
        i += 1;
    }
}

/// Adds to `out` what `es` holds, with every name fixed.
pub fn fixed_into(out: &mut Vec<Emitted>, es: &[Emitted])
    ensures
        final(out).deep_view() == old(out).deep_view() + spec_fixed(es.deep_view()),
{
    let ghost start = out.deep_view();
    let mut i: usize = 0;
    while i < es.len()
        invariant
            i <= es.len(),
            out.deep_view() == start + spec_fixed(es.deep_view()).take(i as int),
        decreases es.len() - i,
    {
        let e = match &es[i] {
            Emitted::Value { name, fixed: _, value, format } => Emitted::Value {
                name: name.clone(),
                fixed: true,
                value: value.clone(),
                format: *format,
            },
            _ => es[i].clone(),
        };
        let ghost before = *out;
        out.push(e);
        proof {
            lemma_deep_view_push(before, *out, e);
        }
        i += 1;
    }
}

/// What one statement hands to the writer when `style` is handed down to the
/// entry. A statement whose field is missing, or holds what the statement
/// cannot write, hands over nothing.
pub open spec fn spec_emit_statement(
    stmt: WriteStatementView,
    fields: Seq<FieldValueView>,
    style: NameStyle,
) -> Seq<EmittedView> {
    match stmt {
        WriteStatementView::Configuration { config } => seq![EmittedView::Configuration(config)],
        WriteStatementView::Timestamp { field, .. } => match spec_find(fields, field) {
            Some(ContentView::Leaf(v)) => seq![EmittedView::Timestamp(v)],
            _ => seq![],
        },
        WriteStatementView::FlattenEntry { field, .. } => match spec_find(fields, field) {
            Some(ContentView::Nested(w)) => spec_fixed(w.preserve.emitted),
            _ => seq![],
        },
        WriteStatementView::Flatten { field, extra, ns, .. } => match (
            spec_find(fields, field),
            spec_resolve_prefix(ns.prefixes, extra, style),
        ) {
            (Some(ContentView::Nested(w)), Some(prefix)) => spec_prefixed(
                w.under(spec_select(ns.base.base, style)).emitted,
                prefix,
            ),
            _ => seq![],
        },
        WriteStatementView::Value { extra, name, value, .. } => match (
            spec_find(fields, value.field),
            spec_resolve_inflect(name, extra, style),
        ) {
            (Some(ContentView::Leaf(v)), Some(text)) => seq![
                EmittedView::Value { name: text, fixed: false, value: v, format: value.format },
            ],
            _ => seq![],
        },
    }
}

/// Gives what a statement hands to the writer.
pub open spec fn spec_emit_with(fields: Seq<FieldValueView>, style: NameStyle) -> spec_fn(
    WriteStatementView,
) -> Seq<EmittedView> {
    |stmt: WriteStatementView| spec_emit_statement(stmt, fields, style)
}

/// What an entry hands to the writer when `style` is handed down to it:
/// what each of its statements hands over, in the order of the statements.
pub open spec fn spec_emit(
    writes: Seq<WriteStatementView>,
    fields: Seq<FieldValueView>,
    style: NameStyle,
) -> Seq<EmittedView> {
    flat_map(writes, spec_emit_with(fields, style))
}

/// Adds to `out` what one statement hands to the writer.
pub fn emit_statement(
    stmt: &WriteStatement,
    fields: &[FieldValue],
    style: NameStyle,
    out: &mut Vec<Emitted>,
)
    ensures
        final(out).deep_view() == old(out).deep_view() + spec_emit_statement(
            stmt@,
            fields.deep_view(),
            style,
        ),
{
    match stmt {
        WriteStatement::Configuration { config } => {
            let ghost before = *out;
            let e = Emitted::Configuration(*config);
            out.push(e);
            proof {
                lemma_deep_view_push(before, *out, e);
            }
        },
        WriteStatement::Timestamp { field, .. } => {
            match find(fields, field) {
                Some(Content::Leaf(v)) => {
                    let ghost before = *out;
                    let e = Emitted::Timestamp(v.clone());
                    out.push(e);
                    proof {
                        lemma_deep_view_push(before, *out, e);
                    }
                },
                _ => {},
            }
        },
        WriteStatement::FlattenEntry { field, .. } => {
            match find(fields, field) {
                Some(Content::Nested(w)) => {
                    fixed_into(out, w.preserve.emitted.as_slice());
                },
                _ => {},
            }
        },
        WriteStatement::Flatten { field, extra, ns, .. } => {
            let found = find(fields, field);
            let prefix = resolve_prefix(ns, extra.as_slice(), style);
            match (found, prefix) {
                (Some(Content::Nested(w)), Some(prefix)) => {
                    let under = w.under(select(ns.base.base, style));
                    prefixed_into(out, under.emitted.as_slice(), prefix.as_str());
                },
                _ => {},
            }
        },
        WriteStatement::Value { extra, name, value, .. } => {
            let found = find(fields, &value.field);
            let text = resolve_inflect(name, extra.as_slice(), style);
            match (found, text) {
                (Some(Content::Leaf(v)), Some(text)) => {
                    let ghost before = *out;
                    let e = Emitted::Value {
                        name: String::from_str(text),
                        fixed: false,
                        value: v.clone(),
                        format: value.format,
                    };
                    out.push(e);
                    proof {
                        lemma_deep_view_push(before, *out, e);
                    }
                },
                _ => {},
            }
        },
    }
}

/// What an entry hands to the writer when `style` is handed down to it.
pub fn emit(writes: &[WriteStatement], fields: &[FieldValue], style: NameStyle) -> (r: Vec<Emitted>)
    ensures
        r.deep_view() == spec_emit(writes.deep_view(), fields.deep_view(), style),
{
    let mut out: Vec<Emitted> = Vec::new();
    let ghost f = spec_emit_with(fields.deep_view(), style);
    let mut i: usize = 0;
    while i < writes.len()
        invariant
            i <= writes.len(),
            f == spec_emit_with(fields.deep_view(), style),
            out.deep_view() == flat_map(writes.deep_view().take(i as int), f),
        decreases writes.len() - i,
    {
        proof {
            lemma_flat_map_step(writes.deep_view(), i as int, f);
        }
        emit_statement(&writes[i], fields, style, &mut out);
        i += 1;
    }
    assert(writes.deep_view().take(writes.len() as int) =~= writes.deep_view());
    out
}

/// The tags that one source of sample groups yields when `style` is handed
/// down to the entry. The tags of a flattened schema come under their own
/// names: no prefix is put before them.
pub open spec fn spec_tag_statement(
    stmt: SampleGroupStatementView,
    fields: Seq<FieldValueView>,
    style: NameStyle,
) -> Seq<TagView> {
    match stmt {
        SampleGroupStatementView::Flatten { field, ns, .. } => match spec_find(fields, field) {
            Some(ContentView::Nested(w)) => w.under(spec_select(ns.base, style)).tags,
            _ => seq![],
        },
        SampleGroupStatementView::FlattenEntry { field, .. } => match spec_find(fields, field) {
            Some(ContentView::Nested(w)) => w.preserve.tags,
            _ => seq![],
        },
        SampleGroupStatementView::Tag { field, extra, name, .. } => match (
            spec_find(fields, field),
            spec_resolve_inflect(name, extra, style),
        ) {
            (Some(ContentView::Leaf(v)), Some(text)) => seq![TagView { name: text, value: v }],
            _ => seq![],
        },
    }
}

/// Gives the tags that a source of sample groups yields.
pub open spec fn spec_tag_with(fields: Seq<FieldValueView>, style: NameStyle) -> spec_fn(
    SampleGroupStatementView,
) -> Seq<TagView> {
    |stmt: SampleGroupStatementView| spec_tag_statement(stmt, fields, style)
}

/// The tags of an entry when `style` is handed down to it: those of each
/// source of its chain, in the order of the sources.
pub open spec fn spec_tags(
    chain: ChainView<SampleGroupStatementView>,
    fields: Seq<FieldValueView>,
    style: NameStyle,
) -> Seq<TagView> {
    flat_map(chain.items(), spec_tag_with(fields, style))
}

/// Adds to `out` copies of the given tags.
pub fn tags_into(out: &mut Vec<Tag>, tags: &[Tag])
    ensures
        final(out).deep_view() == old(out).deep_view() + tags.deep_view(),
{
    let ghost start = out.deep_view();
    let mut i: usize = 0;
    while i < tags.len()
        invariant
            i <= tags.len(),
            out.deep_view() == start + tags.deep_view().take(i as int),
        decreases tags.len() - i,
    {
        let ghost before = *out;
        let t = tags[i].clone();
        out.push(t);
        proof {
            lemma_deep_view_push(before, *out, t);
        }
        i += 1;
    }
}

/// Adds to `out` the tags that one source of sample groups yields.
pub fn tag_statement(
    stmt: &SampleGroupStatement,
    fields: &[FieldValue],
    style: NameStyle,
    out: &mut Vec<Tag>,
)
    ensures
        final(out).deep_view() == old(out).deep_view() + spec_tag_statement(
            stmt@,
            fields.deep_view(),
            style,
        ),
{
    match stmt {
        SampleGroupStatement::Flatten { field, ns, .. } => {
            match find(fields, field) {
                Some(Content::Nested(w)) => {
                    let under = w.under(select(ns.base, style));
                    tags_into(out, under.tags.as_slice());
                },
                _ => {},
            }
        },
        SampleGroupStatement::FlattenEntry { field, .. } => {
            match find(fields, field) {
                Some(Content::Nested(w)) => {
                    tags_into(out, w.preserve.tags.as_slice());
                },
                _ => {},
            }
        },
        SampleGroupStatement::Tag { field, extra, name, .. } => {
            let found = find(fields, field);
            let text = resolve_inflect(name, extra.as_slice(), style);
            match (found, text) {
                (Some(Content::Leaf(v)), Some(text)) => {
                    let ghost before = *out;
                    let t = Tag { name: String::from_str(text), value: v.clone() };
                    out.push(t);
                    proof {
                        lemma_deep_view_push(before, *out, t);
                    }
                },
                _ => {},
            }
        },
    }
}

/// Adds to `out` the tags of a chain of sources, in the order of the
/// sources.
pub fn chain_tags(
    chain: &Chain<SampleGroupStatement>,
    fields: &[FieldValue],
    style: NameStyle,
    out: &mut Vec<Tag>,
)
    ensures
        final(out).deep_view() == old(out).deep_view() + spec_tags(
            chain.deep_view(),
            fields.deep_view(),
            style,
        ),
    decreases chain,
{
    let ghost f = spec_tag_with(fields.deep_view(), style);
    match chain {
        Chain::Empty => {},
        Chain::One(stmt) => {
            proof {
                lemma_flat_map_one(stmt@, f);
            }
            tag_statement(stmt, fields, style, out);
        },
        Chain::Chain(left, right) => {
            proof {
                lemma_flat_map_concat(
                    chain_view(**left).items(),
                    chain_view(**right).items(),
                    f,
                );
            }
            chain_tags(left, fields, style, out);
            chain_tags(right, fields, style, out);
        },
    }
}

/// What an entry writes under one case style, from its statements, its
/// sources of sample groups and what its fields hold.
pub open spec fn spec_written_under(
    writes: Seq<WriteStatementView>,
    sample_groups: ChainView<SampleGroupStatementView>,
    fields: Seq<FieldValueView>,
    style: NameStyle,
) -> WrittenUnderView {
    WrittenUnderView {
        emitted: spec_emit(writes, fields, style),
        tags: spec_tags(sample_groups, fields, style),
    }
}

/// What an entry writes under each of the four case styles.
pub open spec fn spec_written(
    writes: Seq<WriteStatementView>,
    sample_groups: ChainView<SampleGroupStatementView>,
    fields: Seq<FieldValueView>,
) -> WrittenView {
    WrittenView {
        preserve: spec_written_under(writes, sample_groups, fields, NameStyle::Preserve),
        pascal: spec_written_under(writes, sample_groups, fields, NameStyle::PascalCase),
        snake: spec_written_under(writes, sample_groups, fields, NameStyle::SnakeCase),
        kebab: spec_written_under(writes, sample_groups, fields, NameStyle::KebabCase),
    }
}

/// What an entry writes under one case style.
pub fn written_under(
    writes: &[WriteStatement],
    sample_groups: &Chain<SampleGroupStatement>,
    fields: &[FieldValue],
    style: NameStyle,
) -> (r: WrittenUnder)
    ensures
        r@ == spec_written_under(
            writes.deep_view(),
            sample_groups.deep_view(),
            fields.deep_view(),
            style,
        ),
{
    let emitted = emit(writes, fields, style);
    let mut tags: Vec<Tag> = Vec::new();
    chain_tags(sample_groups, fields, style, &mut tags);
    WrittenUnder { emitted, tags }
}

/// What an entry writes under each of the four case styles.
pub fn written(
    writes: &[WriteStatement],
    sample_groups: &Chain<SampleGroupStatement>,
    fields: &[FieldValue],
) -> (r: Written)
    ensures
        r@ == spec_written(writes.deep_view(), sample_groups.deep_view(), fields.deep_view()),
{
    Written {
        preserve: written_under(writes, sample_groups, fields, NameStyle::Preserve),
        pascal: written_under(writes, sample_groups, fields, NameStyle::PascalCase),
        snake: written_under(writes, sample_groups, fields, NameStyle::SnakeCase),
        kebab: written_under(writes, sample_groups, fields, NameStyle::KebabCase),
    }
}

impl EntryImpl {
    /// What the entry of a record writes when its fields hold `fields`.
    pub fn write(&self, fields: &[FieldValue]) -> (r: Written)
        ensures
            r@ == spec_written(self@.writes, self@.sample_groups, fields.deep_view()),
    {
        written(self.writes.as_slice(), &self.sample_groups, fields)
    }
}

/// The place of the first arm for the case of the given name, or the number
/// of arms where there is none.
pub open spec fn spec_arm_index(arms: Seq<WriteArmView>, case: Seq<char>) -> int
    decreases arms.len(),
{
    if arms.len() == 0 {
        0
    } else if arms[0].variant.name == case {
        0
    } else {
        1 + spec_arm_index(arms.drop_first(), case)
    }
}

/// The arms before the first for the case do not matter to the search.
pub proof fn lemma_arm_index(arms: Seq<WriteArmView>, case: Seq<char>, i: int)
    requires
        0 <= i <= arms.len(),
        forall|j: int| 0 <= j < i ==> arms[j].variant.name != case,
        i < arms.len() ==> arms[i].variant.name == case,
    ensures
        spec_arm_index(arms, case) == i,
    decreases i,
{
    if i > 0 {
        lemma_arm_index(arms.drop_first(), case, i - 1);
    }
}

/// What the entry of a union writes when it is the case of the given name
/// and its fields hold `fields`: what the arm of that case writes. There is
/// nothing to write for a case that the union does not have.
pub open spec fn spec_union_written(
    plan: UnionEntryImplView,
    case: Seq<char>,
    fields: Seq<FieldValueView>,
) -> Option<WrittenView> {
    let i = spec_arm_index(plan.arms, case);
    if i < plan.arms.len() {
        Some(spec_written(plan.arms[i].writes, plan.arms[i].sample_groups, fields))
    } else {
        None
    }
}

impl UnionEntryImpl {
    /// What the entry of a union writes when it is the case of the given
    /// name and its fields hold `fields`.
    pub fn write(&self, case: &str, fields: &[FieldValue]) -> (r: Option<Written>)
        ensures
            r.deep_view() == spec_union_written(self@, case@, fields.deep_view()),
    {
        let mut i: usize = 0;
        while i < self.arms.len()
            invariant
                i <= self.arms.len(),
                forall|j: int| 0 <= j < i ==> self@.arms[j].variant.name != case@,
            decreases self.arms.len() - i,
        {
            if str_eq(self.arms[i].variant.name.as_str(), case) {
                proof {
                    lemma_arm_index(self@.arms, case@, i as int);
                }
                let arm = &self.arms[i];
                return Some(written(arm.writes.as_slice(), &arm.sample_groups, fields));
            }
            i += 1;
        }
        proof {
            lemma_arm_index(self@.arms, case@, self.arms.len() as int);
        }
        None
    }
}

/// The name under which the case of the given name is written, if the union
/// has such a case.
pub open spec fn spec_case_name(names: Seq<VariantNameView>, case: Seq<char>) -> Option<Seq<char>>
    decreases names.len(),
{
    if names.len() == 0 {
        None
    } else if names[0].variant.name == case {
        Some(names[0].metric_name)
    } else {
        spec_case_name(names.drop_first(), case)
    }
}

/// The names before the first for the case do not matter to the search.
pub proof fn lemma_case_name_skip(names: Seq<VariantNameView>, case: Seq<char>, i: int)
    requires
        0 <= i <= names.len(),
        forall|j: int| 0 <= j < i ==> names[j].variant.name != case,
    ensures
        spec_case_name(names, case) == spec_case_name(names.skip(i), case),
    decreases i,
{
    if i > 0 {
        lemma_case_name_skip(names.drop_first(), case, i - 1);
        assert(names.drop_first().skip(i - 1) =~= names.skip(i));
    } else {
        assert(names.skip(0) =~= names);
    }
}

impl FromAndSampleGroup {
    /// The name by which a value that is the case `case` tells its case: as
    /// a string, and as its sample group.
    pub fn case_name(&self, case: &str) -> (r: Option<&str>)
        ensures
            r.deep_view() == spec_case_name(self@.names, case@),
    {
        let mut i: usize = 0;
        while i < self.names.len()
            invariant
                i <= self.names.len(),
                forall|j: int| 0 <= j < i ==> self@.names[j].variant.name != case@,
            decreases self.names.len() - i,
        {
            if str_eq(self.names[i].variant.name.as_str(), case) {
                proof {
                    lemma_case_name_skip(self@.names, case@, i as int);
                }
                return Some(self.names[i].metric_name.as_str());
            }
            i += 1;
        }
        proof {
            lemma_case_name_skip(self@.names, case@, self.names.len() as int);
        }
        None
    }
}

/// The value that a value schema is written as: what its one field holds,
/// where that is a closed value.
pub open spec fn spec_value_written(plan: ValueImplView, fields: Seq<FieldValueView>) -> Option<
    ObservationView,
> {
    match plan.body {
        Some(value) => match spec_find(fields, value.field) {
            Some(ContentView::Leaf(v)) => Some(v),
            _ => None,
        },
        None => None,
    }
}

impl ValueImpl {
    /// The value that the schema is written as when its fields hold
    /// `fields`.
    pub fn write(&self, fields: &[FieldValue]) -> (r: Option<Observation>)
        ensures
            r.deep_view() == spec_value_written(self@, fields.deep_view()),
    {
        match &self.body {
            Some(value) => match find(fields, &value.field) {
                Some(Content::Leaf(v)) => Some(v.clone()),
                _ => None,
            },
            None => None,
        }
    }
}

/// An entry whose names can still be inflected: it writes itself under
/// whatever case style and behind whatever prefix the enclosing schema hands
/// down, without any work on its own names.
pub trait InflectableEntry {
    /// What the entry writes under each case style.
    spec fn spec_written(&self) -> WrittenView;

    /// Writes the entry under `style`, behind `prefix`.
    fn write(&self, style: NameStyle, prefix: &str, writer: &mut Vec<Emitted>)
        ensures
            final(writer).deep_view() == old(writer).deep_view() + spec_prefixed(
                self.spec_written().under(style).emitted,
                prefix@,
            ),
    ;

    /// The sample groups of the entry under `style`.
    fn sample_group(&self, style: NameStyle) -> (r: Vec<Tag>)
        ensures
            r.deep_view() == self.spec_written().under(style).tags,
    ;
}

impl InflectableEntry for Written {
    open spec fn spec_written(&self) -> WrittenView {
        self@
    }

    fn write(&self, style: NameStyle, prefix: &str, writer: &mut Vec<Emitted>) {
        prefixed_into(writer, self.under(style).emitted.as_slice(), prefix);
    }

    fn sample_group(&self, style: NameStyle) -> (r: Vec<Tag>) {
        let mut tags: Vec<Tag> = Vec::new();
        tags_into(&mut tags, self.under(style).tags.as_slice());
        tags
    }
}

/// What can be closed into an entry whose names can still be inflected.
pub trait CloseEntry: CloseValue<Closed: InflectableEntry> {}

impl<T: ?Sized + CloseValue<Closed: InflectableEntry>> CloseEntry for T {}

impl Clone for WrittenUnder {
    fn clone(&self) -> (r: WrittenUnder)
        ensures
            r@ == self@,
    {
        let mut emitted: Vec<Emitted> = Vec::new();
        let mut tags: Vec<Tag> = Vec::new();
        prefixed_into(&mut emitted, self.emitted.as_slice(), "");
        tags_into(&mut tags, self.tags.as_slice());
        proof {
            reveal_strlit("");
            assert forall|i: int| 0 <= i < self@.emitted.len() implies spec_prefix_one(
                self@.emitted[i],
                ""@,
            ) == self@.emitted[i] by {
                // Nothing before a name is the name.
            }
            assert(emitted.deep_view() =~= self@.emitted);
        }
        WrittenUnder { emitted, tags }
    }
}

impl Clone for Written {
    fn clone(&self) -> (r: Written)
        ensures
            r@ == self@,
    {
        Written {
            preserve: self.preserve.clone(),
            pascal: self.pascal.clone(),
            snake: self.snake.clone(),
            kebab: self.kebab.clone(),
        }
    }
}

/// An entry that is written already closes into itself.
impl CloseValue for Written {
    type Closed = Written;

    fn close(self) -> (r: Written)
        ensures
            r == self,
    {
        self
    }
}

/// An entry that is written already closes, behind a reference, into a copy
/// of itself.
impl CloseValue for &Written {
    type Closed = Written;

    fn close(self) -> (r: Written)
        ensures
            r@ == self@,
    {
        self.clone()
    }
}

/// The value that a union that is a value is written as when it is the case
/// of the given name: the name under which that case is written.
pub open spec fn spec_union_value_written(plan: UnionValueImplView, case: Seq<char>) -> Option<
    ObservationView,
> {
    match spec_case_name(plan.from_and_sample_group.names, case) {
        Some(name) => Some(ObservationView::Text(name)),
        None => None,
    }
}

impl UnionValueImpl {
    /// The value that the union is written as when it is the case of the
    /// given name.
    pub fn write(&self, case: &str) -> (r: Option<Observation>)
        ensures
            r.deep_view() == spec_union_value_written(self@, case@),
    {
        match self.from_and_sample_group.case_name(case) {
            Some(name) => Some(Observation::Text(String::from_str(name))),
            None => None,
        }
    }
}

} // verus!
