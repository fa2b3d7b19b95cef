//! The attributes of a schema and of its fields: as they are declared, and
//! as they stand once validated.

use vstd::prelude::*;
use vstd::string::*;
use crate::inflect::NameStyle;
use crate::inflect::name_contains_dot;
use crate::inflect::name_contains_uninflectables;
use crate::inflect::name_ends_with_delimiter;
use crate::inflect::spec_ends_with_delimiter;
use crate::inflect::spec_first_uninflectable;
use crate::source::AttrName;
use crate::source::Diagnostic;
use crate::source::DiagnosticView;
use crate::source::Flag;
use crate::source::Span;
use crate::source::SpannedKv;
use crate::source::Syntax;
use crate::source::cannot_combine_error;
use crate::source::spec_cannot_combine;
use crate::source::spec_error;
use crate::text::char_debug;
use crate::text::contains_char;
use crate::text::contains_whitespace;
use crate::text::debug_char;
use crate::text::debug_str;
use crate::text::is_ascii_alphanumeric;
use crate::text::spec_contains_whitespace;
use crate::text::spec_is_ascii_alphanumeric;
use crate::text::str_debug;

verus! {

/// Whether closing a schema borrows it or consumes it.
#[derive(Copy, Clone, Debug, PartialEq, Eq, Structural)]
pub enum OwnershipKind {
    ByRef,
    ByValue,
}

/// What a schema is compiled into.
#[derive(Copy, Clone, Debug, PartialEq, Eq, Structural)]
pub enum MetricMode {
    RootEntry,
    Subfield,
    SubfieldOwned,
    Value,
    ValueString,
}

impl Default for MetricMode {
    fn default() -> (r: MetricMode)
        ensures
            r == MetricMode::RootEntry,
    {
        MetricMode::RootEntry
    }
}

/// A prefix put before metric names.
#[derive(Debug, PartialEq, Eq)]
pub enum Prefix {
    /// Inflected together with the name that follows it.
    Inflectable { prefix: String },
    /// Used as it is written.
    Exact(String),
}

/// [`Prefix`] as it is specified: text as a sequence of characters, lists as
/// sequences.
pub ghost enum PrefixView {
    Inflectable { prefix: Seq<char> },
    Exact(Seq<char>),
}

impl DeepView for Prefix {
    type V = PrefixView;

    open spec fn deep_view(&self) -> PrefixView {
        match self {
            Prefix::Inflectable { prefix } => PrefixView::Inflectable { prefix: prefix@ },
            Prefix::Exact(p) => PrefixView::Exact(p@),
        }
    }
}

impl View for Prefix {
    type V = PrefixView;

    open spec fn view(&self) -> PrefixView {
        self.deep_view()
    }
}

impl Clone for Prefix {
    fn clone(&self) -> (r: Prefix)
        ensures
            r@ == self@,
    {
        match self {
            Prefix::Inflectable { prefix } => Prefix::Inflectable { prefix: prefix.clone() },
            Prefix::Exact(p) => Prefix::Exact(p.clone()),
        }
    }
}

/// Where a prefix is declared.
#[derive(Copy, Clone, Debug, PartialEq, Eq, Structural)]
pub enum PrefixLevel {
    Root,
    Field,
}

/// The grouping dimensions of a schema, carried through to the entry.
#[derive(Copy, Clone, Debug, PartialEq, Eq, Structural)]
pub struct DimensionSets {
    pub syntax: Syntax,
    pub span: Span,
}

/// The `value` attribute of a schema, with or without `string`.
#[derive(Copy, Clone, Debug, PartialEq, Eq, Structural)]
pub struct ValueAttributes {
    pub string: Flag,
}

/// The attributes of a schema as declared.
#[derive(Debug, Clone, PartialEq, Eq)]
pub struct RawRootAttributes {
    pub prefix: Option<SpannedKv<String>>,
    pub exact_prefix: Option<SpannedKv<String>>,
    pub rename_all: NameStyle,
    pub emf_dimensions: Option<DimensionSets>,
    pub subfield: Flag,
    pub subfield_owned: Flag,
    pub sample_group: Flag,
    pub value: Option<ValueAttributes>,
}

/// The attributes of a schema once validated.
#[derive(Debug, Clone, PartialEq, Eq)]
pub struct RootAttributes {
    pub prefix: Option<Prefix>,
    pub rename_all: NameStyle,
    pub emf_dimensions: Option<DimensionSets>,
    pub sample_group: bool,
    pub mode: MetricMode,
}

/// [`RootAttributes`] as it is specified: text as a sequence of characters, lists as
/// sequences.
pub ghost struct RootAttributesView {
    pub prefix: Option<PrefixView>,
    pub rename_all: NameStyle,
    pub emf_dimensions: Option<DimensionSets>,
    pub sample_group: bool,
    pub mode: MetricMode,
}

impl DeepView for RootAttributes {
    type V = RootAttributesView;

    open spec fn deep_view(&self) -> RootAttributesView {
        RootAttributesView {
            prefix: self.prefix.deep_view(),
            rename_all: self.rename_all,
            emf_dimensions: self.emf_dimensions,
            sample_group: self.sample_group,
            mode: self.mode,
        }
    }
}

impl View for RootAttributes {
    type V = RootAttributesView;

    open spec fn view(&self) -> RootAttributesView {
        self.deep_view()
    }
}

/// The attributes of a schema that declares none.
pub open spec fn spec_default_root() -> RootAttributesView {
    RootAttributesView {
        prefix: None,
        rename_all: NameStyle::Preserve,
        emf_dimensions: None,
        sample_group: false,
        mode: MetricMode::RootEntry,
    }
}

impl Default for RootAttributes {
    fn default() -> (r: RootAttributes)
        ensures
            r@ == spec_default_root(),
    {
        RootAttributes {
            prefix: None,
            rename_all: NameStyle::Preserve,
            emf_dimensions: None,
            sample_group: false,
            mode: MetricMode::RootEntry,
        }
    }
}

/// How closing accesses a schema in `mode`.
pub open spec fn spec_ownership_kind(mode: MetricMode) -> OwnershipKind {
    match mode {
        MetricMode::RootEntry | MetricMode::SubfieldOwned => OwnershipKind::ByValue,
        MetricMode::Subfield | MetricMode::ValueString | MetricMode::Value => OwnershipKind::ByRef,
    }
}

impl RootAttributes {
    /// How closing accesses a schema with these attributes.
    pub fn ownership_kind(&self) -> (r: OwnershipKind)
        ensures
            r == spec_ownership_kind(self.mode),
    {
        match self.mode {
            MetricMode::RootEntry | MetricMode::SubfieldOwned => OwnershipKind::ByValue,
            MetricMode::Subfield | MetricMode::ValueString | MetricMode::Value => {
                OwnershipKind::ByRef
            },
        }
    }
}

/// A field of the entry that holds a schema's configuration.
#[derive(Copy, Clone, Debug, PartialEq, Eq, Structural)]
pub enum ConfigurationField {
    /// The set of grouping dimensions of the entry.
    EntryDimensions,
}

impl ConfigurationField {
    /// The name of the field in the entry.
    pub open spec fn spec_name(self) -> Seq<char> {
        "__config__"@
    }

    /// The name of the field in the entry.
    pub fn name(self) -> (r: &'static str)
        ensures
            r@ == self.spec_name(),
    {
        "__config__"
    }
}

/// How a configuration field of the entry is filled when a schema is closed.
#[derive(Copy, Clone, Debug, PartialEq, Eq, Structural)]
pub enum ConfigurationInit {
    /// From the declared grouping dimensions.
    EntryDimensions(DimensionSets),
}

/// A note for the author of a schema that does not stop compilation.
#[derive(Clone, Debug, PartialEq, Eq)]
pub struct Warning {
    pub span: Span,
    pub note: String,
}

/// [`Warning`] as it is specified: text as a sequence of characters, lists as
/// sequences.
pub ghost struct WarningView {
    pub span: Span,
    pub note: Seq<char>,
}

impl DeepView for Warning {
    type V = WarningView;

    open spec fn deep_view(&self) -> WarningView {
        WarningView { span: self.span, note: self.note@ }
    }
}

impl View for Warning {
    type V = WarningView;

    open spec fn view(&self) -> WarningView {
        self.deep_view()
    }
}

/// A warning at `span` that the author of the schema gets to see.
pub fn proc_macro_warning(span: Span, warning: &str) -> (r: Warning)
    ensures
        r@ == (WarningView { span, note: warning@ }),
{
    Warning { span, note: String::from_str(warning) }
}

/// The configuration fields of the entry of a schema: one for the grouping
/// dimensions, where the schema declares them.
pub open spec fn spec_configuration_fields(
    emf_dimensions: Option<DimensionSets>,
) -> Seq<ConfigurationField> {
    match emf_dimensions {
        Some(_) => seq![ConfigurationField::EntryDimensions],
        None => seq![],
    }
}

/// How the configuration fields of the entry are filled: the one for the
/// grouping dimensions from what the schema declares.
pub open spec fn spec_create_configuration(
    emf_dimensions: Option<DimensionSets>,
) -> Seq<ConfigurationInit> {
    match emf_dimensions {
        Some(dims) => seq![ConfigurationInit::EntryDimensions(dims)],
        None => seq![],
    }
}

impl RootAttributes {
    /// The names of the configuration fields of the entry.
    pub fn configuration_field_names(&self) -> (r: Vec<&'static str>)
        ensures
            r.deep_view() == spec_configuration_fields(self.emf_dimensions).map_values(
                |f: ConfigurationField| f.spec_name(),
            ),
    {
        let mut names: Vec<&'static str> = Vec::new();
        if let Some(_dims) = &self.emf_dimensions {
            names.push(ConfigurationField::EntryDimensions.name());
        }
        names
    }

    /// The configuration fields of the entry.
    pub fn configuration_fields(&self) -> (r: Vec<ConfigurationField>)
        ensures
            r@ == spec_configuration_fields(self.emf_dimensions),
    {
        let mut fields: Vec<ConfigurationField> = Vec::new();
        if let Some(_dims) = &self.emf_dimensions {
            fields.push(ConfigurationField::EntryDimensions);
        }
        fields
    }

    /// How the configuration fields of the entry are filled.
    pub fn create_configuration(&self) -> (r: Vec<ConfigurationInit>)
        ensures
            r@ == spec_create_configuration(self.emf_dimensions),
    {
        let mut fields: Vec<ConfigurationInit> = Vec::new();
        if let Some(dims) = &self.emf_dimensions {
            fields.push(ConfigurationInit::EntryDimensions(*dims));
        }
        fields
    }

    /// The warnings that a validated schema gives rise to: none.
    pub fn warnings(&self) -> (r: Vec<Warning>)
        ensures
            r@.len() == 0,
    {
        Vec::new()
    }
}

/// Sets the kind to `new` when `flag` is present, and refuses when a kind is
/// already set: the kinds exclude one another.
pub open spec fn spec_set_exclusive<T>(
    new: T,
    name: AttrName,
    existing: Option<(T, AttrName)>,
    flag: Flag,
) -> Result<Option<(T, AttrName)>, DiagnosticView> {
    if flag.present {
        match existing {
            Some((_, other)) => Err(spec_cannot_combine(other, name, flag.span)),
            None => Ok(Some((new, name))),
        }
    } else {
        Ok(existing)
    }
}

/// One more step of `spec_set_exclusive` after the steps that led to `state`.
pub open spec fn spec_then_exclusive<T>(
    state: Result<Option<(T, AttrName)>, DiagnosticView>,
    new: T,
    name: AttrName,
    flag: Flag,
) -> Result<Option<(T, AttrName)>, DiagnosticView> {
    match state {
        Err(e) => Err(e),
        Ok(existing) => spec_set_exclusive(new, name, existing, flag),
    }
}

/// Sets the kind to `new` when `flag` is present, and refuses when a kind is
/// already set.
pub fn set_exclusive<T>(
    new: T,
    name: AttrName,
    existing: Option<(T, AttrName)>,
    flag: &Flag,
) -> (r: Result<Option<(T, AttrName)>, Diagnostic>)
    ensures
        match r {
            Ok(v) => spec_set_exclusive(new, name, existing, *flag) == Ok::<
                Option<(T, AttrName)>,
                DiagnosticView,
            >(v),
            Err(d) => spec_set_exclusive(new, name, existing, *flag) == Err::<
                Option<(T, AttrName)>,
                DiagnosticView,
            >(d@),
        },
{
    if flag.is_present() {
        match existing {
            Some((_, other)) => Err(cannot_combine_error(other, name, flag.span())),
            None => Ok(Some((new, name))),
        }
    } else {
        Ok(existing)
    }
}

/// The finding, if any, that a leaf-only attribute is declared at `at`
/// beside the kind `existing`.
pub open spec fn spec_leaf_only_conflict(
    field_name: AttrName,
    existing: Option<AttrName>,
    at: Option<Span>,
) -> Option<DiagnosticView> {
    match (at, existing) {
        (Some(span), Some(other)) => Some(spec_cannot_combine(other, field_name, span)),
        _ => None,
    }
}

/// The value of a leaf-only attribute, which no field of another kind may
/// declare.
pub fn get_field_option<'a, K, T>(
    field_name: AttrName,
    existing: &Option<(K, AttrName)>,
    span: &'a Option<SpannedKv<T>>,
) -> (r: Result<Option<&'a T>, Diagnostic>)
    ensures
        match r {
            Ok(v) => {
                &&& span is Some ==> existing is None
                &&& match v {
                    Some(t) => span is Some && *t == span.unwrap().value,
                    None => span is None,
                }
            },
            Err(d) => span is Some && existing is Some && d@ == spec_cannot_combine(
                existing.unwrap().1,
                field_name,
                span.unwrap().key_span,
            ),
        },
{
    match (span, existing) {
        (Some(input), Some((_, other))) => Err(
            cannot_combine_error(*other, field_name, input.key_span),
        ),
        (Some(v), None) => Ok(Some(&v.value)),
        _ => Ok(None),
    }
}

/// The location of a leaf-only flag, which no field of another kind may
/// declare.
pub fn get_field_flag<K>(
    field_name: AttrName,
    existing: &Option<(K, AttrName)>,
    flag: &Flag,
) -> (r: Result<Option<Span>, Diagnostic>)
    ensures
        match r {
            Ok(v) => {
                &&& flag.present ==> existing is None
                &&& v == (if flag.present { Some(flag.span) } else { None })
            },
            Err(d) => flag.present && existing is Some && d@ == spec_cannot_combine(
                existing.unwrap().1,
                field_name,
                flag.span,
            ),
        },
{
    match (flag.is_present(), existing) {
        (true, Some((_, other))) => Err(cannot_combine_error(*other, field_name, flag.span())),
        (true, None) => Ok(Some(flag.span())),
        _ => Ok(None),
    }
}

/// Why `name` cannot override a metric name, if it cannot: it is empty, or
/// it holds white space.
pub open spec fn spec_name_error(name: Seq<char>) -> Option<Seq<char>> {
    if name.len() == 0 {
        Some("invalid name: name field must not be empty"@)
    } else if spec_contains_whitespace(name) {
        Some("invalid name: name must not contain spaces"@)
    } else {
        None
    }
}

/// Checks that `name` can override a metric name.
pub fn validate_name_inner(name: &str) -> (r: Result<(), &'static str>)
    ensures
        match r {
            Ok(_) => spec_name_error(name@) is None,
            Err(msg) => spec_name_error(name@) == Some(msg@),
        },
{
    if name.unicode_len() == 0 {
        return Err("invalid name: name field must not be empty");
    }
    if contains_whitespace(name) {
        return Err("invalid name: name must not contain spaces");
    }
    Ok(())
}

/// The finding, if any, on a declared name override.
pub open spec fn spec_validate_name(name: Option<SpannedKv<String>>) -> Option<DiagnosticView> {
    match name {
        Some(kv) => match spec_name_error(kv.value@) {
            Some(msg) => Some(spec_error(msg, kv.value_span)),
            None => None,
        },
        None => None,
    }
}

/// Checks a declared name override; a finding stands at its value.
pub fn validate_name<'a>(name: &'a SpannedKv<String>) -> (r: Result<
    &'a SpannedKv<String>,
    Diagnostic,
>)
    ensures
        match r {
            Ok(n) => *n == *name && spec_validate_name(Some(*name)) is None,
            Err(d) => spec_validate_name(Some(*name)) == Some(d@),
        },
{
    match validate_name_inner(name.value.as_str()) {
        Ok(_) => Ok(name),
        Err(msg) => Err(Diagnostic::new(msg, name.value_span)),
    }
}

/// A character of a prefix as it may stand in an inflectable one: itself
/// when it is a letter of the basic Latin alphabet or a decimal digit, a
/// hyphen otherwise.
pub open spec fn spec_delimit(c: char) -> char {
    if spec_is_ascii_alphanumeric(c) {
        c
    } else {
        '-'
    }
}

/// `prefix` with every character that is neither a letter of the basic Latin
/// alphabet nor a decimal digit replaced by a hyphen.
pub open spec fn spec_delimited(prefix: Seq<char>) -> Seq<char> {
    Seq::new(prefix.len(), |i: int| spec_delimit(prefix[i]))
}

/// The text that refuses a character in an inflectable prefix, from its
/// parts: the character and the prefix as literals, the prefix that would
/// inflect as a literal, and whether the prefix holds a dot.
pub open spec fn spec_compose_inflected_prefix_message(
    c: Seq<char>,
    prefix_fixed: Seq<char>,
    prefix: Seq<char>,
    dotted: bool,
) -> Seq<char> {
    "You cannot use the character "@ + c
        + " with `prefix`. `prefix` will \"inflect\" to match the name scheme specified by `rename_all`. For example, it will change all delimiters to `-` for kebab case). If you want to match namestyle, use `prefix = "@
        + prefix_fixed + "`. If you want to preserve "@ + c
        + " in the final metric name use `exact_prefix = "@ + prefix + "."@ + (if dotted {
        " '.' used to be allowed in `prefix` but is now forbidden."@
    } else {
        ""@
    })
}

/// The text that refuses the character `c` in the inflectable prefix
/// `prefix`, and offers both a prefix that inflects and the exact prefix.
pub open spec fn spec_inflected_prefix_message(prefix: Seq<char>, c: char) -> Seq<char> {
    spec_compose_inflected_prefix_message(
        char_debug(c),
        str_debug(spec_delimited(prefix)),
        str_debug(prefix),
        prefix.contains('.'),
    )
}

/// The delimiter to close a root prefix with: a hyphen where the prefix
/// already holds one, an underscore otherwise.
pub open spec fn spec_closing_delimiter(prefix: Seq<char>) -> char {
    if prefix.contains('-') {
        '-'
    } else {
        '_'
    }
}

/// The text that asks for a delimiter at the end of a root prefix, from its
/// parts: the prefix, and the prefix with a delimiter, both as literals.
pub open spec fn spec_compose_delimiter_message(
    prefix: Seq<char>,
    prefix_fixed: Seq<char>,
) -> Seq<char> {
    "The root-level prefix `"@ + prefix + "` must end with a delimiter. Use `prefix = "@
        + prefix_fixed + "`, which inflects correctly in all inflections"@
}

/// The text that asks for a delimiter at the end of the root prefix
/// `prefix`, and offers the prefix with one.
pub open spec fn spec_prefix_should_end_with_delimiter_message(prefix: Seq<char>) -> Seq<char> {
    spec_compose_delimiter_message(
        str_debug(prefix),
        str_debug(prefix.push(spec_closing_delimiter(prefix))),
    )
}

/// The finding, if any, on the prefix that a schema or a field declares.
pub open spec fn spec_prefix_error(
    inflectable: Option<SpannedKv<String>>,
    exact: Option<SpannedKv<String>>,
    level: PrefixLevel,
) -> Option<DiagnosticView> {
    match (inflectable, exact) {
        (Some(p), None) => match spec_first_uninflectable(p.value@) {
            Some(c) => Some(spec_error(spec_inflected_prefix_message(p.value@, c), p.key_span)),
            None => if level == PrefixLevel::Root && !spec_ends_with_delimiter(p.value@) {
                Some(
                    spec_error(spec_prefix_should_end_with_delimiter_message(p.value@), p.key_span),
                )
            } else {
                None
            },
        },
        (Some(p), Some(_)) => Some(
            spec_cannot_combine(AttrName::Prefix, AttrName::ExactPrefix, p.key_span),
        ),
        _ => None,
    }
}

/// The prefix that a schema or a field declares, with the place of its key.
pub open spec fn spec_prefix(
    inflectable: Option<SpannedKv<String>>,
    exact: Option<SpannedKv<String>>,
) -> Option<(PrefixView, Span)> {
    match (inflectable, exact) {
        (Some(p), None) => Some((PrefixView::Inflectable { prefix: p.value@ }, p.key_span)),
        (None, Some(p)) => Some((PrefixView::Exact(p.value@), p.key_span)),
        _ => None,
    }
}

/// A root prefix that inflects must end with a delimiter; an exact prefix of
/// the same text is taken as it is.
pub proof fn lemma_root_prefix_needs_delimiter(p: SpannedKv<String>)
    ensures
        !spec_ends_with_delimiter(p.value@) ==> spec_prefix_error(
            Some(p),
            None,
            PrefixLevel::Root,
        ) is Some,
        spec_prefix_error(None, Some(p), PrefixLevel::Root) is None,
        spec_prefix(None, Some(p)) == Some((PrefixView::Exact(p.value@), p.key_span)),
{
}

/// `prefix` with every character that is neither a letter of the basic Latin
/// alphabet nor a decimal digit replaced by a hyphen.
pub fn delimited(prefix: &str) -> (r: String)
    ensures
        r@ == spec_delimited(prefix@),
{
    let n = prefix.unicode_len();
    let mut prefix_fixed = String::new();
    let mut i: usize = 0;
    while i < n
        invariant
            n == prefix@.len(),
            i <= n,
            prefix_fixed@.len() == i,
            forall|j: int| 0 <= j < i ==> prefix_fixed@[j] == spec_delimit(prefix@[j]),
        decreases n - i,
    {
        let ch = prefix.get_char(i);
        prefix_fixed.push(if !is_ascii_alphanumeric(ch) { '-' } else { ch });
        i += 1;
    }
    prefix_fixed
}

/// `prefix` closed with a delimiter: a hyphen where it already holds one, an
/// underscore otherwise.
pub fn closed_with_delimiter(prefix: &str) -> (r: String)
    ensures
        r@ == prefix@.push(spec_closing_delimiter(prefix@)),
{
    let delimiter = if contains_char(prefix, '-') { '-' } else { '_' };
    let mut prefix_fixed = String::from_str(prefix);
    prefix_fixed.push(delimiter);
    prefix_fixed
}

/// Puts together the text that refuses a character in an inflectable
/// prefix.
pub fn compose_inflected_prefix_message(
    c: &str,
    prefix_fixed: &str,
    prefix: &str,
    dotted: bool,
) -> (r: String)
    ensures
        r@ == spec_compose_inflected_prefix_message(c@, prefix_fixed@, prefix@, dotted),
{
    let warning_text = if dotted {
        " '.' used to be allowed in `prefix` but is now forbidden."
    } else {
        ""
    };
    let mut msg = String::from_str("You cannot use the character ");
    msg.append(c);
    msg.append(
        " with `prefix`. `prefix` will \"inflect\" to match the name scheme specified by `rename_all`. For example, it will change all delimiters to `-` for kebab case). If you want to match namestyle, use `prefix = ",
    );
    msg.append(prefix_fixed);
    msg.append("`. If you want to preserve ");
    msg.append(c);
    msg.append(" in the final metric name use `exact_prefix = ");
    msg.append(prefix);
    msg.append(".");
    msg.append(warning_text);
    msg
}

/// Puts together the text that asks for a delimiter at the end of a root
/// prefix.
pub fn compose_delimiter_message(prefix: &str, prefix_fixed: &str) -> (r: String)
    ensures
        r@ == spec_compose_delimiter_message(prefix@, prefix_fixed@),
{
    let mut msg = String::from_str("The root-level prefix `");
    msg.append(prefix);
    msg.append("` must end with a delimiter. Use `prefix = ");
    msg.append(prefix_fixed);
    msg.append("`, which inflects correctly in all inflections");
    msg
}

impl Prefix {
    /// The text that refuses the character `c` in the inflectable prefix
    /// `prefix`.
    pub fn inflected_prefix_message(prefix: &str, c: char) -> (r: String)
        ensures
            r@ == spec_inflected_prefix_message(prefix@, c),
    {
        let prefix_fixed = delimited(prefix);
        compose_inflected_prefix_message(
            debug_char(c).as_str(),
            debug_str(prefix_fixed.as_str()).as_str(),
            debug_str(prefix).as_str(),
            name_contains_dot(prefix),
        )
    }

    /// The text that asks for a delimiter at the end of the root prefix
    /// `prefix`.
    pub fn prefix_should_end_with_delimiter_message(prefix: &str) -> (r: String)
        ensures
            r@ == spec_prefix_should_end_with_delimiter_message(prefix@),
    {
        let prefix_fixed = closed_with_delimiter(prefix);
        compose_delimiter_message(
            debug_str(prefix).as_str(),
            debug_str(prefix_fixed.as_str()).as_str(),
        )
    }

    /// The prefix that is declared, from the two attributes that can
    /// declare one.
    pub fn from_inflectable_and_exact(
        inflectable: &Option<SpannedKv<String>>,
        exact: &Option<SpannedKv<String>>,
        level: PrefixLevel,
    ) -> (r: Result<Option<(Prefix, Span)>, Diagnostic>)
        ensures
            match r {
                Ok(v) => spec_prefix_error(*inflectable, *exact, level) is None && v.deep_view()
                    == spec_prefix(*inflectable, *exact),
                Err(d) => spec_prefix_error(*inflectable, *exact, level) == Some(d@),
            },
    {
        match (inflectable, exact) {
            (Some(prefix), None) => {
                if let Some(c) = name_contains_uninflectables(prefix.value.as_str()) {
                    Err(
                        Diagnostic {
                            message: Self::inflected_prefix_message(prefix.value.as_str(), c),
                            span: prefix.key_span,
                            conflict: None,
                        },
                    )
                } else if level == PrefixLevel::Root && !name_ends_with_delimiter(
                    prefix.value.as_str(),
                ) {
                    Err(
                        Diagnostic {
                            message: Self::prefix_should_end_with_delimiter_message(
                                prefix.value.as_str(),
                            ),
                            span: prefix.key_span,
                            conflict: None,
                        },
                    )
                } else {
                    Ok(
                        Some(
                            (Prefix::Inflectable { prefix: prefix.value.clone() }, prefix.key_span),
                        ),
                    )
                }
            },
            (None, Some(p)) => Ok(Some((Prefix::Exact(p.value.clone()), p.key_span))),
            (None, None) => Ok(None),
            (Some(inflectable), Some(_)) => Err(
                cannot_combine_error(
                    AttrName::Prefix,
                    AttrName::ExactPrefix,
                    inflectable.key_span,
                ),
            ),
        }
    }
}

/// The mode that the declared flags select, as far as they agree.
pub open spec fn spec_root_mode_state(raw: RawRootAttributes) -> Result<
    Option<(MetricMode, AttrName)>,
    DiagnosticView,
> {
    let s0 = match raw.value {
        Some(v) => if v.string.present {
            spec_set_exclusive(MetricMode::ValueString, AttrName::Value, None, v.string)
        } else {
            Ok(Some((MetricMode::Value, AttrName::Value)))
        },
        None => Ok(None),
    };
    let s1 = spec_then_exclusive(s0, MetricMode::Subfield, AttrName::Subfield, raw.subfield);
    spec_then_exclusive(s1, MetricMode::SubfieldOwned, AttrName::SubfieldOwned, raw.subfield_owned)
}

/// The mode of a schema: the one that its flags select, a root entry when
/// none does.
pub open spec fn spec_root_mode(raw: RawRootAttributes) -> MetricMode {
    match spec_root_mode_state(raw) {
        Ok(Some((mode, _))) => mode,
        _ => MetricMode::RootEntry,
    }
}

/// The first finding on the attributes of a schema, if there is one.
pub open spec fn spec_root_error(raw: RawRootAttributes) -> Option<DiagnosticView> {
    match spec_root_mode_state(raw) {
        Err(e) => Some(e),
        Ok(_) => if raw.sample_group.present && spec_root_mode(raw) != MetricMode::Value {
            Some(
                spec_error(
                    "`sample_group` as a top-level attribute can only be used with #[metrics(value)]"@,
                    raw.sample_group.span,
                ),
            )
        } else if spec_root_mode(raw) == MetricMode::ValueString && raw.emf_dimensions is Some {
            Some(
                spec_error(
                    "value does not make sense with dimension-sets"@,
                    raw.emf_dimensions.unwrap().span,
                ),
            )
        } else {
            spec_prefix_error(raw.prefix, raw.exact_prefix, PrefixLevel::Root)
        },
    }
}

/// The validated attributes of a schema on which there is no finding.
pub open spec fn spec_root_attrs(raw: RawRootAttributes) -> RootAttributesView {
    RootAttributesView {
        prefix: match spec_prefix(raw.prefix, raw.exact_prefix) {
            Some((p, _)) => Some(p),
            None => None,
        },
        rename_all: raw.rename_all,
        emf_dimensions: raw.emf_dimensions,
        sample_group: raw.sample_group.present,
        mode: spec_root_mode(raw),
    }
}

impl ValueAttributes {
    /// The bare `value` attribute.
    pub fn from_word() -> (r: ValueAttributes)
        ensures
            r.string == (Flag { present: false, span: Span { id: 0 } }),
    {
        ValueAttributes { string: Flag { present: false, span: Span { id: 0 } } }
    }
}

impl RawRootAttributes {
    /// Validates the attributes of a schema: the first finding, or the
    /// attributes as they stand.
    pub fn validate(self) -> (r: Result<RootAttributes, Diagnostic>)
        ensures
            match r {
                Ok(attrs) => spec_root_error(self) is None && attrs@ == spec_root_attrs(self),
                Err(d) => spec_root_error(self) == Some(d@),
            },
    {
        let mut out: Option<(MetricMode, AttrName)> = None;
        if let Some(value_attrs) = self.value {
            if value_attrs.string.is_present() {
                match set_exclusive(
                    MetricMode::ValueString,
                    AttrName::Value,
                    out,
                    &value_attrs.string,
                ) {
                    Ok(o) => {
                        out = o;
                    },
                    Err(e) => {
                        return Err(e);
                    },
                }
            } else {
                out = Some((MetricMode::Value, AttrName::Value));
            }
        }
        match set_exclusive(MetricMode::Subfield, AttrName::Subfield, out, &self.subfield) {
            Ok(o) => {
                out = o;
            },
            Err(e) => {
                return Err(e);
            },
        }
        match set_exclusive(
            MetricMode::SubfieldOwned,
            AttrName::SubfieldOwned,
            out,
            &self.subfield_owned,
        ) {
            Ok(o) => {
                out = o;
            },
            Err(e) => {
                return Err(e);
            },
        }
        let mode = match out {
            Some((s, _)) => s,
            None => MetricMode::RootEntry,
        };
        let sample_group = if self.sample_group.is_present() {
            if mode == MetricMode::Value {
                true
            } else {
                return Err(
                    Diagnostic::new(
                        "`sample_group` as a top-level attribute can only be used with #[metrics(value)]",
                        self.sample_group.span(),
                    ),
                );
            }
        } else {
            false
        };
        if mode == MetricMode::ValueString {
            if let Some(ds) = &self.emf_dimensions {
                return Err(
                    Diagnostic::new("value does not make sense with dimension-sets", ds.span),
                );
            }
        }
        let prefix = match Prefix::from_inflectable_and_exact(
            &self.prefix,
            &self.exact_prefix,
            PrefixLevel::Root,
        ) {
            Ok(p) => match p {
                Some((p, _)) => Some(p),
                None => None,
            },
            Err(e) => {
                return Err(e);
            },
        };
        Ok(
            RootAttributes {
                prefix,
                rename_all: self.rename_all,
                emf_dimensions: self.emf_dimensions,
                sample_group,
                mode,
            },
        )
    }
}

impl Default for RawRootAttributes {
    /// The attributes of a schema that declares none.
    fn default() -> (r: RawRootAttributes)
        ensures
            r.prefix is None,
            r.exact_prefix is None,
            r.rename_all == NameStyle::Preserve,
            r.emf_dimensions is None,
            !r.subfield.present,
            !r.subfield_owned.present,
            !r.sample_group.present,
            r.value is None,
            spec_root_error(r) is None,
            spec_root_attrs(r) == spec_default_root(),
    {
        RawRootAttributes {
            prefix: None,
            exact_prefix: None,
            rename_all: NameStyle::Preserve,
            emf_dimensions: None,
            subfield: Flag::absent(),
            subfield_owned: Flag::absent(),
            sample_group: Flag::absent(),
            value: None,
        }
    }
}

} // verus!
