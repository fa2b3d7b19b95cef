//! Case styles and the inflection of metric names.

use vstd::prelude::*;
use vstd::string::*;
use crate::attrs::Prefix;
use crate::attrs::PrefixView;
use crate::attrs::RootAttributes;
use crate::text::contains_char;
use crate::text::is_ascii_alphanumeric;
use crate::text::last_char;
use crate::text::spec_is_ascii_alphanumeric;
use inflector::Inflector;

verus! {

/// Whether a character can stand in an inflectable name: a letter of the
/// basic Latin alphabet, a decimal digit, or one of the two delimiters.
pub open spec fn is_inflectable_char(c: char) -> bool {
    spec_is_ascii_alphanumeric(c) || c == '_' || c == '-'
}

/// The first character of `name` that is not inflectable, if there is one.
pub open spec fn spec_first_uninflectable(name: Seq<char>) -> Option<char>
    decreases name.len(),
{
    if name.len() == 0 {
        None
    } else if !is_inflectable_char(name[0]) {
        Some(name[0])
    } else {
        spec_first_uninflectable(name.drop_first())
    }
}

/// Whether `name` ends with `_` or `-`.
pub open spec fn spec_ends_with_delimiter(name: Seq<char>) -> bool {
    name.len() > 0 && (name.last() == '_' || name.last() == '-')
}

/// Inflectable characters at the front do not matter to the search for the
/// first character that is not.
pub proof fn lemma_first_uninflectable_skip(name: Seq<char>, i: int)
    requires
        0 <= i <= name.len(),
        forall|j: int| 0 <= j < i ==> is_inflectable_char(name[j]),
    ensures
        spec_first_uninflectable(name) == spec_first_uninflectable(name.skip(i)),
    decreases i,
{
    if i > 0 {
        lemma_first_uninflectable_skip(name.drop_first(), i - 1);
        assert(name.drop_first().skip(i - 1) =~= name.skip(i));
    } else {
        assert(name.skip(0) =~= name);
    }
}

/// The first character of `name` that cannot stand in an inflectable name.
pub fn name_contains_uninflectables(name: &str) -> (r: Option<char>)
    ensures
        r == spec_first_uninflectable(name@),
{
    let n = name.unicode_len();
    let mut i: usize = 0;
    while i < n
        invariant
            n == name@.len(),
            i <= n,
            forall|j: int| 0 <= j < i ==> is_inflectable_char(name@[j]),
        decreases n - i,
    {
        let c = name.get_char(i);
        if !is_ascii_alphanumeric(c) && c != '_' && c != '-' {
            proof {
                lemma_first_uninflectable_skip(name@, i as int);
            }
            return Some(c);
        }
        i += 1;
    }
    proof {
        lemma_first_uninflectable_skip(name@, n as int);
    }
    None
}

/// Whether `name` ends with `_` or `-`.
pub fn name_ends_with_delimiter(name: &str) -> (r: bool)
    ensures
        r == spec_ends_with_delimiter(name@),
{
    let last = last_char(name);
    match last {
        Some(c) => c == '_' || c == '-',
        None => false,
    }
}

/// Whether `name` holds a dot.
pub fn name_contains_dot(name: &str) -> (r: bool)
    ensures
        r == name@.contains('.'),
{
    contains_char(name, '.')
}

/// The case style that metric names are written in.
#[derive(Debug, Clone, Copy, PartialEq, Eq, Structural)]
pub enum NameStyle {
    PascalCase,
    SnakeCase,
    KebabCase,
    Preserve,
}

impl Default for NameStyle {
    fn default() -> (r: NameStyle)
        ensures
            r == NameStyle::Preserve,
    {
        NameStyle::Preserve
    }
}

/// `name` in Pascal case, as the inflection crate converts it.
pub uninterp spec fn pascal_case(name: Seq<char>) -> Seq<char>;

/// `name` in snake case, as the inflection crate converts it.
pub uninterp spec fn snake_case(name: Seq<char>) -> Seq<char>;

/// `name` in kebab case, as the inflection crate converts it.
pub uninterp spec fn kebab_case(name: Seq<char>) -> Seq<char>;

/// Calls `Inflector::to_pascal_case` on a `str`. Nothing is proved of it: the
/// conversion is taken to be a function of the characters of its argument
/// alone, as its source reads nothing else.
#[verifier::external_body]
fn to_pascal_case(name: &str) -> (r: String)
    ensures
        r@ == pascal_case(name@),
{
    name.to_pascal_case()
}

/// Calls `Inflector::to_snake_case` on a `str`. Nothing is proved of it: the
/// conversion is taken to be a function of the characters of its argument
/// alone, as its source reads nothing else.
#[verifier::external_body]
fn to_snake_case(name: &str) -> (r: String)
    ensures
        r@ == snake_case(name@),
{
    name.to_snake_case()
}

/// Calls `Inflector::to_kebab_case` on a `str`. Nothing is proved of it: the
/// conversion is taken to be a function of the characters of its argument
/// alone, as its source reads nothing else.
#[verifier::external_body]
fn to_kebab_case(name: &str) -> (r: String)
    ensures
        r@ == kebab_case(name@),
{
    name.to_kebab_case()
}

/// `name` written in `style`.
pub open spec fn spec_apply(style: NameStyle, name: Seq<char>) -> Seq<char> {
    match style {
        NameStyle::PascalCase => pascal_case(name),
        NameStyle::SnakeCase => snake_case(name),
        NameStyle::Preserve => name,
        NameStyle::KebabCase => kebab_case(name),
    }
}

/// `text`, with `delimiter` appended unless it already ends with it.
pub open spec fn spec_with_trailing(text: Seq<char>, delimiter: char) -> Seq<char> {
    if text.len() > 0 && text.last() == delimiter {
        text
    } else {
        text.push(delimiter)
    }
}

/// The delimiter that separates words in `style`, where it has one.
pub open spec fn spec_delimiter(style: NameStyle) -> Option<char> {
    match style {
        NameStyle::SnakeCase => Some('_'),
        NameStyle::KebabCase => Some('-'),
        NameStyle::PascalCase => None,
        NameStyle::Preserve => None,
    }
}

/// `name` written in `style` as a prefix: it ends with the style's
/// delimiter, so that any name can follow it.
pub open spec fn spec_apply_prefix(style: NameStyle, name: Seq<char>) -> Seq<char> {
    match spec_delimiter(style) {
        Some(d) => spec_with_trailing(spec_apply(style, name), d),
        None => spec_apply(style, name),
    }
}

/// A prefix in a style with a delimiter ends with that delimiter; in a style
/// without one it is the name in that style.
pub proof fn lemma_apply_prefix_ends_with_delimiter(style: NameStyle, name: Seq<char>)
    ensures
        style == NameStyle::SnakeCase ==> spec_apply_prefix(style, name).len() > 0
            && spec_apply_prefix(style, name).last() == '_',
        style == NameStyle::KebabCase ==> spec_apply_prefix(style, name).len() > 0
            && spec_apply_prefix(style, name).last() == '-',
        style == NameStyle::PascalCase || style == NameStyle::Preserve ==> spec_apply_prefix(
            style,
            name,
        ) == spec_apply(style, name),
        spec_delimiter(style) is Some ==> spec_ends_with_delimiter(spec_apply_prefix(style, name)),
{
}

/// Appends `delimiter` to `text` unless `text` already ends with it.
pub fn ensure_trailing(text: String, delimiter: char) -> (r: String)
    ensures
        r@ == spec_with_trailing(text@, delimiter),
{
    let mut res = text;
    let ends = match last_char(res.as_str()) {
        Some(c) => c == delimiter,
        None => false,
    };
    if !ends {
        res.push(delimiter);
    }
    res
}

impl NameStyle {
    /// Writes `name` in this style.
    pub fn apply(self, name: &str) -> (r: String)
        ensures
            r@ == spec_apply(self, name@),
    {
        match self {
            NameStyle::PascalCase => to_pascal_case(name),
            NameStyle::SnakeCase => to_snake_case(name),
            NameStyle::Preserve => String::from_str(name),
            NameStyle::KebabCase => to_kebab_case(name),
        }
    }

    /// Writes `name` in this style as a prefix: the result ends with the
    /// delimiter of the style, if it has one, so that any name can follow it.
    pub fn apply_prefix(self, name: &str) -> (r: String)
        ensures
            r@ == spec_apply_prefix(self, name@),
            self == NameStyle::SnakeCase ==> r@.len() > 0 && r@.last() == '_',
            self == NameStyle::KebabCase ==> r@.len() > 0 && r@.last() == '-',
            self == NameStyle::PascalCase || self == NameStyle::Preserve ==> r@ == spec_apply(
                self,
                name@,
            ),
    {
        match self {
            NameStyle::PascalCase => to_pascal_case(name),
            NameStyle::SnakeCase => ensure_trailing(to_snake_case(name), '_'),
            NameStyle::Preserve => String::from_str(name),
            NameStyle::KebabCase => ensure_trailing(to_kebab_case(name), '-'),
        }
    }

    /// The word by which the style is known in generated names.
    pub open spec fn spec_word(self) -> Seq<char> {
        match self {
            NameStyle::PascalCase => "Pascal"@,
            NameStyle::SnakeCase => "Snake"@,
            NameStyle::Preserve => "Preserve"@,
            NameStyle::KebabCase => "Kebab"@,
        }
    }

    /// The word by which the style is known in generated names.
    pub fn to_word(self) -> (r: &'static str)
        ensures
            r@ == self.spec_word(),
    {
        match self {
            NameStyle::PascalCase => "Pascal",
            NameStyle::SnakeCase => "Snake",
            NameStyle::Preserve => "Preserve",
            NameStyle::KebabCase => "Kebab",
        }
    }
}

/// What has a metric name: a declared name, and possibly a name that
/// overrides it.
pub trait HasInflectableName {
    /// The overriding name, if one is declared.
    spec fn spec_name_override(&self) -> Option<Seq<char>>;

    /// Whether a declared name is at hand.
    spec fn spec_has_name(&self) -> bool;

    /// The declared name.
    spec fn spec_name(&self) -> Seq<char>;

    fn name_override(&self) -> (r: Option<&str>)
        ensures
            r.deep_view() == self.spec_name_override(),
    ;

    fn name(&self) -> (r: String)
        requires
            self.spec_has_name(),
        ensures
            r@ == self.spec_name(),
    ;
}

/// The metric name of a declaration in `style`: the override as it is
/// written, or else the declared name behind the root prefix. An exact prefix
/// stays as it is and the name is inflected; an inflectable prefix is
/// inflected together with the name.
pub open spec fn spec_metric_name(
    prefix: Option<PrefixView>,
    style: NameStyle,
    name_override: Option<Seq<char>>,
    name: Seq<char>,
) -> Seq<char> {
    match name_override {
        Some(n) => n,
        None => match prefix {
            Some(PrefixView::Exact(exact_prefix)) => exact_prefix + spec_apply(style, name),
            Some(PrefixView::Inflectable { prefix }) => spec_apply(style, prefix + name),
            None => spec_apply(style, name),
        },
    }
}

/// The metric name of `field` in `name_style`, within a schema with the
/// attributes `root_attrs`.
pub fn metric_name<F: HasInflectableName>(
    root_attrs: &RootAttributes,
    name_style: NameStyle,
    field: &F,
) -> (r: String)
    requires
        field.spec_name_override() is None ==> field.spec_has_name(),
    ensures
        r@ == spec_metric_name(
            root_attrs.prefix.deep_view(),
            name_style,
            field.spec_name_override(),
            field.spec_name(),
        ),
{
    if let Some(name_override) = field.name_override() {
        return String::from_str(name_override);
    }
    let base = field.name();
    match &root_attrs.prefix {
        Some(Prefix::Exact(exact_prefix)) => {
            let mut res = exact_prefix.clone();
            res.append(name_style.apply(base.as_str()).as_str());
            res
        },
        Some(Prefix::Inflectable { prefix }) => {
            let mut prefixed_base = prefix.clone();
            prefixed_base.append(base.as_str());
            name_style.apply(prefixed_base.as_str())
        },
        None => name_style.apply(base.as_str()),
    }
}

} // verus!
