//! What the front-end hands over: locations, syntax handles, attribute
//! flags, and the diagnostics that go back to it.

use vstd::prelude::*;
use vstd::string::*;

verus! {

/// A location in the declaration, by the number under which the front-end
/// keeps it.
#[derive(Clone, Copy, Debug, PartialEq, Eq, Hash, Structural)]
pub struct Span {
    pub id: usize,
}

/// A fragment of syntax that is carried through unread (a type, a path, a
/// visibility, generics, the tokens of an attribute), by the number under
/// which the front-end keeps it.
#[derive(Clone, Copy, Debug, PartialEq, Eq, Hash, Structural)]
pub struct Syntax {
    pub id: usize,
}

impl DeepView for Span {
    type V = Span;

    open spec fn deep_view(&self) -> Span {
        *self
    }
}

impl DeepView for Syntax {
    type V = Syntax;

    open spec fn deep_view(&self) -> Syntax {
        *self
    }
}

/// An identifier with its place.
#[derive(Debug, PartialEq, Eq)]
pub struct Ident {
    pub name: String,
    pub span: Span,
}

/// [`Ident`] as it is specified: text as a sequence of characters, lists as
/// sequences.
pub ghost struct IdentView {
    pub name: Seq<char>,
    pub span: Span,
}

impl DeepView for Ident {
    type V = IdentView;

    open spec fn deep_view(&self) -> IdentView {
        IdentView { name: self.name@, span: self.span }
    }
}

impl View for Ident {
    type V = IdentView;

    open spec fn view(&self) -> IdentView {
        self.deep_view()
    }
}

impl Clone for Ident {
    fn clone(&self) -> (r: Ident)
        ensures
            r@ == self@,
    {
        Ident { name: self.name.clone(), span: self.span }
    }
}

/// An attribute that is either present at some location or absent.
#[derive(Clone, Copy, Debug, PartialEq, Eq, Structural)]
pub struct Flag {
    pub present: bool,
    pub span: Span,
}

impl Flag {
    /// Whether the flag is set.
    pub open spec fn spec_is_present(&self) -> bool {
        self.present
    }

    /// Whether the flag is set.
    #[verifier::when_used_as_spec(spec_is_present)]
    pub fn is_present(&self) -> (r: bool)
        ensures
            r == self.present,
    {
        self.present
    }

    /// Where the flag is set.
    pub open spec fn spec_span(&self) -> Span {
        self.span
    }

    /// Where the flag is set.
    #[verifier::when_used_as_spec(spec_span)]
    pub fn span(&self) -> (r: Span)
        ensures
            r == self.span,
    {
        self.span
    }
}

/// A `key = value` attribute with the locations of both sides.
#[derive(Clone, Debug, PartialEq, Eq)]
pub struct SpannedKv<T> {
    pub key_span: Span,
    pub value_span: Span,
    pub value: T,
}

impl<T: DeepView> DeepView for SpannedKv<T> {
    type V = SpannedKv<T::V>;

    open spec fn deep_view(&self) -> SpannedKv<T::V> {
        SpannedKv {
            key_span: self.key_span,
            value_span: self.value_span,
            value: self.value.deep_view(),
        }
    }
}

/// The attributes that exclude or restrict one another.
#[derive(Clone, Copy, Debug, PartialEq, Eq, Structural)]
pub enum AttrName {
    Flatten,
    FlattenEntry,
    Timestamp,
    Ignore,
    NoClose,
    Name,
    Unit,
    Format,
    SampleGroup,
    Prefix,
    ExactPrefix,
    Value,
    Subfield,
    SubfieldOwned,
}

impl AttrName {
    /// The attribute as it is written in a declaration.
    pub open spec fn spec_text(self) -> Seq<char> {
        match self {
            AttrName::Flatten => "flatten"@,
            AttrName::FlattenEntry => "flatten_entry"@,
            AttrName::Timestamp => "timestamp"@,
            AttrName::Ignore => "ignore"@,
            AttrName::NoClose => "no_close"@,
            AttrName::Name => "name"@,
            AttrName::Unit => "unit"@,
            AttrName::Format => "format"@,
            AttrName::SampleGroup => "sample_group"@,
            AttrName::Prefix => "prefix"@,
            AttrName::ExactPrefix => "exact_prefix"@,
            AttrName::Value => "value"@,
            AttrName::Subfield => "subfield"@,
            AttrName::SubfieldOwned => "subfield_owned"@,
        }
    }

    /// The attribute as it is written in a declaration.
    pub fn text(self) -> (r: &'static str)
        ensures
            r@ == self.spec_text(),
    {
        match self {
            AttrName::Flatten => "flatten",
            AttrName::FlattenEntry => "flatten_entry",
            AttrName::Timestamp => "timestamp",
            AttrName::Ignore => "ignore",
            AttrName::NoClose => "no_close",
            AttrName::Name => "name",
            AttrName::Unit => "unit",
            AttrName::Format => "format",
            AttrName::SampleGroup => "sample_group",
            AttrName::Prefix => "prefix",
            AttrName::ExactPrefix => "exact_prefix",
            AttrName::Value => "value",
            AttrName::Subfield => "subfield",
            AttrName::SubfieldOwned => "subfield_owned",
        }
    }
}

/// An attribute on a declaration: the path that names it and its tokens.
#[derive(Debug, PartialEq, Eq)]
pub struct Attribute {
    pub path: String,
    pub syntax: Syntax,
}

/// [`Attribute`] as it is specified: text as a sequence of characters, lists as
/// sequences.
pub ghost struct AttributeView {
    pub path: Seq<char>,
    pub syntax: Syntax,
}

impl DeepView for Attribute {
    type V = AttributeView;

    open spec fn deep_view(&self) -> AttributeView {
        AttributeView { path: self.path@, syntax: self.syntax }
    }
}

impl View for Attribute {
    type V = AttributeView;

    open spec fn view(&self) -> AttributeView {
        self.deep_view()
    }
}

impl Clone for Attribute {
    fn clone(&self) -> (r: Attribute)
        ensures
            r@ == self@,
    {
        Attribute { path: self.path.clone(), syntax: self.syntax }
    }
}

/// One finding of validation: what is wrong, where, and, when two
/// attributes exclude each other, which two.
#[derive(Debug, PartialEq, Eq)]
pub struct Diagnostic {
    pub message: String,
    pub span: Span,
    pub conflict: Option<(AttrName, AttrName)>,
}

/// [`Diagnostic`] as it is specified: text as a sequence of characters, lists as
/// sequences.
pub ghost struct DiagnosticView {
    pub message: Seq<char>,
    pub span: Span,
    pub conflict: Option<(AttrName, AttrName)>,
}

impl DeepView for Diagnostic {
    type V = DiagnosticView;

    open spec fn deep_view(&self) -> DiagnosticView {
        DiagnosticView { message: self.message@, span: self.span, conflict: self.conflict }
    }
}

impl View for Diagnostic {
    type V = DiagnosticView;

    open spec fn view(&self) -> DiagnosticView {
        self.deep_view()
    }
}

/// A finding with the given text at the given place.
pub open spec fn spec_error(message: Seq<char>, span: Span) -> DiagnosticView {
    DiagnosticView { message, span, conflict: None }
}

impl Diagnostic {
    pub fn new(message: &str, span: Span) -> (r: Diagnostic)
        ensures
            r@ == spec_error(message@, span),
    {
        Diagnostic { message: String::from_str(message), span, conflict: None }
    }

}

impl Clone for Diagnostic {
    fn clone(&self) -> (r: Diagnostic)
        ensures
            r@ == self@,
    {
        Diagnostic { message: self.message.clone(), span: self.span, conflict: self.conflict }
    }
}

/// The text that says two attributes cannot stand together.
pub open spec fn spec_cannot_combine_message(existing: AttrName, new: AttrName) -> Seq<char> {
    "cannot combine `"@ + existing.spec_text() + "` with `"@ + new.spec_text() + "`"@
}

/// The finding that `new`, written at `new_span`, cannot stand beside
/// `existing`.
pub open spec fn spec_cannot_combine(
    existing: AttrName,
    new: AttrName,
    new_span: Span,
) -> DiagnosticView {
    DiagnosticView {
        message: spec_cannot_combine_message(existing, new),
        span: new_span,
        conflict: Some((existing, new)),
    }
}

/// The finding that `new`, written at `new_span`, cannot stand beside
/// `existing`.
pub fn cannot_combine_error(existing: AttrName, new: AttrName, new_span: Span) -> (r: Diagnostic)
    ensures
        r@ == spec_cannot_combine(existing, new, new_span),
{
    let mut message = String::from_str("cannot combine `");
    message.append(existing.text());
    message.append("` with `");
    message.append(new.text());
    message.append("`");
    Diagnostic { message, span: new_span, conflict: Some((existing, new)) }
}

impl Span {
    pub fn new(id: usize) -> (r: Span)
        ensures
            r.id == id,
    {
        Span { id }
    }
}

impl Syntax {
    pub fn new(id: usize) -> (r: Syntax)
        ensures
            r.id == id,
    {
        Syntax { id }
    }
}

impl Flag {
    /// The flag that is not set.
    pub fn absent() -> (r: Flag)
        ensures
            !r.present,
            r.span == (Span { id: 0 }),
    {
        Flag { present: false, span: Span { id: 0 } }
    }

    /// The flag set at `span`.
    pub fn present(span: Span) -> (r: Flag)
        ensures
            r.present,
            r.span == span,
    {
        Flag { present: true, span }
    }
}

impl<T> SpannedKv<T> {
    pub fn new(value: T, key_span: Span, value_span: Span) -> (r: SpannedKv<T>)
        ensures
            r.value == value,
            r.key_span == key_span,
            r.value_span == value_span,
    {
        SpannedKv { key_span, value_span, value }
    }
}

impl Ident {
    pub fn new(name: &str, span: Span) -> (r: Ident)
        ensures
            r@ == (IdentView { name: name@, span }),
    {
        Ident { name: String::from_str(name), span }
    }
}

impl Attribute {
    pub fn new(path: &str, syntax: Syntax) -> (r: Attribute)
        ensures
            r@ == (AttributeView { path: path@, syntax }),
    {
        Attribute { path: String::from_str(path), syntax }
    }
}

} // verus!
