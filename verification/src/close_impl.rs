//! The transform that closes a schema into its entry.

use vstd::prelude::*;
use vstd::string::*;
use crate::attrs::ConfigurationInit;
use crate::attrs::OwnershipKind;
use crate::attrs::RootAttributes;
use crate::attrs::RootAttributesView;
use crate::attrs::spec_ownership_kind;
use crate::source::Ident;
use crate::source::IdentView;
use crate::source::Syntax;
use crate::structs::CloseField;
use crate::structs::CloseFieldView;

verus! {

/// How the entry of a record is built: the configuration fields first, then
/// one field for each field of the schema that is not ignored, in their order.
#[derive(Debug, PartialEq, Eq)]
pub struct RecordClose {
    pub entry: String,
    pub config: Vec<ConfigurationInit>,
    pub fields: Vec<CloseField>,
}

/// [`RecordClose`] as it is specified: text as a sequence of characters, lists as
/// sequences.
pub ghost struct RecordCloseView {
    pub entry: Seq<char>,
    pub config: Seq<ConfigurationInit>,
    pub fields: Seq<CloseFieldView>,
}

impl DeepView for RecordClose {
    type V = RecordCloseView;

    open spec fn deep_view(&self) -> RecordCloseView {
        RecordCloseView {
            entry: self.entry@,
            config: self.config@,
            fields: self.fields.deep_view(),
        }
    }
}

impl View for RecordClose {
    type V = RecordCloseView;

    open spec fn view(&self) -> RecordCloseView {
        self.deep_view()
    }
}

/// What a case of a union holds when it is closed.
#[derive(Debug, PartialEq, Eq)]
pub enum CloseArmData {
    /// Nothing.
    Unit,
    /// One field, reached by its place, unless it is ignored.
    Tuple(Option<CloseField>),
    /// Named fields.
    Struct(Vec<CloseField>),
}

/// [`CloseArmData`] as it is specified: text as a sequence of characters, lists as
/// sequences.
pub ghost enum CloseArmDataView {
    Unit,
    Tuple(Option<CloseFieldView>),
    Struct(Seq<CloseFieldView>),
}

impl DeepView for CloseArmData {
    type V = CloseArmDataView;

    open spec fn deep_view(&self) -> CloseArmDataView {
        match self {
            CloseArmData::Unit => CloseArmDataView::Unit,
            CloseArmData::Tuple(f) => CloseArmDataView::Tuple(f.deep_view()),
            CloseArmData::Struct(fields) => CloseArmDataView::Struct(fields.deep_view()),
        }
    }
}

impl View for CloseArmData {
    type V = CloseArmDataView;

    open spec fn view(&self) -> CloseArmDataView {
        self.deep_view()
    }
}

/// How one case of a union is closed into the same case of the entry.
#[derive(Debug, PartialEq, Eq)]
pub struct CloseArm {
    pub variant: Ident,
    pub data: CloseArmData,
}

/// [`CloseArm`] as it is specified: text as a sequence of characters, lists as
/// sequences.
pub ghost struct CloseArmView {
    pub variant: IdentView,
    pub data: CloseArmDataView,
}

impl DeepView for CloseArm {
    type V = CloseArmView;

    open spec fn deep_view(&self) -> CloseArmView {
        CloseArmView {
            variant: self.variant@,
            data: self.data@,
        }
    }
}

impl View for CloseArm {
    type V = CloseArmView;

    open spec fn view(&self) -> CloseArmView {
        self.deep_view()
    }
}

/// How the entry of a schema is built from the schema.
#[derive(Debug, PartialEq, Eq)]
pub enum CloseBody {
    Record(RecordClose),
    /// One arm for each case, in the order of the cases.
    Union(Vec<CloseArm>),
}

/// [`CloseBody`] as it is specified: text as a sequence of characters, lists as
/// sequences.
pub ghost enum CloseBodyView {
    Record(RecordCloseView),
    Union(Seq<CloseArmView>),
}

impl DeepView for CloseBody {
    type V = CloseBodyView;

    open spec fn deep_view(&self) -> CloseBodyView {
        match self {
            CloseBody::Record(r) => CloseBodyView::Record(r@),
            CloseBody::Union(arms) => CloseBodyView::Union(arms.deep_view()),
        }
    }
}

impl View for CloseBody {
    type V = CloseBodyView;

    open spec fn view(&self) -> CloseBodyView {
        self.deep_view()
    }
}

/// The closing of a schema: by value, or by reference together with a
/// by-value form that hands on to it.
#[derive(Debug, PartialEq, Eq)]
pub struct CloseValueImpls {
    /// How the schema is accessed while it is closed.
    pub ownership: OwnershipKind,
    pub base_ty: String,
    pub closed_ty: String,
    pub body: CloseBody,
    /// Whether a by-value form is generated that hands on to the by-reference
    /// form.
    pub by_value_proxy: bool,
}

/// [`CloseValueImpls`] as it is specified: text as a sequence of characters, lists as
/// sequences.
pub ghost struct CloseValueImplsView {
    pub ownership: OwnershipKind,
    pub base_ty: Seq<char>,
    pub closed_ty: Seq<char>,
    pub body: CloseBodyView,
    pub by_value_proxy: bool,
}

impl DeepView for CloseValueImpls {
    type V = CloseValueImplsView;

    open spec fn deep_view(&self) -> CloseValueImplsView {
        CloseValueImplsView {
            ownership: self.ownership,
            base_ty: self.base_ty@,
            closed_ty: self.closed_ty@,
            body: self.body@,
            by_value_proxy: self.by_value_proxy,
        }
    }
}

impl View for CloseValueImpls {
    type V = CloseValueImplsView;

    open spec fn view(&self) -> CloseValueImplsView {
        self.deep_view()
    }
}

/// The guard and the handle of a root entry, which close the schema and
/// append its entry to a sink when dropped.
#[derive(Debug, PartialEq, Eq)]
pub struct OnDropWrapper {
    pub vis: Syntax,
    pub guard: String,
    pub inner: String,
    pub target: String,
    pub handle: String,
}

/// [`OnDropWrapper`] as it is specified: text as a sequence of characters, lists as
/// sequences.
pub ghost struct OnDropWrapperView {
    pub vis: Syntax,
    pub guard: Seq<char>,
    pub inner: Seq<char>,
    pub target: Seq<char>,
    pub handle: Seq<char>,
}

impl DeepView for OnDropWrapper {
    type V = OnDropWrapperView;

    open spec fn deep_view(&self) -> OnDropWrapperView {
        OnDropWrapperView {
            vis: self.vis,
            guard: self.guard@,
            inner: self.inner@,
            target: self.target@,
            handle: self.handle@,
        }
    }
}

impl View for OnDropWrapper {
    type V = OnDropWrapperView;

    open spec fn view(&self) -> OnDropWrapperView {
        self.deep_view()
    }
}


/// The guard and the handle of the root entry `inner`, whose entry is
/// `target`.
pub fn generate_on_drop_wrapper(
    vis: Syntax,
    guard: &str,
    inner: &str,
    target: &str,
    handle: &str,
) -> (r: OnDropWrapper)
    ensures
        r@ == (OnDropWrapperView {
            vis,
            guard: guard@,
            inner: inner@,
            target: target@,
            handle: handle@,
        }),
{
    OnDropWrapper {
        vis,
        guard: String::from_str(guard),
        inner: String::from_str(inner),
        target: String::from_str(target),
        handle: String::from_str(handle),
    }
}

/// The closing of a schema with the given body. A schema that is closed by
/// reference is given a by-value form as well, so that both are at hand.
pub open spec fn spec_close_value_impls(
    root: RootAttributesView,
    base_ty: Seq<char>,
    closed_ty: Seq<char>,
    body: CloseBodyView,
) -> CloseValueImplsView {
    CloseValueImplsView {
        ownership: spec_ownership_kind(root.mode),
        base_ty,
        closed_ty,
        body,
        by_value_proxy: spec_ownership_kind(root.mode) == OwnershipKind::ByRef,
    }
}

/// The closing of the schema `base_ty` into `closed_ty` with the given
/// body.
pub fn generate_close_value_impls(
    root_attrs: &RootAttributes,
    base_ty: &str,
    closed_ty: &str,
    impl_body: CloseBody,
) -> (r: CloseValueImpls)
    ensures
        r@ == spec_close_value_impls(root_attrs@, base_ty@, closed_ty@, impl_body@),
{
    let (ownership, by_value_proxy) = match root_attrs.ownership_kind() {
        OwnershipKind::ByValue => (OwnershipKind::ByValue, false),
        OwnershipKind::ByRef => (OwnershipKind::ByRef, true),
    };
    CloseValueImpls {
        ownership,
        base_ty: String::from_str(base_ty),
        closed_ty: String::from_str(closed_ty),
        body: impl_body,
        by_value_proxy,
    }
}

} // verus!
