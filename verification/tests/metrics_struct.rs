use metrique_schema::attrs::DimensionSets;
use metrique_schema::attrs::MetricMode;
use metrique_schema::attrs::OwnershipKind;
use metrique_schema::attrs::Prefix;
use metrique_schema::attrs::RawRootAttributes;
use metrique_schema::attrs::ValueAttributes;
use metrique_schema::chain::Chain;
use metrique_schema::close_impl::CloseArm;
use metrique_schema::close_impl::CloseArmData;
use metrique_schema::close_impl::CloseBody;
use metrique_schema::close_impl::CloseValueImpls;
use metrique_schema::close_impl::OnDropWrapper;
use metrique_schema::close_impl::RecordClose;
use metrique_schema::entry_impl::ConstStr;
use metrique_schema::entry_impl::EntryImpl;
use metrique_schema::entry_impl::InflectKind;
use metrique_schema::entry_impl::InflectName;
use metrique_schema::entry_impl::Namespace;
use metrique_schema::entry_impl::Ns;
use metrique_schema::entry_impl::NsBase;
use metrique_schema::entry_impl::PrefixArg;
use metrique_schema::entry_impl::SampleGroupStatement;
use metrique_schema::entry_impl::WriteStatement;
use metrique_schema::enums::CoreVariant;
use metrique_schema::enums::CoreVariantData;
use metrique_schema::enums::EntryVariant;
use metrique_schema::enums::EntryVariantData;
use metrique_schema::enums::RawMetricsVariantAttrs;
use metrique_schema::enums::UnionInnerImpl;
use metrique_schema::enums::UnionMetrics;
use metrique_schema::enums::VariantName;
use metrique_schema::field_attrs::RawMetricsFieldAttrs;
use metrique_schema::inflect::NameStyle;
use metrique_schema::input::Data;
use metrique_schema::input::DeriveInput;
use metrique_schema::input::Field;
use metrique_schema::input::Fields;
use metrique_schema::input::Variant;
use metrique_schema::metrics::metrics;
use metrique_schema::metrics::Metrics;
use metrique_schema::metrics::Outcome;
use metrique_schema::source::Flag;
use metrique_schema::source::Ident;
use metrique_schema::source::Span;
use metrique_schema::source::SpannedKv;
use metrique_schema::source::Syntax;
use metrique_schema::structs::CloseField;
use metrique_schema::structs::CoreField;
use metrique_schema::structs::EntryField;
use metrique_schema::structs::EntryStruct;
use metrique_schema::structs::EntryStructField;
use metrique_schema::structs::EntryType;
use metrique_schema::structs::InnerImpl;
use metrique_schema::structs::Member;
use metrique_schema::structs::RecordMetrics;
use metrique_schema::structs::StructBody;
use metrique_schema::structs::StructDecl;
use metrique_schema::value_impl::SampleGroupForward;
use metrique_schema::value_impl::ValueExpr;
use metrique_schema::value_impl::ValueImpl;

const STR: Syntax = Syntax { id: 1 };
const USIZE: Syntax = Syntax { id: 2 };
const U32: Syntax = Syntax { id: 3 };
const NESTED: Syntax = Syntax { id: 4 };
const NONE: Syntax = Syntax { id: 0 };

fn field(name: &str, at: usize, ty: Syntax, attrs: RawMetricsFieldAttrs) -> Field {
    Field::named(name, Span::new(at), ty, attrs)
}

fn plain() -> RawMetricsFieldAttrs {
    RawMetricsFieldAttrs::default()
}

fn ignore() -> RawMetricsFieldAttrs {
    RawMetricsFieldAttrs { ignore: Flag::present(Span::new(60)), ..RawMetricsFieldAttrs::default() }
}

fn value_mode() -> RawRootAttributes {
    RawRootAttributes { value: Some(ValueAttributes::from_word()), ..RawRootAttributes::default() }
}

fn record(root: RawRootAttributes, input: &DeriveInput) -> RecordMetrics {
    let out = metrics(Ok(root), input);
    assert_eq!(out.root_error, None);
    match out.outcome {
        Outcome::Generated(Metrics::Record(r)) => r,
        other => panic!("not generated: {:?}", other),
    }
}

fn union(root: RawRootAttributes, input: &DeriveInput) -> UnionMetrics {
    let out = metrics(Ok(root), input);
    assert_eq!(out.root_error, None);
    match out.outcome {
        Outcome::Generated(Metrics::Union(u)) => u,
        other => panic!("not generated: {:?}", other),
    }
}

fn request_metrics(fields: Vec<Field>) -> DeriveInput {
    DeriveInput::new("RequestMetrics", Span::new(1), Data::Struct(Fields::Named(fields)))
}

fn named(name: &str) -> Member {
    Member::Named(name.to_string())
}

fn constant(ident: &str, value: &str) -> ConstStr {
    ConstStr { ident: ident.to_string(), value: value.to_string() }
}

fn constants(stem: &str, preserve: &str, kebab: &str, pascal: &str, snake: &str) -> Vec<ConstStr> {
    vec![
        constant(&format!("{stem}Preserve"), preserve),
        constant(&format!("{stem}Kebab"), kebab),
        constant(&format!("{stem}Pascal"), pascal),
        constant(&format!("{stem}Snake"), snake),
    ]
}

fn inflect(stem: &str, base: NsBase, at: usize, kind: InflectKind) -> InflectName {
    InflectName {
        ns: Ns { base, span: Span::new(at) },
        inflect: kind,
        name_ident: format!("{stem}Preserve"),
        name_pascal: format!("{stem}Pascal"),
        name_snake: format!("{stem}Snake"),
        name_kebab: format!("{stem}Kebab"),
    }
}

fn value_statement(name: &str, at: usize, extra: Vec<ConstStr>) -> WriteStatement {
    WriteStatement::Value {
        span: Span::new(at),
        extra,
        name: inflect(name, NsBase::Inherit, at, InflectKind::Inflect),
        value: ValueExpr { field: named(name), format: None, span: Span::new(at) },
    }
}

fn declared(name: &str, ty: Syntax) -> CoreField {
    CoreField { external_attrs: vec![], vis: NONE, ident: Some(named(name)), ty }
}

fn entry(name: &str, at: usize, ty: Syntax) -> EntryStructField {
    EntryStructField::Field(EntryField {
        ident: Some(named(name)),
        ty: EntryType { declared: ty, closed: true, unit: None },
        span: Span::new(at),
    })
}

fn close(name: &str, at: usize, ownership: OwnershipKind) -> CloseField {
    CloseField { ident: named(name), ownership, close: true, unit: None, span: Span::new(at) }
}

#[test]
fn test_darling_root_attrs() {
    let raw = RawRootAttributes {
        rename_all: NameStyle::PascalCase,
        emf_dimensions: Some(DimensionSets { syntax: Syntax::new(9), span: Span::new(70) }),
        ..RawRootAttributes::default()
    };
    let root = raw.validate().unwrap();
    assert_eq!(root.rename_all, NameStyle::PascalCase);
    assert_eq!(
        root.emf_dimensions,
        Some(DimensionSets { syntax: Syntax::new(9), span: Span::new(70) })
    );
    assert_eq!(root.prefix, None);
    assert_eq!(root.mode, MetricMode::RootEntry);
    assert!(!root.sample_group);
}

#[test]
fn test_simple_metrics_struct() {
    let input = request_metrics(vec![
        field("operation", 10, STR, plain()),
        field("number_of_ducks", 11, USIZE, plain()),
    ]);
    let generated = record(RawRootAttributes::default(), &input);

    let expected = RecordMetrics {
        base_struct: StructDecl {
            attrs: vec![],
            vis: NONE,
            name: "RequestMetrics".to_string(),
            generics: NONE,
            body: StructBody {
                named: true,
                fields: vec![declared("operation", STR), declared("number_of_ducks", USIZE)],
            },
        },
        warnings: vec![],
        entry_struct: EntryStruct {
            name: "RequestMetricsEntry".to_string(),
            body: StructBody {
                named: true,
                fields: vec![entry("operation", 10, STR), entry("number_of_ducks", 11, USIZE)],
            },
        },
        inner_impl: InnerImpl::Entry(EntryImpl {
            entry_name: "RequestMetricsEntry".to_string(),
            writes: vec![
                value_statement(
                    "operation",
                    10,
                    constants("operation", "operation", "operation", "Operation", "operation"),
                ),
                value_statement(
                    "number_of_ducks",
                    11,
                    constants(
                        "number_of_ducks",
                        "number_of_ducks",
                        "number-of-ducks",
                        "NumberOfDucks",
                        "number_of_ducks",
                    ),
                ),
            ],
            sample_groups: Chain::Empty,
        }),
        close_value_impl: CloseValueImpls {
            ownership: OwnershipKind::ByValue,
            base_ty: "RequestMetrics".to_string(),
            closed_ty: "RequestMetricsEntry".to_string(),
            body: CloseBody::Record(RecordClose {
                entry: "RequestMetricsEntry".to_string(),
                config: vec![],
                fields: vec![
                    close("operation", 10, OwnershipKind::ByValue),
                    close("number_of_ducks", 11, OwnershipKind::ByValue),
                ],
            }),
            by_value_proxy: false,
        },
        root_entry_specifics: Some(OnDropWrapper {
            vis: NONE,
            guard: "RequestMetricsGuard".to_string(),
            inner: "RequestMetrics".to_string(),
            target: "RequestMetricsEntry".to_string(),
            handle: "RequestMetricsHandle".to_string(),
        }),
    };
    assert_eq!(generated, expected, "simple_metrics_struct");
}

#[test]
fn test_sample_group_metrics_struct() {
    let input = request_metrics(vec![
        field(
            "operation",
            10,
            STR,
            RawMetricsFieldAttrs { sample_group: Flag::present(Span::new(61)), ..plain() },
        ),
        field("number_of_ducks", 11, USIZE, plain()),
    ]);
    let generated = record(RawRootAttributes::default(), &input);
    let entry_impl = match generated.inner_impl {
        InnerImpl::Entry(e) => e,
        other => panic!("not an entry: {:?}", other),
    };

    // The marked field is still written as a value.
    assert_eq!(entry_impl.writes.len(), 2, "sample_group_metrics_struct");
    // It is the one source of sample groups, as a tag under its name.
    assert_eq!(
        entry_impl.sample_groups,
        Chain::One(SampleGroupStatement::Tag {
            field: named("operation"),
            span: Span::new(61),
            extra: constants("operation", "operation", "operation", "Operation", "operation"),
            name: inflect("operation", NsBase::Inherit, 10, InflectKind::Inflect),
        })
    );
}

fn request_value(fields: Fields) -> DeriveInput {
    DeriveInput::new("RequestValue", Span::new(1), Data::Struct(fields))
}

#[test]
fn test_simple_metrics_value_struct() {
    let input = request_value(Fields::Named(vec![
        field("ignore", 10, U32, ignore()),
        field("value", 11, U32, plain()),
    ]));
    let generated = record(value_mode(), &input);

    assert_eq!(generated.entry_struct.name, "RequestValueValue", "simple_metrics_value_struct");
    // The entry has one field: the ignored one is left out.
    assert_eq!(generated.entry_struct.body.fields, vec![entry("value", 11, U32)]);
    assert_eq!(generated.base_struct.body.fields, vec![declared("ignore", U32), declared("value", U32)]);
    assert_eq!(
        generated.inner_impl,
        InnerImpl::Value(ValueImpl {
            value_name: "RequestValueValue".to_string(),
            body: Some(ValueExpr { field: named("value"), format: None, span: Span::new(11) }),
            sample_group: None,
        })
    );
    // A value is closed by reference, and by value through that.
    assert_eq!(generated.close_value_impl.ownership, OwnershipKind::ByRef);
    assert!(generated.close_value_impl.by_value_proxy);
    assert_eq!(
        generated.close_value_impl.body,
        CloseBody::Record(RecordClose {
            entry: "RequestValueValue".to_string(),
            config: vec![],
            fields: vec![close("value", 11, OwnershipKind::ByRef)],
        })
    );
    assert_eq!(generated.root_entry_specifics, None);
}

#[test]
fn test_sample_group_metrics_value_struct() {
    let input = request_value(Fields::Named(vec![
        field("ignore", 10, U32, ignore()),
        field("value", 11, STR, plain()),
    ]));
    let root = RawRootAttributes { sample_group: Flag::present(Span::new(62)), ..value_mode() };
    let generated = record(root, &input);

    assert_eq!(
        generated.inner_impl,
        InnerImpl::Value(ValueImpl {
            value_name: "RequestValueValue".to_string(),
            body: Some(ValueExpr { field: named("value"), format: None, span: Span::new(11) }),
            sample_group: Some(SampleGroupForward { field: named("value"), span: Span::new(11) }),
        }),
        "sample_group_metrics_value_struct"
    );
}

#[test]
fn test_simple_metrics_value_unnamed_struct() {
    let input = request_value(Fields::Unnamed(vec![
        Field::unnamed(U32, Span::new(10), ignore()),
        Field::unnamed(U32, Span::new(11), plain()),
    ]));
    let generated = record(value_mode(), &input);

    assert!(!generated.base_struct.body.named, "simple_metrics_value_unnamed_struct");
    assert_eq!(
        generated.base_struct.body.fields,
        vec![
            CoreField { external_attrs: vec![], vis: NONE, ident: None, ty: U32 },
            CoreField { external_attrs: vec![], vis: NONE, ident: None, ty: U32 },
        ]
    );
    assert_eq!(
        generated.entry_struct.body,
        StructBody {
            named: false,
            fields: vec![EntryStructField::Field(EntryField {
                ident: None,
                ty: EntryType { declared: U32, closed: true, unit: None },
                span: Span::new(11),
            })],
        }
    );
    // The value is the second field of the tuple.
    assert_eq!(
        generated.inner_impl,
        InnerImpl::Value(ValueImpl {
            value_name: "RequestValueValue".to_string(),
            body: Some(ValueExpr { field: Member::Unnamed(1), format: None, span: Span::new(11) }),
            sample_group: None,
        })
    );
    assert_eq!(
        generated.close_value_impl.body,
        CloseBody::Record(RecordClose {
            entry: "RequestValueValue".to_string(),
            config: vec![],
            fields: vec![CloseField {
                ident: Member::Unnamed(1),
                ownership: OwnershipKind::ByRef,
                close: true,
                unit: None,
                span: Span::new(11),
            }],
        })
    );
}

#[test]
fn test_simple_metrics_enum() {
    let input = DeriveInput::new(
        "Foo",
        Span::new(1),
        Data::Enum(vec![Variant::new(
            "Bar",
            Span::new(2),
            Fields::Unit,
            RawMetricsVariantAttrs::default(),
        )]),
    );
    let root = RawRootAttributes {
        value: Some(ValueAttributes { string: Flag::present(Span::new(63)) }),
        ..RawRootAttributes::default()
    };
    let generated = union(root, &input);
    let bar = || Ident::new("Bar", Span::new(2));

    assert_eq!(generated.base_enum.name, "Foo", "simple_metrics_enum");
    assert_eq!(
        generated.base_enum.variants,
        vec![CoreVariant {
            external_attrs: vec![],
            ident: "Bar".to_string(),
            data: CoreVariantData::Unit
        }]
    );
    assert_eq!(generated.value_enum.name, "FooValue");
    assert_eq!(
        generated.value_enum.variants,
        vec![EntryVariant { ident: bar(), data: EntryVariantData::Unit }]
    );
    match &generated.inner_impl {
        UnionInnerImpl::Value(v) => {
            assert_eq!(v.value_name, "FooValue");
            assert_eq!(v.from_and_sample_group.target, "FooValue");
            assert_eq!(
                v.from_and_sample_group.names,
                vec![VariantName { variant: bar(), metric_name: "Bar".to_string() }]
            );
        }
        other => panic!("not a value: {:?}", other),
    }
    assert_eq!(
        generated.close_value_impl,
        CloseValueImpls {
            ownership: OwnershipKind::ByRef,
            base_ty: "Foo".to_string(),
            closed_ty: "FooValue".to_string(),
            body: CloseBody::Union(vec![CloseArm { variant: bar(), data: CloseArmData::Unit }]),
            by_value_proxy: true,
        }
    );
    assert_eq!(generated.root_entry_specifics, None);
}

#[test]
fn test_exact_prefix_struct() {
    let input = request_metrics(vec![
        field("operation", 10, STR, plain()),
        field("number_of_ducks", 11, USIZE, plain()),
    ]);
    let root = RawRootAttributes {
        exact_prefix: Some(SpannedKv::new("API@".to_string(), Span::new(64), Span::new(65))),
        ..RawRootAttributes::default()
    };
    let generated = record(root, &input);
    let entry_impl = match generated.inner_impl {
        InnerImpl::Entry(e) => e,
        other => panic!("not an entry: {:?}", other),
    };

    // The prefix stands as it is written before the name in every style.
    assert_eq!(
        entry_impl.writes,
        vec![
            value_statement(
                "operation",
                10,
                constants(
                    "operation",
                    "API@operation",
                    "API@operation",
                    "API@Operation",
                    "API@operation"
                ),
            ),
            value_statement(
                "number_of_ducks",
                11,
                constants(
                    "number_of_ducks",
                    "API@number_of_ducks",
                    "API@number-of-ducks",
                    "API@NumberOfDucks",
                    "API@number_of_ducks",
                ),
            ),
        ],
        "exact_prefix_struct"
    );
}

#[test]
fn test_field_exact_prefix_struct() {
    let input = request_metrics(vec![
        field(
            "nested",
            10,
            NESTED,
            RawMetricsFieldAttrs {
                flatten: Flag::present(Span::new(66)),
                exact_prefix: Some(SpannedKv::new(
                    "API@".to_string(),
                    Span::new(67),
                    Span::new(68),
                )),
                ..plain()
            },
        ),
        field("operation", 11, STR, plain()),
    ]);
    let generated = record(RawRootAttributes::default(), &input);
    let entry_impl = match generated.inner_impl {
        InnerImpl::Entry(e) => e,
        other => panic!("not an entry: {:?}", other),
    };

    assert_eq!(
        entry_impl.writes,
        vec![
            WriteStatement::Flatten {
                field: named("nested"),
                span: Span::new(66),
                extra: vec![constant("nestedPreserve", "API@")],
                ns: Namespace {
                    base: Ns { base: NsBase::Inherit, span: Span::new(10) },
                    prefixes: vec![PrefixArg::Exact {
                        ident: "nestedPreserve".to_string(),
                        span: Span::new(10)
                    }],
                },
            },
            value_statement(
                "operation",
                11,
                constants("operation", "operation", "operation", "Operation", "operation"),
            ),
        ],
        "field_exact_prefix_struct"
    );
    // The flattened schema yields its sample groups under its own names.
    assert_eq!(
        entry_impl.sample_groups,
        Chain::One(SampleGroupStatement::Flatten {
            field: named("nested"),
            span: Span::new(66),
            ns: Ns { base: NsBase::Inherit, span: Span::new(10) },
        })
    );
}

#[test]
fn test_exact_prefix_is_kept_by_validation() {
    let root = RawRootAttributes {
        exact_prefix: Some(SpannedKv::new("API@".to_string(), Span::new(64), Span::new(65))),
        ..RawRootAttributes::default()
    }
    .validate()
    .unwrap();
    assert_eq!(root.prefix, Some(Prefix::Exact("API@".to_string())));
}

// A schema with grouping dimensions: the entry holds them in a field of its own,
// which is written first and filled from what is declared.
#[test]
fn test_dimension_sets_struct() {
    let dims = DimensionSets { syntax: Syntax::new(9), span: Span::new(70) };
    let input = request_metrics(vec![field("operation", 10, STR, plain())]);
    let root = RawRootAttributes { emf_dimensions: Some(dims), ..RawRootAttributes::default() };
    let validated = root.clone().validate().unwrap();
    assert_eq!(validated.configuration_field_names(), vec!["__config__"]);
    assert_eq!(
        validated.configuration_fields(),
        vec![metrique_schema::attrs::ConfigurationField::EntryDimensions]
    );
    assert_eq!(
        validated.create_configuration(),
        vec![metrique_schema::attrs::ConfigurationInit::EntryDimensions(dims)]
    );
    assert_eq!(validated.warnings(), vec![]);

    let generated = record(root, &input);
    assert_eq!(
        generated.entry_struct.body.fields,
        vec![
            EntryStructField::Configuration(
                metrique_schema::attrs::ConfigurationField::EntryDimensions
            ),
            entry("operation", 10, STR),
        ]
    );
    let entry_impl = match generated.inner_impl {
        InnerImpl::Entry(e) => e,
        other => panic!("not an entry: {:?}", other),
    };
    assert_eq!(entry_impl.writes.len(), 2);
    assert_eq!(
        entry_impl.writes[0],
        WriteStatement::Configuration {
            config: metrique_schema::attrs::ConfigurationField::EntryDimensions
        }
    );
    assert_eq!(
        generated.close_value_impl.body,
        CloseBody::Record(RecordClose {
            entry: "RequestMetricsEntry".to_string(),
            config: vec![metrique_schema::attrs::ConfigurationInit::EntryDimensions(dims)],
            fields: vec![close("operation", 10, OwnershipKind::ByValue)],
        })
    );

    let none = RawRootAttributes::default().validate().unwrap();
    assert_eq!(none.configuration_field_names(), Vec::<&str>::new());
    assert_eq!(none.configuration_fields(), vec![]);
    assert_eq!(none.create_configuration(), vec![]);
}

// A field that is not closed and carries a unit: the entry holds the declared
// type with the unit attached, and closing only converts.
#[test]
fn test_no_close_with_unit() {
    let millisecond = Syntax::new(7);
    let input = request_metrics(vec![field(
        "latency",
        10,
        U32,
        RawMetricsFieldAttrs {
            no_close: Flag::present(Span::new(71)),
            unit: Some(SpannedKv::new(millisecond, Span::new(72), Span::new(73))),
            ..plain()
        },
    )]);
    let root = RawRootAttributes { subfield: Flag::present(Span::new(74)), ..RawRootAttributes::default() };
    let generated = record(root, &input);
    assert_eq!(
        generated.entry_struct.body.fields,
        vec![EntryStructField::Field(EntryField {
            ident: Some(named("latency")),
            ty: EntryType { declared: U32, closed: false, unit: Some(millisecond) },
            span: Span::new(10),
        })]
    );
    assert_eq!(
        generated.close_value_impl.body,
        CloseBody::Record(RecordClose {
            entry: "RequestMetricsEntry".to_string(),
            config: vec![],
            fields: vec![CloseField {
                ident: named("latency"),
                ownership: OwnershipKind::ByRef,
                close: false,
                unit: Some(millisecond),
                span: Span::new(10),
            }],
        })
    );
    assert!(generated.close_value_impl.by_value_proxy);
    assert_eq!(generated.root_entry_specifics, None);
}

#[test]
fn test_warning_is_kept_as_written() {
    let warning = metrique_schema::attrs::proc_macro_warning(Span::new(5), "soon gone");
    assert_eq!(warning.span, Span::new(5));
    assert_eq!(warning.note, "soon gone");
}
