use metrique_schema::attrs::DimensionSets;
use metrique_schema::attrs::RawRootAttributes;
use metrique_schema::attrs::RootAttributes;
use metrique_schema::attrs::ValueAttributes;
use metrique_schema::enums::parse_enum_variants;
use metrique_schema::enums::CoreVariant;
use metrique_schema::enums::CoreVariantData;
use metrique_schema::enums::EnumDecl;
use metrique_schema::enums::RawMetricsVariantAttrs;
use metrique_schema::enums::UnionKind;
use metrique_schema::field_attrs::RawMetricsFieldAttrs;
use metrique_schema::input::Data;
use metrique_schema::input::DeriveInput;
use metrique_schema::input::Field;
use metrique_schema::input::Fields;
use metrique_schema::input::Variant;
use metrique_schema::metrics::clean_base_adt;
use metrique_schema::metrics::generate_metrics;
use metrique_schema::metrics::metrics;
use metrique_schema::metrics::CleanDecl;
use metrique_schema::metrics::Outcome;
use metrique_schema::source::AttrName;
use metrique_schema::source::Attribute;
use metrique_schema::source::Diagnostic;
use metrique_schema::source::Flag;
use metrique_schema::source::Span;
use metrique_schema::source::SpannedKv;
use metrique_schema::source::Syntax;
use metrique_schema::structs::clean_attrs;
use metrique_schema::structs::parse_struct_fields;
use metrique_schema::structs::CoreField;
use metrique_schema::structs::Member;
use metrique_schema::structs::StructBody;
use metrique_schema::structs::StructDecl;

fn at(id: usize) -> Span {
    Span::new(id)
}

fn on(id: usize) -> Flag {
    Flag::present(at(id))
}

fn plain() -> RawMetricsFieldAttrs {
    RawMetricsFieldAttrs::default()
}

fn flatten() -> RawMetricsFieldAttrs {
    RawMetricsFieldAttrs { flatten: on(20), ..plain() }
}

fn field(name: &str, span: usize, attrs: RawMetricsFieldAttrs) -> Field {
    Field::named(name, at(span), Syntax::new(1), attrs)
}

fn finding(message: &str, span: usize) -> Diagnostic {
    Diagnostic { message: message.to_string(), span: at(span), conflict: None }
}

fn conflict(existing: AttrName, new: AttrName, span: usize, message: &str) -> Diagnostic {
    Diagnostic { message: message.to_string(), span: at(span), conflict: Some((existing, new)) }
}

fn record(fields: Fields) -> DeriveInput {
    DeriveInput::new("Request", at(1), Data::Struct(fields))
}

fn union(variants: Vec<Variant>) -> DeriveInput {
    DeriveInput::new("Operation", at(1), Data::Enum(variants))
}

fn case(name: &str, span: usize, fields: Fields) -> Variant {
    Variant::new(name, at(span), fields, RawMetricsVariantAttrs::default())
}

fn value() -> RawRootAttributes {
    RawRootAttributes { value: Some(ValueAttributes::from_word()), ..RawRootAttributes::default() }
}

fn value_string() -> RawRootAttributes {
    RawRootAttributes {
        value: Some(ValueAttributes { string: on(2) }),
        ..RawRootAttributes::default()
    }
}

fn errors(root: RawRootAttributes, input: &DeriveInput) -> Vec<Diagnostic> {
    match generate_metrics(root.validate().unwrap(), input) {
        Ok(generated) => panic!("generated: {:?}", generated),
        Err(errors) => errors,
    }
}

// The findings on all fields come back together, one for each field, in the
// order of the fields.
#[test]
fn test_field_findings_accumulate() {
    let fields = vec![
        field("a", 10, RawMetricsFieldAttrs { flatten: on(1), timestamp: on(2), ..plain() }),
        field("b", 11, plain()),
        field("c", 12, RawMetricsFieldAttrs { ignore: on(3), no_close: on(4), ..plain() }),
        field(
            "d",
            13,
            RawMetricsFieldAttrs {
                name: Some(SpannedKv::new(String::new(), at(5), at(6))),
                ..plain()
            },
        ),
    ];
    assert_eq!(
        parse_struct_fields(&fields),
        Err(vec![
            conflict(
                AttrName::Flatten,
                AttrName::Timestamp,
                2,
                "cannot combine `flatten` with `timestamp`"
            ),
            conflict(
                AttrName::NoClose,
                AttrName::Ignore,
                3,
                "cannot combine `no_close` with `ignore`"
            ),
            finding("invalid name: name field must not be empty", 6),
        ])
    );
}

// A finding of the front-end on one field stands among those of validation.
#[test]
fn test_front_end_findings_are_kept() {
    let malformed = Field {
        metrics: Err(finding("Unknown field: `flaten`", 30)),
        ..field("a", 10, plain())
    };
    let fields = vec![
        malformed,
        field("b", 11, RawMetricsFieldAttrs { flatten: on(1), ignore: on(2), ..plain() }),
    ];
    assert_eq!(
        parse_struct_fields(&fields),
        Err(vec![
            finding("Unknown field: `flaten`", 30),
            conflict(AttrName::Flatten, AttrName::Ignore, 2, "cannot combine `flatten` with `ignore`"),
        ])
    );
}

#[test]
fn test_fields_are_validated_in_place() {
    let fields = vec![
        Field::unnamed(Syntax::new(1), at(10), plain()),
        Field::unnamed(Syntax::new(2), at(11), flatten()),
    ];
    let parsed = parse_struct_fields(&fields).unwrap();
    assert_eq!(parsed.len(), 2);
    assert_eq!(parsed[0].ident, Member::Unnamed(0));
    assert_eq!(parsed[1].ident, Member::Unnamed(1));
    assert_eq!(parsed[0].span, at(10));
    assert_eq!(parsed[1].ty, Syntax::new(2));
    assert_eq!(parse_struct_fields(&vec![]), Ok(vec![]));
}

#[test]
fn test_entries_are_records_with_named_fields() {
    let tuple = record(Fields::Unnamed(vec![Field::unnamed(Syntax::new(1), at(10), plain())]));
    assert_eq!(
        errors(RawRootAttributes::default(), &tuple),
        vec![finding("Only named fields are supported", 1)]
    );
    assert_eq!(
        errors(RawRootAttributes::default(), &record(Fields::Unit)),
        vec![finding("Only named fields are supported", 1)]
    );
    assert_eq!(
        errors(value(), &record(Fields::Unit)),
        vec![finding("Only named fields are supported", 1)]
    );
    let untagged = DeriveInput::new("U", at(1), Data::Union);
    assert_eq!(
        errors(RawRootAttributes::default(), &untagged),
        vec![finding("Only structs are supported for entries", 1)]
    );
    assert_eq!(
        errors(value(), &union(vec![case("A", 2, Fields::Unit)])),
        vec![finding("Only structs are supported for entries", 1)]
    );
}

#[test]
fn test_string_values_are_unions() {
    assert_eq!(
        errors(value_string(), &record(Fields::Named(vec![field("a", 10, plain())]))),
        vec![finding("Only enums are supported for values", 1)]
    );
    assert_eq!(
        errors(value_string(), &DeriveInput::new("U", at(1), Data::Union)),
        vec![finding("Only enums are supported for values", 1)]
    );
}

#[test]
fn test_value_holds_one_field() {
    let two = record(Fields::Named(vec![field("a", 10, plain()), field("b", 11, plain())]));
    assert_eq!(
        errors(value(), &two),
        vec![finding("multiple non-ignored fields for #[metrics(value)]", 11)]
    );
}

#[test]
fn test_value_field_carries_no_schema_attributes() {
    let marked = record(Fields::Named(vec![field(
        "a",
        10,
        RawMetricsFieldAttrs { sample_group: on(3), ..plain() },
    )]));
    assert_eq!(
        errors(value(), &marked),
        vec![finding(
            "`sample_group` in value structs is used as a struct attribute, not a field attribute: `#[metrics(value, sample_group)]`",
            10
        )]
    );
    let named = record(Fields::Named(vec![field(
        "a",
        10,
        RawMetricsFieldAttrs {
            name: Some(SpannedKv::new("b".to_string(), at(5), at(6))),
            ..plain()
        },
    )]));
    assert_eq!(
        errors(value(), &named),
        vec![finding("`name` does not make sense with #[metrics(value)]", 10)]
    );
}

#[test]
fn test_value_sample_group_needs_a_field() {
    let ignored = record(Fields::Named(vec![field(
        "a",
        10,
        RawMetricsFieldAttrs { ignore: on(3), ..plain() },
    )]));
    let root = RawRootAttributes { sample_group: on(4), ..value() };
    assert_eq!(
        errors(root, &ignored),
        vec![finding("`sample_group` requires a non-ignore field", 1)]
    );
    // Without the mark, a value of ignored fields only is written as nothing.
    assert!(generate_metrics(value().validate().unwrap(), &ignored).is_ok());
}

#[test]
fn test_value_has_no_names_of_its_own() {
    let one = || record(Fields::Named(vec![field("a", 10, plain())]));
    let dims = DimensionSets { syntax: Syntax::new(1), span: at(6) };
    assert_eq!(
        errors(RawRootAttributes { emf_dimensions: Some(dims), ..value() }, &one()),
        vec![finding("emf_dimensions is not supported for #[metrics(value)]", 1)]
    );
    assert_eq!(
        errors(
            RawRootAttributes {
                exact_prefix: Some(SpannedKv::new("p".to_string(), at(7), at(8))),
                ..value()
            },
            &one()
        ),
        vec![finding("prefix is not supported for #[metrics(value)]", 1)]
    );
    assert_eq!(
        errors(
            RawRootAttributes {
                rename_all: metrique_schema::inflect::NameStyle::SnakeCase,
                ..value()
            },
            &one()
        ),
        vec![finding("NameStyle is not supported for #[metrics(value)]", 1)]
    );
}

#[test]
fn test_value_is_a_plain_field() {
    let flattened = record(Fields::Named(vec![field("a", 10, flatten())]));
    assert_eq!(
        errors(value(), &flattened),
        vec![finding("only plain fields are supported in #[metrics(value)]", 10)]
    );
}

// In a union that is written as a string, every case that holds fields and
// every attribute that belongs on a field is reported, all in one pass.
#[test]
fn test_string_union_findings_accumulate() {
    let with = |name: &str, span: usize, attrs: RawMetricsVariantAttrs| Variant {
        metrics: Ok(attrs),
        ..case(name, span, Fields::Unit)
    };
    let none = RawMetricsVariantAttrs::default;
    let variants = vec![
        case("Tuple", 2, Fields::Unnamed(vec![Field::unnamed(Syntax::new(1), at(10), plain())])),
        case("Fine", 3, Fields::Unit),
        case("Struct", 4, Fields::Named(vec![field("field", 11, plain())])),
        with("Unit", 5, RawMetricsVariantAttrs { unit: on(12), ..none() }),
        with("Timestamp", 6, RawMetricsVariantAttrs { timestamp: on(13), ..none() }),
        with("Flatten", 7, RawMetricsVariantAttrs { flatten: on(14), ..none() }),
        with("SampleGroup", 8, RawMetricsVariantAttrs { sample_group: on(15), ..none() }),
    ];
    let expected = vec![
        finding("variants with fields are not supported", 2),
        finding("variants with fields are not supported", 4),
        finding("Unknown field: `unit`", 12),
        finding("Unknown field: `timestamp`", 13),
        finding("Unknown field: `flatten`", 14),
        finding("Unknown field: `sample_group`", 15),
    ];
    assert_eq!(parse_enum_variants(&variants, UnionKind::ValueString), Err(expected.clone()));
    assert_eq!(errors(value_string(), &union(variants)), expected);
}

#[test]
fn test_case_findings_accumulate_within_a_case() {
    let variants = vec![Variant {
        metrics: Ok(RawMetricsVariantAttrs {
            flatten: on(14),
            sample_group: on(15),
            name: Some(SpannedKv::new("a b".to_string(), at(16), at(17))),
            ..RawMetricsVariantAttrs::default()
        }),
        ..case("Tuple", 2, Fields::Unnamed(vec![Field::unnamed(Syntax::new(1), at(10), plain())]))
    }];
    assert_eq!(
        parse_enum_variants(&variants, UnionKind::ValueString),
        Err(vec![
            finding("variants with fields are not supported", 2),
            finding("Unknown field: `flatten`", 14),
            finding("Unknown field: `sample_group`", 15),
            finding("invalid name: name must not contain spaces", 17),
        ])
    );
}

#[test]
fn test_string_union_of_empty_cases() {
    let variants = vec![
        case("A", 2, Fields::Unit),
        case("B", 3, Fields::Named(vec![])),
        case("C", 4, Fields::Unnamed(vec![])),
    ];
    let parsed = parse_enum_variants(&variants, UnionKind::ValueString).unwrap();
    assert_eq!(parsed.len(), 3);
    assert_eq!(parsed[1].ident.name, "B");
    assert_eq!(parse_enum_variants(&vec![], UnionKind::ValueString), Ok(vec![]));
}

#[test]
fn test_entry_union_has_no_unit_case() {
    let variants = vec![case("Success", 2, Fields::Unit), case("Failure", 3, Fields::Unit)];
    assert_eq!(
        errors(RawRootAttributes::default(), &union(variants)),
        vec![
            finding("unit variants are not supported for entry enums", 2),
            finding("unit variants are not supported for entry enums", 3),
        ]
    );
}

#[test]
fn test_entry_union_tuple_case_flattens_one_field() {
    let tuple = |attrs: Vec<RawMetricsFieldAttrs>| {
        case(
            "Variant",
            2,
            Fields::Unnamed(
                attrs.into_iter().map(|a| Field::unnamed(Syntax::new(1), at(10), a)).collect(),
            ),
        )
    };
    let root = RawRootAttributes::default;
    assert_eq!(
        errors(root(), &union(vec![tuple(vec![plain()])])),
        vec![finding("tuple variant fields must be `flatten` or `flatten_entry`", 10)]
    );
    assert_eq!(
        errors(
            root(),
            &union(vec![tuple(vec![RawMetricsFieldAttrs { timestamp: on(3), ..plain() }])])
        ),
        vec![finding("tuple variant fields must be `flatten` or `flatten_entry`", 10)]
    );
    assert_eq!(
        errors(root(), &union(vec![tuple(vec![flatten(), flatten()])])),
        vec![finding("tuple variants must have exactly one field", 2)]
    );
    assert_eq!(
        errors(
            root(),
            &union(vec![tuple(vec![RawMetricsFieldAttrs {
                unit: Some(SpannedKv::new(Syntax::new(7), at(4), at(5))),
                ..flatten()
            }])])
        ),
        vec![conflict(AttrName::Flatten, AttrName::Unit, 4, "cannot combine `flatten` with `unit`")]
    );
    assert!(generate_metrics(RootAttributes::default(), &union(vec![tuple(vec![flatten()])]))
        .is_ok());
    assert!(generate_metrics(
        RootAttributes::default(),
        &union(vec![tuple(vec![RawMetricsFieldAttrs { flatten_entry: on(3), ..plain() }])])
    )
    .is_ok());
}

#[test]
fn test_entry_union_case_attributes() {
    let variants = vec![
        Variant {
            metrics: Ok(RawMetricsVariantAttrs {
                unit: on(12),
                ..RawMetricsVariantAttrs::default()
            }),
            ..case("Variant", 2, Fields::Unnamed(vec![Field::unnamed(Syntax::new(1), at(10), flatten())]))
        },
        Variant {
            metrics: Ok(RawMetricsVariantAttrs {
                timestamp: on(13),
                ..RawMetricsVariantAttrs::default()
            }),
            ..case("Other", 3, Fields::Unit)
        },
    ];
    assert_eq!(
        errors(RawRootAttributes::default(), &union(variants)),
        vec![
            finding("Unknown field: `unit`", 12),
            finding("unit variants are not supported for entry enums", 3),
            finding("Unknown field: `timestamp`", 13),
        ]
    );
}

#[test]
fn test_entry_union_struct_case_findings_accumulate() {
    let variants = vec![case(
        "Variant",
        2,
        Fields::Named(vec![
            field("a", 10, RawMetricsFieldAttrs { flatten: on(1), ignore: on(3), ..plain() }),
            field("b", 11, RawMetricsFieldAttrs { timestamp: on(4), ignore: on(5), ..plain() }),
        ]),
    )];
    assert_eq!(
        errors(RawRootAttributes::default(), &union(variants)),
        vec![
            conflict(AttrName::Flatten, AttrName::Ignore, 3, "cannot combine `flatten` with `ignore`"),
            conflict(
                AttrName::Timestamp,
                AttrName::Ignore,
                5,
                "cannot combine `timestamp` with `ignore`"
            ),
        ]
    );
}

#[test]
fn test_entry_union_has_no_dimension_sets() {
    let dims = DimensionSets { syntax: Syntax::new(1), span: at(6) };
    let variants = vec![case("Variant", 2, Fields::Named(vec![field("a", 10, plain())]))];
    assert_eq!(
        errors(
            RawRootAttributes { emf_dimensions: Some(dims), ..RawRootAttributes::default() },
            &union(variants)
        ),
        vec![finding("dimension-sets are not supported for enums", 6)]
    );
}

#[test]
fn test_clean_attrs_drops_own_attributes() {
    let attrs = vec![
        Attribute::new("derive", Syntax::new(1)),
        Attribute::new("metrics", Syntax::new(2)),
        Attribute::new("doc", Syntax::new(3)),
        Attribute::new("metrics", Syntax::new(4)),
        Attribute::new("metrics::other", Syntax::new(5)),
    ];
    assert_eq!(
        clean_attrs(&attrs),
        vec![
            Attribute::new("derive", Syntax::new(1)),
            Attribute::new("doc", Syntax::new(3)),
            Attribute::new("metrics::other", Syntax::new(5)),
        ]
    );
    assert_eq!(clean_attrs(&[]), vec![]);
}

fn annotated(name: &str, span: usize) -> Field {
    Field {
        attrs: vec![
            Attribute::new("metrics", Syntax::new(20)),
            Attribute::new("serde", Syntax::new(21)),
        ],
        ..field(name, span, RawMetricsFieldAttrs { flatten: on(1), ignore: on(2), ..plain() })
    }
}

// A schema with findings is handed back without the attributes of the schema
// compiler, next to the findings.
#[test]
fn test_rejected_record_is_handed_back_clean() {
    let input = DeriveInput {
        attrs: vec![
            Attribute::new("derive", Syntax::new(22)),
            Attribute::new("metrics", Syntax::new(23)),
        ],
        ..record(Fields::Named(vec![annotated("a", 10), field("b", 11, plain())]))
    };
    let out = metrics(Ok(RawRootAttributes::default()), &input);
    assert_eq!(out.root_error, None);
    let kept = |name: &str, attrs: Vec<Attribute>| CoreField {
        external_attrs: attrs,
        vis: Syntax::new(0),
        ident: Some(Member::Named(name.to_string())),
        ty: Syntax::new(1),
    };
    assert_eq!(
        out.outcome,
        Outcome::Rejected {
            fallback: CleanDecl::Struct(StructDecl {
                attrs: vec![Attribute::new("derive", Syntax::new(22))],
                vis: Syntax::new(0),
                name: "Request".to_string(),
                generics: Syntax::new(0),
                body: StructBody {
                    named: true,
                    fields: vec![
                        kept("a", vec![Attribute::new("serde", Syntax::new(21))]),
                        kept("b", vec![]),
                    ],
                },
            }),
            errors: vec![conflict(
                AttrName::Flatten,
                AttrName::Ignore,
                2,
                "cannot combine `flatten` with `ignore`"
            )],
        }
    );
}

#[test]
fn test_clean_declarations() {
    let tuple = record(Fields::Unnamed(vec![Field {
        attrs: vec![Attribute::new("metrics", Syntax::new(20))],
        ..Field::unnamed(Syntax::new(1), at(10), plain())
    }]));
    assert_eq!(
        clean_base_adt(&tuple),
        CleanDecl::Struct(StructDecl {
            attrs: vec![],
            vis: Syntax::new(0),
            name: "Request".to_string(),
            generics: Syntax::new(0),
            body: StructBody {
                named: false,
                fields: vec![CoreField {
                    external_attrs: vec![],
                    vis: Syntax::new(0),
                    ident: None,
                    ty: Syntax::new(1)
                }],
            },
        })
    );
    assert_eq!(clean_base_adt(&record(Fields::Unit)), CleanDecl::Echo);
    assert_eq!(clean_base_adt(&DeriveInput::new("U", at(1), Data::Union)), CleanDecl::Echo);

    let cases = union(vec![
        case("A", 2, Fields::Unit),
        Variant {
            attrs: vec![
                Attribute::new("metrics", Syntax::new(24)),
                Attribute::new("doc", Syntax::new(25)),
            ],
            ..case("B", 3, Fields::Unnamed(vec![Field::unnamed(Syntax::new(1), at(10), flatten())]))
        },
        case("C", 4, Fields::Named(vec![annotated("c", 11)])),
    ]);
    assert_eq!(
        clean_base_adt(&cases),
        CleanDecl::Enum(EnumDecl {
            attrs: vec![],
            vis: Syntax::new(0),
            name: "Operation".to_string(),
            generics: Syntax::new(0),
            variants: vec![
                CoreVariant {
                    external_attrs: vec![],
                    ident: "A".to_string(),
                    data: CoreVariantData::Unit
                },
                CoreVariant {
                    external_attrs: vec![Attribute::new("doc", Syntax::new(25))],
                    ident: "B".to_string(),
                    data: CoreVariantData::Tuple(vec![CoreField {
                        external_attrs: vec![],
                        vis: Syntax::new(0),
                        ident: None,
                        ty: Syntax::new(1)
                    }]),
                },
                CoreVariant {
                    external_attrs: vec![],
                    ident: "C".to_string(),
                    data: CoreVariantData::Struct(vec![CoreField {
                        external_attrs: vec![Attribute::new("serde", Syntax::new(21))],
                        vis: Syntax::new(0),
                        ident: Some(Member::Named("c".to_string())),
                        ty: Syntax::new(1)
                    }]),
                },
            ],
        })
    );
}

// A finding on the attributes of the schema does not hide those on its fields: the
// declaration is validated as if it had declared none. Nothing is generated.
#[test]
fn test_root_finding_does_not_end_the_work() {
    let root = RawRootAttributes { sample_group: on(4), ..RawRootAttributes::default() };
    let input = record(Fields::Named(vec![annotated("a", 10)]));
    let out = metrics(Ok(root), &input);
    assert_eq!(
        out.root_error,
        Some(finding(
            "`sample_group` as a top-level attribute can only be used with #[metrics(value)]",
            4
        ))
    );
    match out.outcome {
        Outcome::Rejected { errors, .. } => assert_eq!(
            errors,
            vec![conflict(
                AttrName::Flatten,
                AttrName::Ignore,
                2,
                "cannot combine `flatten` with `ignore`"
            )]
        ),
        other => panic!("not rejected: {:?}", other),
    }
}

// A finding on the attributes of the schema alone: the declaration is handed back
// without the attributes of the schema compiler, and no entry is generated for it.
#[test]
fn test_root_finding_alone_generates_nothing() {
    let clean = |name: &str, attrs: Vec<Attribute>| CoreField {
        external_attrs: attrs,
        vis: Syntax::new(0),
        ident: Some(Member::Named(name.to_string())),
        ty: Syntax::new(1),
    };
    let input = || {
        record(Fields::Named(vec![
            Field {
                attrs: vec![
                    Attribute::new("metrics", Syntax::new(20)),
                    Attribute::new("serde", Syntax::new(21)),
                ],
                ..field("a", 10, plain())
            },
            field("b", 11, plain()),
        ]))
    };
    let fallback = || {
        CleanDecl::Struct(StructDecl {
            attrs: vec![],
            vis: Syntax::new(0),
            name: "Request".to_string(),
            generics: Syntax::new(0),
            body: StructBody {
                named: true,
                fields: vec![
                    clean("a", vec![Attribute::new("serde", Syntax::new(21))]),
                    clean("b", vec![]),
                ],
            },
        })
    };

    // The front-end could not read the attributes.
    let front_end = finding("Unknown field: `renam_all`", 40);
    let out = metrics(Err(front_end.clone()), &input());
    assert_eq!(out.root_error, Some(front_end));
    assert_eq!(out.outcome, Outcome::Rejected { fallback: fallback(), errors: vec![] });

    // The attributes are refused by validation.
    let root = RawRootAttributes { subfield: on(2), subfield_owned: on(3), ..RawRootAttributes::default() };
    let out = metrics(Ok(root), &input());
    assert_eq!(
        out.root_error,
        Some(conflict(
            AttrName::Subfield,
            AttrName::SubfieldOwned,
            3,
            "cannot combine `subfield` with `subfield_owned`"
        ))
    );
    assert_eq!(out.outcome, Outcome::Rejected { fallback: fallback(), errors: vec![] });

    // The same declaration with attributes that are in order is generated.
    let out = metrics(Ok(RawRootAttributes::default()), &input());
    assert_eq!(out.root_error, None);
    assert!(matches!(out.outcome, Outcome::Generated(_)));
}
