use metrique_schema::attrs::RawRootAttributes;
use metrique_schema::emit::Content;
use metrique_schema::emit::Emitted;
use metrique_schema::emit::FieldValue;
use metrique_schema::emit::Observation;
use metrique_schema::emit::Written;
use metrique_schema::emit::WrittenUnder;
use metrique_schema::entry_impl::EntryImpl;
use metrique_schema::enums::RawMetricsVariantAttrs;
use metrique_schema::enums::UnionEntryImpl;
use metrique_schema::enums::UnionInnerImpl;
use metrique_schema::field_attrs::RawMetricsFieldAttrs;
use metrique_schema::inflect::NameStyle;
use metrique_schema::input::Data;
use metrique_schema::input::DeriveInput;
use metrique_schema::input::Field;
use metrique_schema::input::Fields;
use metrique_schema::input::Variant;
use metrique_schema::metrics::metrics;
use metrique_schema::metrics::Metrics;
use metrique_schema::metrics::Outcome;
use metrique_schema::source::Flag;
use metrique_schema::source::Span;
use metrique_schema::source::SpannedKv;
use metrique_schema::source::Syntax;
use metrique_schema::structs::InnerImpl;
use metrique_schema::structs::Member;

fn plain(name: &str) -> Field {
    Field::named(name, Span::new(10), Syntax::new(1), RawMetricsFieldAttrs::default())
}

fn flatten() -> RawMetricsFieldAttrs {
    RawMetricsFieldAttrs { flatten: Flag::present(Span::new(20)), ..RawMetricsFieldAttrs::default() }
}

fn flatten_prefix(prefix: &str) -> RawMetricsFieldAttrs {
    RawMetricsFieldAttrs {
        prefix: Some(SpannedKv::new(prefix.to_string(), Span::new(21), Span::new(22))),
        ..flatten()
    }
}

fn prefix(prefix: &str) -> RawRootAttributes {
    RawRootAttributes {
        prefix: Some(SpannedKv::new(prefix.to_string(), Span::new(30), Span::new(31))),
        ..RawRootAttributes::default()
    }
}

fn tuple_case(name: &str, attrs: RawMetricsFieldAttrs) -> Variant {
    Variant::new(
        name,
        Span::new(40),
        Fields::Unnamed(vec![Field::unnamed(Syntax::new(2), Span::new(41), attrs)]),
        RawMetricsVariantAttrs::default(),
    )
}

fn struct_case(name: &str, fields: Vec<Field>) -> Variant {
    Variant::new(name, Span::new(42), Fields::Named(fields), RawMetricsVariantAttrs::default())
}

fn record(name: &str, root: RawRootAttributes, fields: Vec<Field>) -> EntryImpl {
    let input = DeriveInput::new(name, Span::new(1), Data::Struct(Fields::Named(fields)));
    let out = metrics(Ok(root), &input);
    assert_eq!(out.root_error, None);
    match out.outcome {
        Outcome::Generated(Metrics::Record(r)) => match r.inner_impl {
            InnerImpl::Entry(e) => e,
            other => panic!("not an entry: {:?}", other),
        },
        other => panic!("not generated: {:?}", other),
    }
}

fn union(name: &str, root: RawRootAttributes, variants: Vec<Variant>) -> UnionEntryImpl {
    let input = DeriveInput::new(name, Span::new(1), Data::Enum(variants));
    let out = metrics(Ok(root), &input);
    assert_eq!(out.root_error, None);
    match out.outcome {
        Outcome::Generated(Metrics::Union(u)) => match u.inner_impl {
            UnionInnerImpl::Entry { entry, .. } => entry,
            other => panic!("not an entry: {:?}", other),
        },
        other => panic!("not generated: {:?}", other),
    }
}

fn leaf(name: &str, value: Observation) -> FieldValue {
    FieldValue { member: Member::Named(name.to_string()), content: Content::Leaf(value) }
}

fn number(name: &str, value: u64) -> FieldValue {
    leaf(name, Observation::Unsigned(value))
}

fn inner(written: Written) -> FieldValue {
    FieldValue { member: Member::Unnamed(0), content: Content::Nested(written) }
}

// What a root entry hands to the writer: names as they go out.
fn names(written: &Written) -> Vec<String> {
    written
        .preserve
        .emitted
        .iter()
        .map(|e| match e {
            Emitted::Value { name, .. } => name.clone(),
            other => panic!("not a value: {:?}", other),
        })
        .collect()
}

fn metric(written: &Written, wanted: &str) -> Observation {
    for e in &written.preserve.emitted {
        if let Emitted::Value { name, value, .. } = e {
            if name == wanted {
                return value.clone();
            }
        }
    }
    panic!("no metric {wanted} among {:?}", names(written));
}

fn nested_metrics(value: u64) -> Written {
    record("NestedMetrics", RawRootAttributes::default(), vec![plain("value")])
        .write(&[number("value", value)])
}

fn root() -> RawRootAttributes {
    RawRootAttributes::default()
}

fn rename_all(style: NameStyle) -> RawRootAttributes {
    RawRootAttributes { rename_all: style, ..RawRootAttributes::default() }
}

fn exact_prefix(prefix: &str) -> RawRootAttributes {
    RawRootAttributes {
        exact_prefix: Some(SpannedKv::new(prefix.to_string(), Span::new(32), Span::new(33))),
        ..RawRootAttributes::default()
    }
}

fn subfield_owned() -> RawRootAttributes {
    RawRootAttributes { subfield_owned: Flag::present(Span::new(34)), ..RawRootAttributes::default() }
}

fn flattened(name: &str, attrs: RawMetricsFieldAttrs) -> Field {
    Field::named(name, Span::new(11), Syntax::new(3), attrs)
}

fn holds(name: &str, written: Written) -> FieldValue {
    FieldValue { member: Member::Named(name.to_string()), content: Content::Nested(written) }
}

fn text(name: &str, value: &str) -> FieldValue {
    leaf(name, Observation::Text(value.to_string()))
}

fn has(written: &Written, wanted: &str) -> bool {
    names(written).iter().any(|n| n == wanted)
}

// The child renames, the parent prefixes.
#[test]
fn test_child_rename_parent_prefix() {
    let child = record("ChildRenamed", rename_all(NameStyle::PascalCase), vec![plain("read_data")])
        .write(&[number("read_data", 42)]);
    let plan = union(
        "ChildRenameParentPrefix",
        root(),
        vec![tuple_case("Variant", flatten_prefix("op_"))],
    );
    let written = plan.write("Variant", &[inner(child)]).unwrap();

    assert_eq!(names(&written).len(), 1);
    // The child renames first (read_data -> ReadData), then the prefix of the parent
    // is put before it.
    assert_eq!(metric(&written, "op_ReadData").as_u64(), Some(42));
}

// The parent renames and prefixes; the child does neither.
#[test]
fn test_parent_rename_and_prefix() {
    let plan = union(
        "ParentRenameAndPrefix",
        RawRootAttributes { rename_all: NameStyle::PascalCase, ..prefix("op_") },
        vec![tuple_case("ReadData", flatten())],
    );
    let written = plan.write("ReadData", &[inner(nested_metrics(100))]).unwrap();

    assert_eq!(names(&written).len(), 1);
    // op_ + value -> OpValue
    assert_eq!(metric(&written, "OpValue").as_u64(), Some(100));
}

// Both rename: the child wins.
#[test]
fn test_competing_rename_all() {
    let child =
        record("ChildKebabCase", rename_all(NameStyle::KebabCase), vec![plain("read_data")])
            .write(&[number("read_data", 50)]);
    let plan = union(
        "ParentPascalCase",
        rename_all(NameStyle::PascalCase),
        vec![tuple_case("Variant", flatten())],
    );
    let written = plan.write("Variant", &[inner(child)]).unwrap();

    assert_eq!(names(&written).len(), 1);
    assert_eq!(metric(&written, "read-data").as_u64(), Some(50));
}

// The child has an exact prefix, the parent renames: the prefix is kept.
#[test]
fn test_exact_prefix() {
    let child = record("ExactPrefixChild", exact_prefix("op-"), vec![plain("value")])
        .write(&[number("value", 75)]);
    let plan = union(
        "ExactPrefixEnum",
        rename_all(NameStyle::PascalCase),
        vec![tuple_case("Variant", flatten())],
    );
    let written = plan.write("Variant", &[inner(child)]).unwrap();

    assert_eq!(names(&written).len(), 1);
    // The exact prefix of the child stays (op-); the style of the parent still
    // reaches the name of the field (value -> Value).
    assert_eq!(metric(&written, "op-Value").as_u64(), Some(75));
}

// Prefixes on three levels.
#[test]
fn test_triple_prefix_combination() {
    let inner_level =
        record("InnerLevel", root(), vec![plain("data")]).write(&[number("data", 42)]);
    let middle_level =
        record("MiddleLevel", root(), vec![flattened("inner", flatten_prefix("inner_"))])
            .write(&[holds("inner", inner_level)]);
    let plan =
        union("TriplePrefixEnum", root(), vec![tuple_case("Variant", flatten_prefix("field_"))]);
    let written = plan.write("Variant", &[inner(middle_level)]).unwrap();

    assert_eq!(names(&written).len(), 1);
    // field_ + inner_ + data
    assert_eq!(metric(&written, "field_inner_data").as_u64(), Some(42));
}

fn subfield_nested() -> Written {
    record("SubfieldNested", subfield_owned(), vec![plain("timestamp")])
        .write(&[text("timestamp", "2026-01-01T00:00:00Z")])
}

fn subfield_status() -> UnionEntryImpl {
    union(
        "SubfieldStatus",
        subfield_owned(),
        vec![
            tuple_case("TupleVariant", flatten()),
            struct_case("StructVariant", vec![plain("timestamp")]),
        ],
    )
}

// A union flattened into a record behind a prefix of the field.
#[test]
fn test_subfield_enum_parent_field_prefix() {
    let status = subfield_status();
    let plan = record(
        "ParentWithFieldPrefix",
        root(),
        vec![flattened("status", flatten_prefix("status_")), plain("direct_field")],
    );
    let entries = vec![
        plan.write(&[
            holds("status", status.write("TupleVariant", &[inner(subfield_nested())]).unwrap()),
            number("direct_field", 200),
        ]),
        plan.write(&[
            holds(
                "status",
                status
                    .write("StructVariant", &[text("timestamp", "2026-01-01T00:00:00Z")])
                    .unwrap(),
            ),
            number("direct_field", 400),
        ]),
    ];
    assert_eq!(entries.len(), 2);

    // The prefix of the field reaches the fields of the flattened union.
    assert!(has(&entries[0], "status_timestamp"));
    assert_eq!(metric(&entries[0], "direct_field").as_u64(), Some(200));

    assert!(has(&entries[1], "status_timestamp"));
    assert_eq!(metric(&entries[1], "direct_field").as_u64(), Some(400));
    assert_eq!(names(&entries[0]).len(), 2);
    assert_eq!(names(&entries[1]).len(), 2);
}

// A union flattened into a struct case of a union that has a prefix.
#[test]
fn test_subfield_enum_parent_container_prefix() {
    let status = subfield_status();
    let plan = union(
        "ParentWithContainerPrefix",
        prefix("api_"),
        vec![struct_case(
            "Operation",
            vec![flattened("status", flatten()), plain("direct_field")],
        )],
    );
    let entries = vec![
        plan.write(
            "Operation",
            &[
                holds("status", status.write("TupleVariant", &[inner(subfield_nested())]).unwrap()),
                number("direct_field", 200),
            ],
        )
        .unwrap(),
        plan.write(
            "Operation",
            &[
                holds(
                    "status",
                    status
                        .write("StructVariant", &[text("timestamp", "2026-01-01T00:00:00Z")])
                        .unwrap(),
                ),
                number("direct_field", 400),
            ],
        )
        .unwrap(),
    ];
    assert_eq!(entries.len(), 2);

    // The prefix of the enclosing union does not reach the flattened union: the
    // child keeps its own names.
    assert!(has(&entries[0], "timestamp"));
    assert_eq!(metric(&entries[0], "api_direct_field").as_u64(), Some(200));

    assert!(has(&entries[1], "timestamp"));
    assert_eq!(metric(&entries[1], "api_direct_field").as_u64(), Some(400));
    assert!(!has(&entries[0], "api_timestamp"));
    assert!(!has(&entries[1], "api_timestamp"));
}

// A union within a union, both closed by value.
#[test]
fn test_enum_enum_subfield_owned() {
    let timestamp_wrapper = || {
        record("TimestampWrapper", subfield_owned(), vec![plain("timestamp")])
            .write(&[text("timestamp", "2026-01-01T00:00:00Z")])
    };
    let string_wrapper = record("StringWrapper", subfield_owned(), vec![plain("value")])
        .write(&[text("value", "test")]);
    let inner_status = union(
        "InnerStatus",
        subfield_owned(),
        vec![
            struct_case("Active", vec![plain("timestamp")]),
            tuple_case("Pending", flatten()),
        ],
    );
    let plan = union(
        "OuterOperation",
        root(),
        vec![
            struct_case("Process", vec![flattened("status", flatten())]),
            tuple_case("Execute", flatten()),
        ],
    );
    let entries = vec![
        plan.write(
            "Process",
            &[holds(
                "status",
                inner_status
                    .write("Active", &[text("timestamp", "2026-01-01T00:00:00Z")])
                    .unwrap(),
            )],
        )
        .unwrap(),
        plan.write(
            "Process",
            &[holds(
                "status",
                inner_status.write("Pending", &[inner(timestamp_wrapper())]).unwrap(),
            )],
        )
        .unwrap(),
        plan.write("Execute", &[inner(string_wrapper)]).unwrap(),
    ];
    assert_eq!(entries.len(), 3);

    assert!(has(&entries[0], "timestamp"));

    assert!(has(&entries[1], "timestamp"));

    assert_eq!(metric(&entries[2], "value"), Observation::Text("test".to_string()));
}

// A struct case whose field flattens a record that flattens another.
#[test]
fn test_struct_variant_nested_flatten() {
    let deep = record("DeepNested", root(), vec![plain("inner_value")])
        .write(&[number("inner_value", 10)]);
    let middle = record(
        "MiddleNested",
        root(),
        vec![flattened("deep", flatten_prefix("mid_")), plain("middle_value")],
    )
    .write(&[holds("deep", deep), number("middle_value", 20)]);
    let plan = union(
        "StructVariantNested",
        root(),
        vec![struct_case(
            "Variant",
            vec![flattened("middle", flatten_prefix("outer_")), plain("outer_value")],
        )],
    );
    let written =
        plan.write("Variant", &[holds("middle", middle), number("outer_value", 30)]).unwrap();

    // outer_ + mid_ + inner_value
    assert_eq!(metric(&written, "outer_mid_inner_value").as_u64(), Some(10));
    assert_eq!(metric(&written, "outer_middle_value").as_u64(), Some(20));
    assert_eq!(metric(&written, "outer_value").as_u64(), Some(30));
    assert_eq!(
        names(&written),
        vec![
            "outer_mid_inner_value".to_string(),
            "outer_middle_value".to_string(),
            "outer_value".to_string()
        ]
    );
}

// A prefix on the union and a prefix on the field of a tuple case: both stand
// before the names of the flattened schema, that of the union first.
#[test]
fn test_container_prefix_and_field_prefix() {
    let plan = union(
        "Both",
        RawRootAttributes { rename_all: NameStyle::KebabCase, ..prefix("api_") },
        vec![
            tuple_case("Exact", RawMetricsFieldAttrs {
                exact_prefix: Some(SpannedKv::new("V1:".to_string(), Span::new(25), Span::new(26))),
                ..flatten()
            }),
            tuple_case("Inflected", flatten_prefix("Nested")),
        ],
    );
    let written = plan.write("Exact", &[inner(nested_metrics(1))]).unwrap();
    assert_eq!(names(&written), vec!["api-V1:value"]);
    let written = plan.write("Inflected", &[inner(nested_metrics(2))]).unwrap();
    assert_eq!(names(&written), vec!["api-nested-value"]);

    let plan = union(
        "Both",
        exact_prefix("API@"),
        vec![tuple_case("Inflected", flatten_prefix("nested_"))],
    );
    let written = plan.write("Inflected", &[inner(nested_metrics(3))]).unwrap();
    assert_eq!(names(&written), vec!["API@nested_value"]);
}
