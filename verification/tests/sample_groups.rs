use metrique_schema::attrs::RawRootAttributes;
use metrique_schema::attrs::RootAttributes;
use metrique_schema::attrs::ValueAttributes;
use metrique_schema::enums::RawMetricsVariantAttrs;
use metrique_schema::enums::UnionInnerImpl;
use metrique_schema::input::Variant;
use metrique_schema::chain::make_binary_tree_chain;
use metrique_schema::chain::Chain;
use metrique_schema::close::CloseValue;
use metrique_schema::close::CloseValueRef;
use metrique_schema::emit::Content;
use metrique_schema::emit::Emitted;
use metrique_schema::emit::FieldValue;
use metrique_schema::emit::InflectableEntry;
use metrique_schema::emit::Observation;
use metrique_schema::emit::Tag;
use metrique_schema::emit::Written;
use metrique_schema::entry_impl::generate_sample_group_statements;
use metrique_schema::entry_impl::EntryImpl;
use metrique_schema::entry_impl::SampleGroupStatement;
use metrique_schema::field_attrs::RawMetricsFieldAttrs;
use metrique_schema::inflect::NameStyle;
use metrique_schema::input::Data;
use metrique_schema::input::DeriveInput;
use metrique_schema::input::Field;
use metrique_schema::input::Fields;
use metrique_schema::metrics::metrics;
use metrique_schema::metrics::Metrics;
use metrique_schema::metrics::Outcome;
use metrique_schema::source::Flag;
use metrique_schema::source::Span;
use metrique_schema::source::SpannedKv;
use metrique_schema::source::Syntax;
use metrique_schema::structs::parse_struct_fields;
use metrique_schema::structs::InnerImpl;
use metrique_schema::structs::Member;

fn items<T: Clone>(chain: &Chain<T>) -> Vec<T> {
    match chain {
        Chain::Empty => vec![],
        Chain::One(item) => vec![item.clone()],
        Chain::Chain(left, right) => {
            let mut all = items(left);
            all.extend(items(right));
            all
        }
    }
}

fn depth<T>(chain: &Chain<T>) -> usize {
    match chain {
        Chain::Empty | Chain::One(_) => 0,
        Chain::Chain(left, right) => 1 + depth(left).max(depth(right)),
    }
}

fn numbers(n: usize) -> Vec<Span> {
    (0..n).map(Span::new).collect()
}

#[test]
fn test_chain_of_none() {
    assert_eq!(make_binary_tree_chain(numbers(0)), Chain::Empty);
}

#[test]
fn test_chain_of_one() {
    assert_eq!(make_binary_tree_chain(numbers(1)), Chain::One(Span::new(0)));
}

#[test]
fn test_chain_of_two_and_three() {
    let one = |id: usize| Box::new(Chain::One(Span::new(id)));
    assert_eq!(make_binary_tree_chain(numbers(2)), Chain::Chain(one(0), one(1)));
    assert_eq!(
        make_binary_tree_chain(numbers(3)),
        Chain::Chain(one(0), Box::new(Chain::Chain(one(1), one(2))))
    );
}

#[test]
fn test_chain_keeps_order() {
    for n in [0, 1, 5, 33] {
        let chain = make_binary_tree_chain(numbers(n));
        assert_eq!(items(&chain), numbers(n), "{n} items");
    }
}

#[test]
fn test_chain_is_balanced() {
    assert_eq!(depth(&make_binary_tree_chain(numbers(5))), 3);
    assert_eq!(depth(&make_binary_tree_chain(numbers(32))), 5);
    assert_eq!(depth(&make_binary_tree_chain(numbers(33))), 6);
    assert_eq!(depth(&make_binary_tree_chain(numbers(1024))), 10);
}

fn tagged(name: &str, at: usize) -> Field {
    Field::named(
        name,
        Span::new(at),
        Syntax::new(1),
        RawMetricsFieldAttrs {
            sample_group: Flag::present(Span::new(1000 + at)),
            ..RawMetricsFieldAttrs::default()
        },
    )
}

fn plain(name: &str, at: usize) -> Field {
    Field::named(name, Span::new(at), Syntax::new(1), RawMetricsFieldAttrs::default())
}

fn tag_fields(sources: &Chain<SampleGroupStatement>) -> Vec<String> {
    fn walk(chain: &Chain<SampleGroupStatement>, out: &mut Vec<String>) {
        match chain {
            Chain::Empty => {}
            Chain::One(SampleGroupStatement::Tag { field: Member::Named(name), .. }) => {
                out.push(name.clone())
            }
            Chain::One(other) => panic!("not a tag: {:?}", other),
            Chain::Chain(left, right) => {
                walk(left, out);
                walk(right, out);
            }
        }
    }
    let mut out = vec![];
    walk(sources, &mut out);
    out
}

// The tags come in the order in which the fields declare them, however many
// there are.
#[test]
fn test_sample_groups_keep_declaration_order() {
    for n in [0usize, 1, 5, 33] {
        let mut fields = vec![];
        let mut expected = vec![];
        for i in 0..n {
            fields.push(plain(&format!("plain{i}"), 2 * i));
            fields.push(tagged(&format!("t{i}"), 2 * i + 1));
            expected.push(format!("t{i}"));
        }
        let parsed = parse_struct_fields(&fields).unwrap();
        let sources = generate_sample_group_statements(&parsed, &RootAttributes::default());
        assert_eq!(tag_fields(&sources), expected, "{n} tags");
        if n == 0 {
            assert_eq!(sources, Chain::Empty);
        }
    }
}

fn record(name: &str, root: RawRootAttributes, fields: Vec<Field>) -> EntryImpl {
    let input = DeriveInput::new(name, Span::new(1), Data::Struct(Fields::Named(fields)));
    match metrics(Ok(root), &input).outcome {
        Outcome::Generated(Metrics::Record(r)) => match r.inner_impl {
            InnerImpl::Entry(e) => e,
            other => panic!("not an entry: {:?}", other),
        },
        other => panic!("not generated: {:?}", other),
    }
}

fn text(name: &str, value: &str) -> FieldValue {
    FieldValue {
        member: Member::Named(name.to_string()),
        content: Content::Leaf(Observation::Text(value.to_string())),
    }
}

fn holds(name: &str, written: Written) -> FieldValue {
    FieldValue { member: Member::Named(name.to_string()), content: Content::Nested(written) }
}

fn tag(name: &str, value: &str) -> Tag {
    Tag { name: name.to_string(), value: Observation::Text(value.to_string()) }
}

fn nested_schema() -> Written {
    record(
        "Nested",
        RawRootAttributes::default(),
        vec![tagged("availability_zone", 2), plain("latency", 3)],
    )
    .write(&[text("availability_zone", "use1-az1"), text("latency", "fast")])
}

// A marked field is one tag at its name, and is still written as a value.
#[test]
fn test_sample_group_is_a_tag_and_a_value() {
    let written = nested_schema();
    assert_eq!(written.preserve.tags, vec![tag("availability_zone", "use1-az1")]);
    assert_eq!(written.pascal.tags, vec![tag("AvailabilityZone", "use1-az1")]);
    assert_eq!(written.kebab.tags, vec![tag("availability-zone", "use1-az1")]);
    assert_eq!(written.snake.tags, vec![tag("availability_zone", "use1-az1")]);
    assert_eq!(written.preserve.emitted.len(), 2);
}

// The tags of a flattened schema come under their own names: the prefix of the
// field that flattens it stands before its values only.
#[test]
fn test_sample_groups_of_a_flattened_schema_are_not_prefixed() {
    let plan = record(
        "Request",
        RawRootAttributes { rename_all: NameStyle::PascalCase, ..RawRootAttributes::default() },
        vec![
            tagged("operation", 2),
            Field::named(
                "nested",
                Span::new(3),
                Syntax::new(2),
                RawMetricsFieldAttrs {
                    flatten: Flag::present(Span::new(20)),
                    prefix: Some(SpannedKv::new("sub_".to_string(), Span::new(21), Span::new(22))),
                    ..RawMetricsFieldAttrs::default()
                },
            ),
            tagged("status", 4),
        ],
    );
    let written = plan.write(&[
        text("operation", "CountDucks"),
        holds("nested", nested_schema()),
        text("status", "ok"),
    ]);

    assert_eq!(
        written.preserve.tags,
        vec![
            tag("Operation", "CountDucks"),
            tag("AvailabilityZone", "use1-az1"),
            tag("Status", "ok")
        ]
    );
    let names: Vec<&str> = written
        .preserve
        .emitted
        .iter()
        .map(|e| match e {
            Emitted::Value { name, .. } => name.as_str(),
            other => panic!("not a value: {:?}", other),
        })
        .collect();
    assert_eq!(names, vec!["Operation", "SubAvailabilityZone", "SubLatency", "Status"]);
}

#[test]
fn test_entry_writes_itself_behind_a_prefix() {
    let written = nested_schema();
    let mut out = vec![Emitted::Timestamp(Observation::Unsigned(7))];
    InflectableEntry::write(&written, NameStyle::KebabCase, "zone-", &mut out);
    let value = |name: &str, v: &str| Emitted::Value {
        name: name.to_string(),
        fixed: false,
        value: Observation::Text(v.to_string()),
        format: None,
    };
    assert_eq!(
        out,
        vec![
            Emitted::Timestamp(Observation::Unsigned(7)),
            value("zone-availability-zone", "use1-az1"),
            value("zone-latency", "fast"),
        ]
    );
    assert_eq!(
        InflectableEntry::sample_group(&written, NameStyle::SnakeCase),
        vec![tag("availability_zone", "use1-az1")]
    );
}

fn close_entry<T: metrique_schema::emit::CloseEntry>(value: T) -> T::Closed {
    value.close()
}

#[test]
fn test_written_entry_closes_into_itself() {
    let written = nested_schema();
    assert_eq!(written.close_ref(), written);
    assert_eq!((&written).close(), written);
    assert_eq!(close_entry(&written), written);
    let copy = written.clone();
    assert_eq!(close_entry(written), copy);
}

#[test]
fn test_observation_as_number() {
    assert_eq!(Observation::Unsigned(42).as_u64(), Some(42));
    assert_eq!(Observation::Boolean(true).as_u64(), Some(1));
    assert_eq!(Observation::Boolean(false).as_u64(), Some(0));
    assert_eq!(Observation::Text("42".to_string()).as_u64(), None);
}

// A union that is a value is written as the name of its case, and as such it
// groups by its case where a record marks it.
#[test]
fn test_string_union_is_written_as_its_case() {
    let case = |name: &str| {
        Variant::new(name, Span::new(2), Fields::Unit, RawMetricsVariantAttrs::default())
    };
    let input = DeriveInput::new(
        "OperationType",
        Span::new(1),
        Data::Enum(vec![case("Read"), case("Write"), case("CountDucks")]),
    );
    let root = RawRootAttributes {
        value: Some(ValueAttributes { string: Flag::present(Span::new(3)) }),
        rename_all: NameStyle::SnakeCase,
        ..RawRootAttributes::default()
    };
    let operation_type = match metrics(Ok(root), &input).outcome {
        Outcome::Generated(Metrics::Union(u)) => match u.inner_impl {
            UnionInnerImpl::Value(v) => v,
            other => panic!("not a value: {:?}", other),
        },
        other => panic!("not generated: {:?}", other),
    };
    assert_eq!(operation_type.write("Read"), Some(Observation::Text("read".to_string())));
    assert_eq!(
        operation_type.write("CountDucks"),
        Some(Observation::Text("count_ducks".to_string()))
    );
    assert_eq!(operation_type.write("Delete"), None);

    let request = record(
        "RequestMetrics",
        RawRootAttributes { rename_all: NameStyle::PascalCase, ..RawRootAttributes::default() },
        vec![tagged("operation", 2), plain("success", 3)],
    );
    let written = request.write(&[
        FieldValue {
            member: Member::Named("operation".to_string()),
            content: Content::Leaf(operation_type.write("CountDucks").unwrap()),
        },
        FieldValue {
            member: Member::Named("success".to_string()),
            content: Content::Leaf(Observation::Boolean(true)),
        },
    ]);
    assert_eq!(written.preserve.tags, vec![tag("Operation", "count_ducks")]);
    assert_eq!(written.preserve.emitted.len(), 2);
}
