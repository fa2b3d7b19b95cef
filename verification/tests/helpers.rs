use metrique_schema::attrs::ConfigurationField;
use metrique_schema::chain::make_binary_tree_chain;
use metrique_schema::chain::Chain;
use metrique_schema::entry_impl::binds_by_place;
use metrique_schema::entry_impl::bound_members;
use metrique_schema::entry_impl::contains_member;
use metrique_schema::entry_impl::distinct_members;
use metrique_schema::entry_impl::write_members;
use metrique_schema::entry_impl::SampleGroupStatement;
use metrique_schema::entry_impl::WriteStatement;
use metrique_schema::attrs::get_field_flag;
use metrique_schema::attrs::get_field_option;
use metrique_schema::attrs::set_exclusive;
use metrique_schema::attrs::validate_name;
use metrique_schema::attrs::MetricMode;
use metrique_schema::attrs::OwnershipKind;
use metrique_schema::attrs::Prefix;
use metrique_schema::attrs::RootAttributes;
use metrique_schema::close_impl::generate_close_value_impls;
use metrique_schema::close_impl::generate_on_drop_wrapper;
use metrique_schema::close_impl::CloseBody;
use metrique_schema::close_impl::CloseValueImpls;
use metrique_schema::close_impl::OnDropWrapper;
use metrique_schema::emit::find;
use metrique_schema::emit::lookup;
use metrique_schema::emit::member_eq;
use metrique_schema::emit::pick;
use metrique_schema::emit::resolve_inflect;
use metrique_schema::emit::resolve_prefix;
use metrique_schema::emit::select;
use metrique_schema::emit::Content;
use metrique_schema::emit::FieldValue;
use metrique_schema::emit::Observation;
use metrique_schema::entry_impl::append_prefix_to_ns;
use metrique_schema::entry_impl::const_str;
use metrique_schema::entry_impl::const_str_struct_name;
use metrique_schema::entry_impl::extend_namespace;
use metrique_schema::entry_impl::make_const_str_noinflect;
use metrique_schema::entry_impl::make_inflect;
use metrique_schema::entry_impl::make_inflect_for;
use metrique_schema::entry_impl::make_ns;
use metrique_schema::entry_impl::ConstStr;
use metrique_schema::entry_impl::InflectKind;
use metrique_schema::entry_impl::InflectName;
use metrique_schema::entry_impl::NameTable;
use metrique_schema::entry_impl::Namespace;
use metrique_schema::entry_impl::Ns;
use metrique_schema::entry_impl::NsBase;
use metrique_schema::entry_impl::PrefixArg;
use metrique_schema::field_attrs::MetricsFieldAttrs;
use metrique_schema::field_attrs::MetricsFieldKind;
use metrique_schema::inflect::HasInflectableName;
use metrique_schema::inflect::NameStyle;
use metrique_schema::source::AttrName;
use metrique_schema::source::Attribute;
use metrique_schema::source::Flag;
use metrique_schema::source::Span;
use metrique_schema::source::SpannedKv;
use metrique_schema::source::Syntax;
use metrique_schema::structs::has_named_fields;
use metrique_schema::structs::wrap_fields_into_struct_decl;
use metrique_schema::structs::CloseField;
use metrique_schema::structs::CoreField;
use metrique_schema::structs::EntryField;
use metrique_schema::structs::EntryType;
use metrique_schema::structs::Member;
use metrique_schema::structs::MetricsField;
use metrique_schema::structs::StructBody;
use metrique_schema::text::joined;
use metrique_schema::text::contains_char;
use metrique_schema::text::is_ascii_alphanumeric;
use metrique_schema::text::last_char;
use metrique_schema::text::str_eq;
use metrique_schema::value_impl::format_value;
use metrique_schema::value_impl::ValueExpr;

fn at(id: usize) -> Span {
    Span::new(id)
}

fn named(name: &str) -> Member {
    Member::Named(name.to_string())
}

fn leaf_field(name: &str, kind: MetricsFieldKind, close: bool) -> MetricsField {
    MetricsField {
        vis: Syntax::new(1),
        ident: named(name),
        span: at(10),
        ty: Syntax::new(2),
        external_attrs: vec![Attribute::new("doc", Syntax::new(3))],
        attrs: MetricsFieldAttrs { close, kind },
    }
}

fn plain_kind() -> MetricsFieldKind {
    MetricsFieldKind::Field { unit: None, name: None, format: None, sample_group: None }
}

#[test]
fn test_text_helpers() {
    assert!(str_eq("metrics", "metrics"));
    assert!(!str_eq("metrics", "metric"));
    assert!(str_eq("", ""));
    assert_eq!(joined("foo", "Bar"), "fooBar");
    assert_eq!(joined("", ""), "");
    assert!(contains_char("a b", ' '));
    assert!(!contains_char("", ' '));
    assert_eq!(last_char("abc"), Some('c'));
    assert_eq!(last_char("é"), Some('é'));
    assert_eq!(last_char(""), None);
}

#[test]
fn test_basic_latin_letters_and_digits() {
    for c in ['a', 'm', 'z', 'A', 'M', 'Z', '0', '5', '9'] {
        assert!(is_ascii_alphanumeric(c), "{c}");
    }
    for c in ['_', '-', '.', ' ', '@', '[', '`', '{', '/', ':', 'é', 'ß', '٣'] {
        assert!(!is_ascii_alphanumeric(c), "{c}");
    }
}

#[test]
fn test_set_exclusive() {
    assert_eq!(
        set_exclusive(MetricMode::Subfield, AttrName::Subfield, None, &Flag::present(at(1))),
        Ok(Some((MetricMode::Subfield, AttrName::Subfield)))
    );
    assert_eq!(
        set_exclusive(MetricMode::Subfield, AttrName::Subfield, None, &Flag::absent()),
        Ok(None)
    );
    let existing = Some((MetricMode::Value, AttrName::Value));
    assert_eq!(
        set_exclusive(MetricMode::Subfield, AttrName::Subfield, existing, &Flag::absent()),
        Ok(existing)
    );
    let refused =
        set_exclusive(MetricMode::Subfield, AttrName::Subfield, existing, &Flag::present(at(2)))
            .unwrap_err();
    assert_eq!(refused.message, "cannot combine `value` with `subfield`");
    assert_eq!(refused.span, at(2));
    assert_eq!(refused.conflict, Some((AttrName::Value, AttrName::Subfield)));
}

#[test]
fn test_get_field_option_and_flag() {
    let none: Option<(u8, AttrName)> = None;
    let flatten = Some((0u8, AttrName::Flatten));
    let unit = Some(SpannedKv::new(Syntax::new(4), at(5), at(6)));
    let absent: Option<SpannedKv<Syntax>> = None;

    assert_eq!(get_field_option(AttrName::Unit, &none, &unit), Ok(Some(&Syntax::new(4))));
    assert_eq!(get_field_option(AttrName::Unit, &none, &absent), Ok(None));
    assert_eq!(get_field_option(AttrName::Unit, &flatten, &absent), Ok(None));
    let refused = get_field_option(AttrName::Unit, &flatten, &unit).unwrap_err();
    assert_eq!(refused.message, "cannot combine `flatten` with `unit`");
    assert_eq!(refused.span, at(5));

    assert_eq!(get_field_flag(AttrName::SampleGroup, &none, &Flag::present(at(7))), Ok(Some(at(7))));
    assert_eq!(get_field_flag(AttrName::SampleGroup, &none, &Flag::absent()), Ok(None));
    assert_eq!(get_field_flag(AttrName::SampleGroup, &flatten, &Flag::absent()), Ok(None));
    let refused =
        get_field_flag(AttrName::SampleGroup, &flatten, &Flag::present(at(7))).unwrap_err();
    assert_eq!(refused.message, "cannot combine `flatten` with `sample_group`");
    assert_eq!(refused.span, at(7));
}

#[test]
fn test_validate_name() {
    let good = SpannedKv::new("NDucks".to_string(), at(1), at(2));
    assert_eq!(validate_name(&good), Ok(&good));
    let empty = SpannedKv::new(String::new(), at(1), at(2));
    let refused = validate_name(&empty).unwrap_err();
    assert_eq!(refused.message, "invalid name: name field must not be empty");
    assert_eq!(refused.span, at(2));
}

#[test]
fn test_field_names() {
    let plain = leaf_field("number_of_ducks", plain_kind(), true);
    assert_eq!(plain.name_override(), None);
    assert_eq!(plain.name(), "number_of_ducks");
    let renamed = leaf_field(
        "number_of_ducks",
        MetricsFieldKind::Field {
            unit: None,
            name: Some("NDucks".to_string()),
            format: None,
            sample_group: None,
        },
        true,
    );
    assert_eq!(renamed.name_override(), Some("NDucks"));
    assert_eq!(renamed.name(), "number_of_ducks");
    let flattened =
        leaf_field("sub", MetricsFieldKind::Flatten { span: at(1), prefix: None }, true);
    assert_eq!(flattened.name_override(), None);
}

#[test]
fn test_field_plans() {
    let unit = Syntax::new(9);
    let field = leaf_field(
        "latency",
        MetricsFieldKind::Field { unit: Some(unit), name: None, format: None, sample_group: None },
        true,
    );
    assert_eq!(field.unit(), Some(unit));
    assert!(!field.is_ignored());
    assert_eq!(
        field.core_field(true),
        CoreField {
            external_attrs: vec![Attribute::new("doc", Syntax::new(3))],
            vis: Syntax::new(1),
            ident: Some(named("latency")),
            ty: Syntax::new(2),
        }
    );
    assert_eq!(field.core_field(false).ident, None);
    assert_eq!(
        field.entry_field(true),
        Some(EntryField {
            ident: Some(named("latency")),
            ty: EntryType { declared: Syntax::new(2), closed: true, unit: Some(unit) },
            span: at(10),
        })
    );
    assert_eq!(field.entry_field(false).unwrap().ident, None);
    assert_eq!(
        field.close_value(OwnershipKind::ByRef),
        CloseField {
            ident: named("latency"),
            ownership: OwnershipKind::ByRef,
            close: true,
            unit: Some(unit),
            span: at(10),
        }
    );

    let ignored = leaf_field("skipped", MetricsFieldKind::Ignore(at(1)), true);
    assert!(ignored.is_ignored());
    assert_eq!(ignored.entry_field(true), None);
    assert_eq!(ignored.unit(), None);

    let timestamp = leaf_field("timestamp", MetricsFieldKind::Timestamp(at(1)), false);
    assert_eq!(
        timestamp.entry_field(true).unwrap().ty,
        EntryType { declared: Syntax::new(2), closed: false, unit: None }
    );
    assert!(!timestamp.close_value(OwnershipKind::ByValue).close);
}

#[test]
fn test_named_fields() {
    let unnamed = MetricsField { ident: Member::Unnamed(0), ..leaf_field("x", plain_kind(), true) };
    assert!(!has_named_fields(&[]));
    assert!(!has_named_fields(&[unnamed]));
    let unnamed = MetricsField { ident: Member::Unnamed(0), ..leaf_field("x", plain_kind(), true) };
    assert!(has_named_fields(&[unnamed, leaf_field("a", plain_kind(), true)]));
    assert_eq!(
        wrap_fields_into_struct_decl(true, vec![1u8, 2]),
        StructBody { named: true, fields: vec![1u8, 2] }
    );
}

#[test]
fn test_namespace_of_a_schema() {
    assert_eq!(make_ns(NameStyle::Preserve, at(1)), Ns { base: NsBase::Inherit, span: at(1) });
    assert_eq!(make_ns(NameStyle::PascalCase, at(2)), Ns { base: NsBase::PascalCase, span: at(2) });
    assert_eq!(make_ns(NameStyle::SnakeCase, at(3)), Ns { base: NsBase::SnakeCase, span: at(3) });
    assert_eq!(make_ns(NameStyle::KebabCase, at(4)), Ns { base: NsBase::KebabCase, span: at(4) });

    for style in
        [NameStyle::Preserve, NameStyle::PascalCase, NameStyle::SnakeCase, NameStyle::KebabCase]
    {
        assert_eq!(select(NsBase::Inherit, style), style);
        assert_eq!(select(NsBase::PascalCase, style), NameStyle::PascalCase);
        assert_eq!(select(NsBase::SnakeCase, style), NameStyle::SnakeCase);
        assert_eq!(select(NsBase::KebabCase, style), NameStyle::KebabCase);
    }
}

fn table() -> NameTable {
    NameTable {
        preserve: "a_b".to_string(),
        pascal: "AB".to_string(),
        snake: "a_b".to_string(),
        kebab: "a-b".to_string(),
    }
}

#[test]
fn test_constants_of_a_table() {
    assert_eq!(
        const_str("aPascal", "AB"),
        ConstStr { ident: "aPascal".to_string(), value: "AB".to_string() }
    );
    let field = leaf_field("a_b", plain_kind(), true);
    assert_eq!(const_str_struct_name(NameStyle::Preserve, &field), "a_bPreserve");
    assert_eq!(const_str_struct_name(NameStyle::KebabCase, &field), "a_bKebab");

    let ns = Ns { base: NsBase::SnakeCase, span: at(1) };
    let (extra, name) = make_inflect(&ns, InflectKind::Inflect, &table(), &field);
    assert_eq!(
        extra,
        vec![
            const_str("a_bPreserve", "a_b"),
            const_str("a_bKebab", "a-b"),
            const_str("a_bPascal", "AB"),
            const_str("a_bSnake", "a_b"),
        ]
    );
    assert_eq!(
        name,
        InflectName {
            ns,
            inflect: InflectKind::Inflect,
            name_ident: "a_bPreserve".to_string(),
            name_pascal: "a_bPascal".to_string(),
            name_snake: "a_bSnake".to_string(),
            name_kebab: "a_bKebab".to_string(),
        }
    );
    assert_eq!(make_inflect_for(&ns, InflectKind::Inflect, &table(), "a_b"), (extra, name));

    assert_eq!(
        make_const_str_noinflect("API@".to_string(), "nested"),
        (vec![const_str("nestedPreserve", "API@")], "nestedPreserve".to_string())
    );
    assert_eq!(table().under(NameStyle::KebabCase), "a-b");
    assert_eq!(table().under(NameStyle::PascalCase), "AB");
}

#[test]
fn test_resolving_constants() {
    let ns = Ns { base: NsBase::Inherit, span: at(1) };
    let (extra, name) = make_inflect_for(&ns, InflectKind::Inflect, &table(), "f");
    assert_eq!(pick(&name, NameStyle::KebabCase), "fKebab");
    assert_eq!(pick(&name, NameStyle::Preserve), "fPreserve");
    assert_eq!(lookup(&extra, "fPascal"), Some("AB"));
    assert_eq!(lookup(&extra, "fOther"), None);
    assert_eq!(lookup(&[], "fPascal"), None);
    // The first constant of a name counts.
    let twice = vec![const_str("x", "1"), const_str("x", "2")];
    assert_eq!(lookup(&twice, "x"), Some("1"));
    assert_eq!(resolve_inflect(&name, &extra, NameStyle::KebabCase), Some("a-b"));
    assert_eq!(resolve_inflect(&name, &extra, NameStyle::Preserve), Some("a_b"));
    assert_eq!(resolve_inflect(&name, &[], NameStyle::Preserve), None);

    // A schema with a style of its own resolves in that style, whatever is handed down.
    let pascal = Ns { base: NsBase::PascalCase, span: at(1) };
    let (extra, name) = make_inflect_for(&pascal, InflectKind::Inflect, &table(), "f");
    assert_eq!(resolve_inflect(&name, &extra, NameStyle::KebabCase), Some("AB"));
}

#[test]
fn test_extending_a_namespace() {
    let ns = Ns { base: NsBase::Inherit, span: at(1) };
    let plain = || Namespace { base: ns, prefixes: vec![] };

    let (extra, same) = extend_namespace(plain(), &None, "f", at(2));
    assert_eq!(extra, vec![]);
    assert_eq!(same, plain());
    assert_eq!(resolve_prefix(&same, &extra, NameStyle::SnakeCase), Some(String::new()));

    let (extra, exact) =
        extend_namespace(plain(), &Some(Prefix::Exact("API@".to_string())), "f", at(2));
    assert_eq!(extra, vec![const_str("fPreserve", "API@")]);
    assert_eq!(
        exact.prefixes,
        vec![PrefixArg::Exact { ident: "fPreserve".to_string(), span: at(2) }]
    );
    assert_eq!(resolve_prefix(&exact, &extra, NameStyle::SnakeCase), Some("API@".to_string()));

    let inflectable = Some(Prefix::Inflectable { prefix: "Sub".to_string() });
    let (more, both) = extend_namespace(exact, &inflectable, "g", at(3));
    assert_eq!(both.prefixes.len(), 2);
    let mut all = extra;
    all.extend(more);
    assert_eq!(resolve_prefix(&both, &all, NameStyle::SnakeCase), Some("API@sub_".to_string()));
    assert_eq!(resolve_prefix(&both, &all, NameStyle::PascalCase), Some("API@Sub".to_string()));
    // A constant that is not declared leaves the prefix unresolved.
    assert_eq!(resolve_prefix(&both, &[], NameStyle::PascalCase), None);

    let (kept, appended) = append_prefix_to_ns(
        plain(),
        vec![const_str("c", "v")],
        PrefixArg::Exact { ident: "c".to_string(), span: at(4) },
    );
    assert_eq!(kept, vec![const_str("c", "v")]);
    assert_eq!(
        appended,
        Namespace {
            base: ns,
            prefixes: vec![PrefixArg::Exact { ident: "c".to_string(), span: at(4) }]
        }
    );
}

#[test]
fn test_finding_a_field() {
    let fields = vec![
        FieldValue { member: named("a"), content: Content::Leaf(Observation::Unsigned(1)) },
        FieldValue { member: Member::Unnamed(0), content: Content::Leaf(Observation::Unsigned(2)) },
        FieldValue { member: named("a"), content: Content::Leaf(Observation::Unsigned(3)) },
    ];
    assert_eq!(find(&fields, &named("a")), Some(&Content::Leaf(Observation::Unsigned(1))));
    assert_eq!(find(&fields, &Member::Unnamed(0)), Some(&Content::Leaf(Observation::Unsigned(2))));
    assert_eq!(find(&fields, &Member::Unnamed(1)), None);
    assert_eq!(find(&fields, &named("b")), None);
    assert!(member_eq(&named("a"), &named("a")));
    assert!(!member_eq(&named("a"), &named("b")));
    assert!(!member_eq(&named("0"), &Member::Unnamed(0)));
    assert!(member_eq(&Member::Unnamed(3), &Member::Unnamed(3)));
}

#[test]
fn test_format_value() {
    assert_eq!(
        format_value(&Some(Syntax::new(5)), at(1), named("a")),
        ValueExpr { field: named("a"), format: Some(Syntax::new(5)), span: at(1) }
    );
    assert_eq!(
        format_value(&None, at(1), Member::Unnamed(2)),
        ValueExpr { field: Member::Unnamed(2), format: None, span: at(1) }
    );
}

#[test]
fn test_close_value_impls_of_each_mode() {
    let plan = |mode: MetricMode| {
        generate_close_value_impls(
            &RootAttributes { mode, ..RootAttributes::default() },
            "Request",
            "RequestEntry",
            CloseBody::Union(vec![]),
        )
    };
    let expected = |ownership: OwnershipKind, by_value_proxy: bool| CloseValueImpls {
        ownership,
        base_ty: "Request".to_string(),
        closed_ty: "RequestEntry".to_string(),
        body: CloseBody::Union(vec![]),
        by_value_proxy,
    };
    assert_eq!(plan(MetricMode::RootEntry), expected(OwnershipKind::ByValue, false));
    assert_eq!(plan(MetricMode::SubfieldOwned), expected(OwnershipKind::ByValue, false));
    // Where a schema is closed by reference, closing by value hands on to that.
    assert_eq!(plan(MetricMode::Subfield), expected(OwnershipKind::ByRef, true));
    assert_eq!(plan(MetricMode::Value), expected(OwnershipKind::ByRef, true));
    assert_eq!(plan(MetricMode::ValueString), expected(OwnershipKind::ByRef, true));
}

#[test]
fn test_on_drop_wrapper() {
    assert_eq!(
        generate_on_drop_wrapper(Syntax::new(1), "RGuard", "R", "REntry", "RHandle"),
        OnDropWrapper {
            vis: Syntax::new(1),
            guard: "RGuard".to_string(),
            inner: "R".to_string(),
            target: "REntry".to_string(),
            handle: "RHandle".to_string(),
        }
    );
}

#[test]
fn test_fields_that_an_arm_binds() {
    let flatten = |name: Member| WriteStatement::Flatten {
        field: name,
        span: at(1),
        extra: vec![],
        ns: Namespace { base: Ns { base: NsBase::Inherit, span: at(1) }, prefixes: vec![] },
    };
    let tag = |name: &str| SampleGroupStatement::Tag {
        field: named(name),
        span: at(2),
        extra: vec![],
        name: make_inflect_for(
            &Ns { base: NsBase::Inherit, span: at(2) },
            InflectKind::Inflect,
            &table(),
            name,
        )
        .1,
    };
    let writes = vec![
        WriteStatement::Configuration { config: ConfigurationField::EntryDimensions },
        WriteStatement::Timestamp { field: named("t"), span: at(3) },
        flatten(named("a")),
        WriteStatement::Value {
            span: at(4),
            extra: vec![],
            name: make_inflect_for(
                &Ns { base: NsBase::Inherit, span: at(4) },
                InflectKind::Inflect,
                &table(),
                "b",
            )
            .1,
            value: ValueExpr { field: named("b"), format: None, span: at(4) },
        },
        WriteStatement::FlattenEntry { field: named("a"), span: at(5) },
    ];
    let sources = make_binary_tree_chain(vec![
        tag("b"),
        tag("c"),
        tag("t"),
        SampleGroupStatement::FlattenEntry { field: named("d"), span: at(6) },
    ]);
    assert_eq!(
        write_members(&writes),
        vec![named("t"), named("a"), named("b"), named("a")]
    );
    // Each field once, at the place at which it is first read.
    assert_eq!(
        bound_members(&writes, &sources),
        vec![named("t"), named("a"), named("b"), named("c"), named("d")]
    );
    assert_eq!(bound_members(&[], &Chain::Empty), vec![]);
    assert!(!binds_by_place(&bound_members(&writes, &sources)));

    let tuple = vec![flatten(Member::Unnamed(0))];
    let tuple_sources = Chain::One(SampleGroupStatement::Flatten {
        field: Member::Unnamed(0),
        span: at(7),
        ns: Ns { base: NsBase::Inherit, span: at(7) },
    });
    assert_eq!(bound_members(&tuple, &tuple_sources), vec![Member::Unnamed(0)]);
    assert!(binds_by_place(&[Member::Unnamed(0)]));
    assert!(binds_by_place(&[named("a"), Member::Unnamed(1)]));
    assert!(!binds_by_place(&[]));

    assert_eq!(
        distinct_members(&[named("a"), named("b"), named("a"), Member::Unnamed(0), named("b")]),
        vec![named("a"), named("b"), Member::Unnamed(0)]
    );
    assert!(contains_member(&[named("a"), Member::Unnamed(0)], &Member::Unnamed(0)));
    assert!(!contains_member(&[named("a")], &named("b")));
}
