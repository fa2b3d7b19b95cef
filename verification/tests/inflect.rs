use metrique_schema::inflect::name_contains_dot;
use metrique_schema::inflect::name_contains_uninflectables;
use metrique_schema::inflect::name_ends_with_delimiter;
use metrique_schema::inflect::ensure_trailing;
use metrique_schema::inflect::NameStyle;

#[test]
fn test_inflect_prefix() {
    let kebab = NameStyle::KebabCase;
    let snake = NameStyle::SnakeCase;
    let pascal = NameStyle::PascalCase;

    assert_eq!(kebab.apply_prefix("Foo"), "foo-");
    assert_eq!(kebab.apply_prefix("foo"), "foo-");
    assert_eq!(kebab.apply_prefix("foo_"), "foo-");
    assert_eq!(kebab.apply_prefix("foo-"), "foo-");
    assert_eq!(kebab.apply_prefix("foo."), "foo-");

    assert_eq!(snake.apply_prefix("Foo"), "foo_");
    assert_eq!(snake.apply_prefix("foo"), "foo_");
    assert_eq!(snake.apply_prefix("foo_"), "foo_");
    assert_eq!(snake.apply_prefix("foo-"), "foo_");
    assert_eq!(snake.apply_prefix("foo."), "foo_");

    assert_eq!(pascal.apply_prefix("Foo"), "Foo");
    assert_eq!(pascal.apply_prefix("foo"), "Foo");
    assert_eq!(pascal.apply_prefix("foo_"), "Foo");
    assert_eq!(pascal.apply_prefix("foo-"), "Foo");
    assert_eq!(pascal.apply_prefix("foo."), "Foo");
}

#[test]
fn test_uninflectables() {
    assert_eq!(name_contains_uninflectables("foo-bar_baz"), None);
    assert_eq!(name_contains_uninflectables("foo:bar"), Some(':'));
    assert_eq!(name_contains_uninflectables("foo.bar"), Some('.'));
}

#[test]
fn test_delimiter() {
    assert!(name_ends_with_delimiter("foo-"));
    assert!(name_ends_with_delimiter("foo_"));
    assert!(!name_ends_with_delimiter("foo."));
    assert!(!name_ends_with_delimiter("foo"));
}

#[test]
fn test_delimiter_of_empty_name() {
    assert!(!name_ends_with_delimiter(""));
    assert!(name_ends_with_delimiter("_"));
    assert!(name_ends_with_delimiter("-"));
}

#[test]
fn test_uninflectables_first_of_several() {
    assert_eq!(name_contains_uninflectables("a@b:c"), Some('@'));
    assert_eq!(name_contains_uninflectables(""), None);
    assert_eq!(name_contains_uninflectables("AZaz09_-"), None);
    // Only the letters of the basic Latin alphabet inflect.
    assert_eq!(name_contains_uninflectables("überß9"), Some('ü'));
    assert_eq!(name_contains_uninflectables("a b"), Some(' '));
}

#[test]
fn test_contains_dot() {
    assert!(name_contains_dot("foo.bar"));
    assert!(name_contains_dot("."));
    assert!(!name_contains_dot("foo-bar"));
    assert!(!name_contains_dot(""));
}

#[test]
fn test_apply_each_style() {
    assert_eq!(NameStyle::PascalCase.apply("operation_name"), "OperationName");
    assert_eq!(NameStyle::SnakeCase.apply("OperationName"), "operation_name");
    assert_eq!(NameStyle::KebabCase.apply("operation_name"), "operation-name");
    assert_eq!(NameStyle::Preserve.apply("operation_Name"), "operation_Name");
}

#[test]
fn test_apply_prefix_preserve_is_verbatim() {
    assert_eq!(NameStyle::Preserve.apply_prefix("Foo"), "Foo");
    assert_eq!(NameStyle::Preserve.apply_prefix("foo_"), "foo_");
    assert_eq!(NameStyle::Preserve.apply_prefix(""), "");
}

#[test]
fn test_apply_prefix_of_nothing_is_the_delimiter() {
    assert_eq!(NameStyle::SnakeCase.apply_prefix(""), "_");
    assert_eq!(NameStyle::KebabCase.apply_prefix("--"), "-");
    assert_eq!(NameStyle::PascalCase.apply_prefix(""), "");
}

#[test]
fn test_ensure_trailing() {
    assert_eq!(ensure_trailing(String::from("foo"), '_'), "foo_");
    assert_eq!(ensure_trailing(String::from("foo_"), '_'), "foo_");
    assert_eq!(ensure_trailing(String::from("foo_"), '-'), "foo_-");
    assert_eq!(ensure_trailing(String::new(), '-'), "-");
}

#[test]
fn test_to_word() {
    assert_eq!(NameStyle::PascalCase.to_word(), "Pascal");
    assert_eq!(NameStyle::SnakeCase.to_word(), "Snake");
    assert_eq!(NameStyle::KebabCase.to_word(), "Kebab");
    assert_eq!(NameStyle::Preserve.to_word(), "Preserve");
}

#[test]
fn test_default_style_preserves() {
    assert_eq!(NameStyle::default(), NameStyle::Preserve);
}
