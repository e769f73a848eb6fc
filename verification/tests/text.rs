use inti::config::{default_parallel, default_verbose, Config};
use inti::text::{characters, contains, join_lines, no_lines, one_line, render_decimal, same_text};
use inti::value::ConfigValue;

#[test]
fn decimal_of_small_and_large_numbers() {
    assert_eq!(render_decimal(0), "0");
    assert_eq!(render_decimal(7), "7");
    assert_eq!(render_decimal(10), "10");
    assert_eq!(render_decimal(1234567890), "1234567890");
    assert_eq!(render_decimal(usize::MAX), usize::MAX.to_string());
}

#[test]
fn contains_finds_a_text_anywhere() {
    assert!(contains("install ok installed", "install ok installed"));
    assert!(contains("'install ok installed'", "install ok installed"));
    assert!(contains("abc", ""));
    assert!(contains("", ""));
    assert!(contains("abc", "c"));
    assert!(contains("aab", "ab"));
    assert!(!contains("abc", "abcd"));
    assert!(!contains("", "a"));
    assert!(!contains("install ok", "install ok installed"));
    assert!(contains("grüße", "üß"));
}

#[test]
fn characters_are_not_bytes() {
    assert_eq!(characters("aé"), vec!['a', 'é']);
    assert!(characters("").is_empty());
    assert!(same_text("a", "a"));
    assert!(!same_text("a", "b"));
}

#[test]
fn lines_are_joined_in_order() {
    assert!(no_lines().is_empty());
    assert_eq!(one_line("a".to_string()), vec!["a"]);
    assert_eq!(
        join_lines(vec!["a".to_string()], vec!["b".to_string(), "c".to_string()]),
        vec!["a", "b", "c"]
    );
}

#[test]
fn settings_default_to_off() {
    assert!(!default_parallel());
    assert!(!default_verbose());
    assert_eq!(Config::default(), Config { parallel: false, verbose: false });
    let context = Config { parallel: true, verbose: true }.context();
    assert!(context.verbose);
    assert!(!context.dry_run);
    assert_eq!(context.working_directory, ".");
    assert!(context.environment.is_empty());
}

#[test]
fn values_are_found_and_copied() {
    let value = ConfigValue::Table(vec![
        ("a".to_string(), ConfigValue::List(vec![ConfigValue::Bool(true), ConfigValue::Null])),
        ("b".to_string(), ConfigValue::Integer(-3)),
        ("a".to_string(), ConfigValue::Unsupported),
    ]);
    assert_eq!(
        value.field("a"),
        Some(&ConfigValue::List(vec![ConfigValue::Bool(true), ConfigValue::Null]))
    );
    assert_eq!(value.field("b"), Some(&ConfigValue::Integer(-3)));
    assert_eq!(value.field("c"), None);
    assert_eq!(ConfigValue::Text("a".to_string()).field("a"), None);
    assert_eq!(value.duplicate(), value);
}

#[test]
fn fields_are_read_by_kind() {
    let value = ConfigValue::Table(vec![
        ("name".to_string(), ConfigValue::Text("x".to_string())),
        ("none".to_string(), ConfigValue::Null),
        ("flag".to_string(), ConfigValue::Bool(false)),
        (
            "many".to_string(),
            ConfigValue::List(vec![ConfigValue::Text("a".to_string()), ConfigValue::Text("b".to_string())]),
        ),
        ("empty".to_string(), ConfigValue::List(Vec::new())),
    ]);
    assert!(value.is_table());
    assert!(!ConfigValue::Null.is_table());
    assert_eq!(value.required_text("name").unwrap(), "x");
    assert!(value.required_text("none").is_err());
    assert!(value.required_text("gone").is_err());
    assert_eq!(value.optional_text("name").unwrap().unwrap(), "x");
    assert_eq!(value.optional_text("none"), Ok(None));
    assert_eq!(value.optional_text("gone"), Ok(None));
    assert!(value.optional_text("flag").is_err());
    assert_eq!(value.optional_texts("many"), Ok(Some(vec!["a".to_string(), "b".to_string()])));
    assert_eq!(value.optional_texts("empty"), Ok(Some(Vec::new())));
    assert_eq!(value.optional_texts("none"), Ok(None));
    assert!(value.optional_texts("name").is_err());
    assert_eq!(value.optional("flag"), Some(&ConfigValue::Bool(false)));
    assert_eq!(value.optional("none"), None);
}
