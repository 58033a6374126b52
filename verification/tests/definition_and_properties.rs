use flowproc::api::ProcessContext;
use flowproc::definition::{
    DeclarationError, ProcessorDefinition, Property, Relationship, StandardPropertyValidator,
};
use flowproc::level::{parse_log_level, LogLevel};
use flowproc::mock::{MockProcessContext, PropertyStore};
use flowproc::text::{parse_bool, str_eq, to_upper};

fn relationship(name: &str) -> Relationship {
    Relationship::new(name, "a route")
}

fn property(name: &str) -> Property {
    Property {
        name: name.to_string(),
        description: "a slot".to_string(),
        is_required: false,
        is_sensitive: false,
        supports_expr_lang: false,
        default_value: None,
        validator: StandardPropertyValidator::AlwaysValidValidator,
        allowed_values: Vec::new(),
    }
}

#[test]
fn initialize_rejects_duplicate_relationship_names() {
    let mut definition = ProcessorDefinition::new("ns", "class", "desc");

    let result = definition.initialize(
        vec![relationship("success"), relationship("success")],
        vec![property("P")],
    );

    assert_eq!(result, Err(DeclarationError::DuplicateRelationshipName));
    assert!(definition.relationships.is_empty());
    assert!(definition.properties.is_empty());
}

#[test]
fn initialize_rejects_duplicate_property_names() {
    let mut definition = ProcessorDefinition::new("ns", "class", "desc");

    let result = definition.initialize(
        vec![relationship("success"), relationship("failure")],
        vec![property("P"), property("P")],
    );

    assert_eq!(result, Err(DeclarationError::DuplicatePropertyName));
    assert!(definition.relationships.is_empty());
    assert!(definition.properties.is_empty());
}

#[test]
fn initialize_twice_with_same_declarations_is_identical() {
    let mut definition = ProcessorDefinition::new("ns", "class", "desc");

    let first = definition.initialize(
        vec![relationship("success"), relationship("failure")],
        vec![property("P"), property("Q")],
    );
    assert_eq!(first, Ok(()));
    let rel_names_once: Vec<String> = definition.relationships.iter().map(|r| r.name.clone()).collect();
    let prop_names_once: Vec<String> = definition.properties.iter().map(|p| p.name.clone()).collect();

    let second = definition.initialize(
        vec![relationship("success"), relationship("failure")],
        vec![property("P"), property("Q")],
    );
    assert_eq!(second, Ok(()));
    let rel_names_twice: Vec<String> = definition.relationships.iter().map(|r| r.name.clone()).collect();
    let prop_names_twice: Vec<String> = definition.properties.iter().map(|p| p.name.clone()).collect();

    assert_eq!(rel_names_once, rel_names_twice);
    assert_eq!(prop_names_once, prop_names_twice);
    assert_eq!(definition.relationships.len(), 2);
    assert_eq!(definition.properties.len(), 2);
}

#[test]
fn setters_replace_declarations() {
    let mut definition = ProcessorDefinition::new("ns", "class", "desc");

    assert_eq!(
        definition.set_supported_relationships(vec![relationship("old")]),
        Ok(())
    );
    assert_eq!(
        definition.set_supported_relationships(vec![relationship("new")]),
        Ok(())
    );
    assert_eq!(definition.relationships.len(), 1);
    assert_eq!(definition.relationships[0].name, "new");

    assert_eq!(
        definition.set_supported_properties(vec![property("A"), property("B")]),
        Ok(())
    );
    assert_eq!(definition.properties.len(), 2);

    assert_eq!(
        definition.set_supported_properties(vec![property("C"), property("C")]),
        Err(DeclarationError::DuplicatePropertyName)
    );
    assert_eq!(definition.properties.len(), 2);
    assert_eq!(definition.properties[0].name, "A");
}

#[test]
fn property_store_resolves_latest_value() {
    let mut store = PropertyStore::new();
    assert!(store.get("missing").is_none());

    store.insert("key".to_string(), "one".to_string());
    assert_eq!(store.get("key").unwrap(), "one");

    store.insert("key".to_string(), "two".to_string());
    assert_eq!(store.get("key").unwrap(), "two");

    store.insert("other".to_string(), "three".to_string());
    assert_eq!(store.get("key").unwrap(), "two");
    assert_eq!(store.get("other").unwrap(), "three");
}

#[test]
fn context_returns_configured_values_only() {
    let mut context = MockProcessContext::new();
    context
        .properties
        .insert("Greeting".to_string(), "hello".to_string());

    assert_eq!(context.get_property("Greeting", None).unwrap(), "hello");
    assert!(context.get_property("Missing", None).is_none());
}

#[test]
fn log_level_names_parse_exactly() {
    assert_eq!(parse_log_level("trace"), Some(LogLevel::Trace));
    assert_eq!(parse_log_level("debug"), Some(LogLevel::Debug));
    assert_eq!(parse_log_level("info"), Some(LogLevel::Info));
    assert_eq!(parse_log_level("warn"), Some(LogLevel::Warn));
    assert_eq!(parse_log_level("error"), Some(LogLevel::Error));
    assert_eq!(parse_log_level("Info"), None);
    assert_eq!(parse_log_level(""), None);
    assert_eq!(parse_log_level("fatal"), None);
}

#[test]
fn severity_ranks_are_ordered() {
    assert!(LogLevel::Trace.rank() < LogLevel::Debug.rank());
    assert!(LogLevel::Debug.rank() < LogLevel::Info.rank());
    assert!(LogLevel::Info.rank() < LogLevel::Warn.rank());
    assert!(LogLevel::Warn.rank() < LogLevel::Error.rank());
    assert!(LogLevel::Error.at_least(LogLevel::Info));
    assert!(LogLevel::Info.at_least(LogLevel::Info));
    assert!(!LogLevel::Trace.at_least(LogLevel::Info));
}

#[test]
fn bool_values_parse_exactly() {
    assert_eq!(parse_bool("true"), Some(true));
    assert_eq!(parse_bool("false"), Some(false));
    assert_eq!(parse_bool("TRUE"), None);
    assert_eq!(parse_bool(""), None);
}

#[test]
fn str_eq_compares_contents() {
    assert!(str_eq("abc", "abc"));
    assert!(!str_eq("abc", "abd"));
    assert!(!str_eq("abc", "abcd"));
    assert!(str_eq("", ""));
}

#[test]
fn to_upper_uppercases() {
    assert_eq!(to_upper("Hello, World!"), "HELLO, WORLD!");
    assert_eq!(to_upper("already UP 123"), "ALREADY UP 123");
    assert_eq!(to_upper(""), "");
}
