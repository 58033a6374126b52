use flowproc::api::Processor;
use flowproc::mock::{MockLogger, MockProcessContext, MockProcessSession, MockProcessSessionFactory};
use flowproc::processors::simple_source_processor::{
    create_simple_source_processor_definition, SimpleSourceProcessor,
};
use flowproc::processors::success_relationship;

#[test]
fn tests_simple_test() {
    let mut processor = SimpleSourceProcessor::new(MockLogger::new());
    let mut context = MockProcessContext::new();
    context
        .properties
        .insert("Content".to_string(), "Hello, World!".to_string());
    let mut session_factory = MockProcessSessionFactory {};

    processor.on_schedule(&context, &mut session_factory);

    {
        let mut session = MockProcessSession::new();
        processor.on_trigger(&context, &mut session);
        assert_eq!(
            session
                .transferred_flow_files
                .get(success_relationship().name.as_str())
                .unwrap()
                .content,
            "Hello, World!"
        )
    }
}

#[test]
fn quiet_source_emits_content_as_configured() {
    let mut processor = SimpleSourceProcessor::new(MockLogger::new());
    let mut context = MockProcessContext::new();
    context
        .properties
        .insert("Content".to_string(), "Hello, World!".to_string());
    context
        .properties
        .insert("Shouting".to_string(), "false".to_string());
    let mut session_factory = MockProcessSessionFactory {};

    processor.on_schedule(&context, &mut session_factory);

    let mut session = MockProcessSession::new();
    processor.on_trigger(&context, &mut session);
    assert_eq!(
        session.transferred_flow_files.get("success").unwrap().content,
        "Hello, World!"
    );
}

#[test]
fn shouting_source_uppercases_content() {
    let mut processor = SimpleSourceProcessor::new(MockLogger::new());
    let mut context = MockProcessContext::new();
    context
        .properties
        .insert("Content".to_string(), "Hello, World!".to_string());
    context
        .properties
        .insert("Shouting".to_string(), "true".to_string());
    let mut session_factory = MockProcessSessionFactory {};

    processor.on_schedule(&context, &mut session_factory);

    let mut session = MockProcessSession::new();
    processor.on_trigger(&context, &mut session);
    assert_eq!(
        session.transferred_flow_files.get("success").unwrap().content,
        "HELLO, WORLD!"
    );
}

#[test]
fn unset_content_falls_back_to_declared_default() {
    let mut processor = SimpleSourceProcessor::new(MockLogger::new());
    let context = MockProcessContext::new();
    let mut session_factory = MockProcessSessionFactory {};

    processor.on_schedule(&context, &mut session_factory);

    assert_eq!(processor.content, "Something default to write");

    let mut session = MockProcessSession::new();
    processor.on_trigger(&context, &mut session);
    assert_eq!(
        session.transferred_flow_files.get("success").unwrap().content,
        "Something default to write"
    );
}

#[test]
fn unparsable_shouting_stays_quiet() {
    let mut processor = SimpleSourceProcessor::new(MockLogger::new());
    let mut context = MockProcessContext::new();
    context
        .properties
        .insert("Content".to_string(), "Hello, World!".to_string());
    context
        .properties
        .insert("Shouting".to_string(), "loudly".to_string());
    let mut session_factory = MockProcessSessionFactory {};

    processor.on_schedule(&context, &mut session_factory);

    assert_eq!(processor.content, "Hello, World!");
}

#[test]
fn source_processor_definition_declares_capabilities() {
    let definition = create_simple_source_processor_definition();

    assert_eq!(definition.type_namespace, "rust_extension");
    assert_eq!(
        definition.class_name,
        "mzink.processors.rust.SimpleSourceProcessor"
    );
    assert!(definition.is_single_threaded);
    assert_eq!(
        definition.input_requirement,
        flowproc::definition::ProcessorInputRequirement::Forbidden
    );
    assert_eq!(definition.relationships.len(), 1);
    assert_eq!(definition.relationships[0].name, "success");
    assert_eq!(definition.properties.len(), 2);
    assert_eq!(definition.properties[0].name, "Content");
    assert_eq!(
        definition.properties[0].default_value,
        Some("Something default to write".to_string())
    );
    assert!(!definition.properties[0].is_required);
    assert_eq!(definition.properties[1].name, "Shouting");
    assert_eq!(
        definition.properties[1].default_value,
        Some("false".to_string())
    );
    assert!(definition.properties[1].is_required);
}
