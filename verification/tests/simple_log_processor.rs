use flowproc::api::Processor;
use flowproc::level::LogLevel;
use flowproc::mock::{
    MockFlowFile, MockLogger, MockProcessContext, MockProcessSession, MockProcessSessionFactory,
};
use flowproc::processors::simple_log_processor::{
    simple_log_processor_definition, SimpleLogProcessor,
};

#[test]
fn simple_test() {
    let mut processor = SimpleLogProcessor::new(MockLogger::new());
    let context = MockProcessContext::new();
    let mut session_factory = MockProcessSessionFactory {};

    processor.on_schedule(&context, &mut session_factory);

    {
        let mut session = MockProcessSession::new();
        let mut input_ff = MockFlowFile::new();
        input_ff.content = "Input ff".to_string();
        session.input_flow_files.push(input_ff);
        processor.on_trigger(&context, &mut session);
        assert_eq!(
            session.transferred_flow_files.get("success").unwrap().content,
            "Input ff"
        )
    }
}

#[test]
fn unset_level_defaults_to_info() {
    let mut processor = SimpleLogProcessor::new(MockLogger::new());
    let context = MockProcessContext::new();
    let mut session_factory = MockProcessSessionFactory {};

    processor.on_schedule(&context, &mut session_factory);

    assert_eq!(processor.log_level, LogLevel::Info);
}

#[test]
fn configured_level_is_cached() {
    let mut processor = SimpleLogProcessor::new(MockLogger::new());
    let mut context = MockProcessContext::new();
    context
        .properties
        .insert("Log Level".to_string(), "error".to_string());
    let mut session_factory = MockProcessSessionFactory {};

    processor.on_schedule(&context, &mut session_factory);

    assert_eq!(processor.log_level, LogLevel::Error);
}

#[test]
fn invalid_level_falls_back_to_info() {
    let mut processor = SimpleLogProcessor::new(MockLogger::new());
    let mut context = MockProcessContext::new();
    context
        .properties
        .insert("Log Level".to_string(), "loudest".to_string());
    let mut session_factory = MockProcessSessionFactory {};

    processor.on_schedule(&context, &mut session_factory);

    assert_eq!(processor.log_level, LogLevel::Info);

    let mut session = MockProcessSession::new();
    let mut input_ff = MockFlowFile::new();
    input_ff.content = "Input ff".to_string();
    session.input_flow_files.push(input_ff);
    processor.on_trigger(&context, &mut session);

    assert!(processor
        .logger
        .messages
        .contains(&(LogLevel::Info, "Input ff".to_string())));
    assert_eq!(
        session.transferred_flow_files.get("success").unwrap().content,
        "Input ff"
    );
}

#[test]
fn content_is_logged_at_cached_level() {
    let mut processor = SimpleLogProcessor::new(MockLogger::new());
    let mut context = MockProcessContext::new();
    context
        .properties
        .insert("Log Level".to_string(), "warn".to_string());
    let mut session_factory = MockProcessSessionFactory {};

    processor.on_schedule(&context, &mut session_factory);

    let mut session = MockProcessSession::new();
    let mut input_ff = MockFlowFile::new();
    input_ff.content = "watch out".to_string();
    session.input_flow_files.push(input_ff);
    processor.on_trigger(&context, &mut session);

    assert!(processor
        .logger
        .messages
        .contains(&(LogLevel::Warn, "watch out".to_string())));
}

#[test]
fn empty_queue_routes_nothing() {
    let mut processor = SimpleLogProcessor::new(MockLogger::new());
    let context = MockProcessContext::new();
    let mut session_factory = MockProcessSessionFactory {};

    processor.on_schedule(&context, &mut session_factory);

    let mut session = MockProcessSession::new();
    processor.on_trigger(&context, &mut session);

    assert!(session.transferred_flow_files.get("success").is_none());
    assert!(session.transferred_flow_files.entries.is_empty());
}

#[test]
fn log_processor_definition_declares_capabilities() {
    let definition = simple_log_processor_definition();

    assert_eq!(definition.type_namespace, "rust_extension");
    assert_eq!(
        definition.class_name,
        "mzink.processors.rust.SimpleLogProcessor"
    );
    assert!(definition.is_single_threaded);
    assert_eq!(
        definition.input_requirement,
        flowproc::definition::ProcessorInputRequirement::Allowed
    );
    assert!(!definition.supports_dynamic_properties);
    assert!(!definition.supports_dynamic_relationships);
    assert_eq!(definition.relationships.len(), 1);
    assert_eq!(definition.relationships[0].name, "success");
    assert_eq!(definition.properties.len(), 1);
    assert_eq!(definition.properties[0].name, "Log Level");
    assert!(definition.properties[0].is_required);
    assert_eq!(
        definition.properties[0].default_value,
        Some("info".to_string())
    );
    assert_eq!(
        definition.properties[0].allowed_values,
        vec!["trace", "debug", "info", "warn", "error"]
    );
    assert!(definition.declares_relationship("success"));
    assert!(!definition.declares_relationship("failure"));
}
