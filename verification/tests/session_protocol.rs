use flowproc::api::ProcessSession;
use flowproc::api::ProcessSessionFactory;
use flowproc::mock::{MockFlowFile, MockProcessSession, MockProcessSessionFactory};
use flowproc::protocol::{drain_inputs, write_then_read};

fn queued_session(contents: &[&str]) -> MockProcessSession {
    let mut session = MockProcessSession::new();
    for content in contents {
        let mut ff = MockFlowFile::new();
        ff.content = content.to_string();
        session.input_flow_files.push(ff);
    }
    session
}

#[test]
fn get_drains_in_arrival_order_then_none() {
    let mut session = queued_session(&["first", "second", "third"]);

    assert_eq!(session.get().unwrap().content, "first");
    assert_eq!(session.get().unwrap().content, "second");
    assert_eq!(session.get().unwrap().content, "third");
    assert!(session.get().is_none());
}

#[test]
fn drain_inputs_keeps_arrival_order() {
    let mut session = queued_session(&["a", "b", "c", "d"]);

    let drained = drain_inputs(&mut session);

    let contents: Vec<String> = drained.into_iter().map(|ff| ff.content).collect();
    assert_eq!(contents, vec!["a", "b", "c", "d"]);
    assert!(session.get().is_none());
    assert!(session.transferred_flow_files.entries.is_empty());
}

#[test]
fn write_then_read_round_trips() {
    let mut session = MockProcessSession::new();
    let mut ff = session.create().unwrap();

    let read_back = write_then_read(&mut session, &mut ff, "payload");

    assert_eq!(read_back, "payload");
    assert_eq!(ff.content, "payload");
}

#[test]
fn write_replaces_content_atomically() {
    let mut session = MockProcessSession::new();
    let mut ff = session.create().unwrap();
    assert_eq!(ff.content, "");

    session.write(&mut ff, "one");
    assert_eq!(session.read(&ff).unwrap(), "one");
    session.write(&mut ff, "two");
    assert_eq!(session.read(&ff).unwrap(), "two");
}

#[test]
fn transfer_records_relationship_and_content_in_order() {
    let mut session = queued_session(&["keep", "drop"]);

    let first = session.get().unwrap();
    let second = session.get().unwrap();
    session.transfer(first, "success");
    session.transfer(second, "failure");

    assert_eq!(session.transferred_flow_files.entries.len(), 2);
    assert_eq!(session.transferred_flow_files.entries[0].0, "success");
    assert_eq!(session.transferred_flow_files.entries[0].1.content, "keep");
    assert_eq!(session.transferred_flow_files.entries[1].0, "failure");
    assert_eq!(session.transferred_flow_files.entries[1].1.content, "drop");
    assert_eq!(
        session.transferred_flow_files.get("success").unwrap().content,
        "keep"
    );
    assert_eq!(
        session.transferred_flow_files.get("failure").unwrap().content,
        "drop"
    );
    assert!(session.transferred_flow_files.get("unknown").is_none());
}

#[test]
fn transferred_get_returns_first_for_name() {
    let mut session = queued_session(&["one", "two"]);

    let first = session.get().unwrap();
    let second = session.get().unwrap();
    session.transfer(first, "success");
    session.transfer(second, "success");

    assert_eq!(
        session.transferred_flow_files.get("success").unwrap().content,
        "one"
    );
}

#[test]
fn factory_hands_out_fresh_sessions() {
    let mut factory = MockProcessSessionFactory {};

    let mut session = factory.create_session().unwrap();

    assert!(session.get().is_none());
    assert!(session.transferred_flow_files.entries.is_empty());
}

#[test]
fn created_flow_files_start_empty() {
    let mut session = MockProcessSession::new();

    let ff = session.create().unwrap();

    assert_eq!(ff.content, "");
}
