use concourse_resource_notion_db::data::Mode;
use concourse_resource_notion_db::data::RecError;
use concourse_resource_notion_db::data::Version;
use concourse_resource_notion_db::machine::Action;
use concourse_resource_notion_db::machine::Event;
use concourse_resource_notion_db::machine::Reconciler;
use concourse_resource_notion_db::machine::Step;
use concourse_resource_notion_db::record::Prop;
use concourse_resource_notion_db::record::Record;

fn rec(pairs: Vec<(&str, serde_json::Value)>) -> Record {
    let mut props = Vec::new();
    for (name, value) in pairs {
        props.push(Prop { name: name.to_string(), value });
    }
    Record { props }
}

fn s(text: &str) -> serde_json::Value {
    serde_json::Value::String(text.to_string())
}

fn act(step: Step) -> Action {
    match step {
        Step::Act { action } => action,
        _ => panic!("expected an action"),
    }
}

#[test]
fn machine_rejects_empty_batch() {
    let mut m = Reconciler::new(Vec::new(), Mode::Append);
    let out = m.step(Event::Start);
    assert!(matches!(out, Step::Fail { error: RecError::NothingToUpdate }));
}

#[test]
fn machine_append_run() {
    let batch = vec![rec(vec![("name", s("A"))]), rec(vec![("name", s("B"))])];
    let mut m = Reconciler::new(batch, Mode::Append);
    match act(m.step(Event::Start)) {
        Action::CreateRecord { index } => assert!(index == 0),
        _ => panic!("expected a creation"),
    }
    match act(m.step(Event::Created)) {
        Action::CreateRecord { index } => assert!(index == 1),
        _ => panic!("expected a creation"),
    }
    assert!(matches!(act(m.step(Event::Created)), Action::FetchVersion));
    let v = Version { id: "db-one".to_string(), last_edited_time: 7 };
    match m.step(Event::GotVersion { version: v }) {
        Step::Done { version } => {
            assert!(version.id == "db-one");
            assert!(version.last_edited_time == 7);
        }
        _ => panic!("expected the final fingerprint"),
    }
}

#[test]
fn machine_replace_clears_first() {
    let batch = vec![rec(vec![("x", s("1"))])];
    let mut m = Reconciler::new(batch, Mode::Replace);
    assert!(matches!(act(m.step(Event::Start)), Action::ListAll));
    let ids = vec!["p1".to_string(), "p2".to_string()];
    match act(m.step(Event::Pages { ids: ids.clone() })) {
        Action::DeletePages { ids: out } => assert!(out == ids),
        _ => panic!("expected the pre-deletion"),
    }
    match act(m.step(Event::Deleted)) {
        Action::CreateRecord { index } => assert!(index == 0),
        _ => panic!("expected a creation"),
    }
    assert!(matches!(act(m.step(Event::Created)), Action::FetchVersion));
}

#[test]
fn machine_update_filters_by_canonical_json() {
    let batch = vec![rec(vec![("name", s("A")), ("score", s("5"))])];
    let mode = Mode::Update { primary_id_property: "name".to_string() };
    let mut m = Reconciler::new(batch, mode);
    match act(m.step(Event::Start)) {
        Action::ListByKey { property, value_json } => {
            assert!(property == "name");
            // the canonical JSON of the string value, not the bare text
            assert!(value_json == "\"A\"");
        }
        _ => panic!("expected the key filter"),
    }
    match act(m.step(Event::Pages { ids: vec!["p9".to_string()] })) {
        Action::DeletePages { ids } => assert!(ids == vec!["p9".to_string()]),
        _ => panic!("expected the per-key deletion"),
    }
    match act(m.step(Event::Deleted)) {
        Action::CreateRecord { index } => assert!(index == 0),
        _ => panic!("expected a creation"),
    }
    assert!(matches!(act(m.step(Event::Created)), Action::FetchVersion));
}

#[test]
fn machine_update_missing_key_lists_properties() {
    let batch = vec![rec(vec![("title", s("T")), ("score", s("5"))])];
    let mode = Mode::Update { primary_id_property: "name".to_string() };
    let mut m = Reconciler::new(batch, mode);
    match m.step(Event::Start) {
        Step::Fail { error: RecError::MissingKeyProperty { index, property, available } } => {
            assert!(index == 0);
            assert!(property == "name");
            assert!(available == vec!["title".to_string(), "score".to_string()]);
        }
        _ => panic!("expected the missing-key error"),
    }
}

#[test]
fn machine_surfaces_remote_failure() {
    let batch = vec![rec(vec![("name", s("A"))])];
    let mut m = Reconciler::new(batch, Mode::Append);
    let _first = m.step(Event::Start);
    match m.step(Event::RemoteFailed { message: "status 502".to_string() }) {
        Step::Fail { error: RecError::Remote { message } } => assert!(message == "status 502"),
        _ => panic!("expected the remote error"),
    }
}

#[test]
fn machine_refuses_unexpected_event() {
    let batch = vec![rec(vec![("name", s("A"))])];
    let mut m = Reconciler::new(batch, Mode::Append);
    let out = m.step(Event::Deleted);
    assert!(matches!(out, Step::Fail { error: RecError::UnexpectedEvent }));
}
