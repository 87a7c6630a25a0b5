use concourse_resource_notion_db::data::Mode;
use concourse_resource_notion_db::data::OutParams;
use concourse_resource_notion_db::data::RecError;
use concourse_resource_notion_db::engine::db_version;
use concourse_resource_notion_db::engine::resolve_reference;
use concourse_resource_notion_db::record::get_prop;
use concourse_resource_notion_db::record::Prop;
use concourse_resource_notion_db::record::Record;
use concourse_resource_notion_db::store::run_check;
use concourse_resource_notion_db::store::run_reconcile;
use concourse_resource_notion_db::store::run_retrieve;
use concourse_resource_notion_db::store::ModelStore;

fn rec(pairs: Vec<(&str, serde_json::Value)>) -> Record {
    let mut props = Vec::new();
    for (name, value) in pairs {
        props.push(Prop { name: name.to_string(), value });
    }
    Record { props }
}

fn s(text: &str) -> serde_json::Value {
    serde_json::Value::String(text.to_string())
}

fn n(x: i64) -> serde_json::Value {
    serde_json::Value::Number(serde_json::Number::from(x))
}

fn val_of<'a>(r: &'a Record, key: &str) -> Option<&'a serde_json::Value> {
    get_prop(r, &key.to_string())
}

fn store() -> ModelStore {
    ModelStore::new("db-one".to_string())
}

#[test]
fn check_is_idempotent_without_mutation() {
    let st = store();
    let v1 = run_check(&st);
    let v2 = run_check(&st);
    assert!(v1 == v2);
}

#[test]
fn check_changes_after_mutation() {
    let mut st = store();
    let v1 = run_check(&st);
    st.create(&rec(vec![("name", s("A"))]));
    let v2 = run_check(&st);
    assert!(!(v1 == v2));
}

#[test]
fn retrieve_succeeds_on_current_version() {
    let mut st = store();
    st.create(&rec(vec![("name", s("A"))]));
    let v = run_check(&st);
    let out = run_retrieve(&st, &v).expect("fingerprint is current");
    assert!(out.len() == 1);
    assert!(val_of(&out[0], "name") == Some(&s("A")));
}

#[test]
fn retrieve_fails_on_stale_version() {
    let mut st = store();
    let v1 = run_check(&st);
    st.create(&rec(vec![("name", s("A"))]));
    let out = run_retrieve(&st, &v1);
    assert!(matches!(out, Err(RecError::ConcurrentModification)));
}

#[test]
fn empty_batch_fails_in_every_mode() {
    let batch: Vec<Record> = Vec::new();
    let modes = vec![
        Mode::Append,
        Mode::Replace,
        Mode::Update { primary_id_property: "name".to_string() },
    ];
    for mode in modes {
        let mut st = store();
        st.create(&rec(vec![("name", s("A"))]));
        let before = st.pages.len();
        let out = run_reconcile(&mut st, &batch, &mode);
        assert!(matches!(out, Err(RecError::NothingToUpdate)));
        assert!(st.pages.len() == before);
    }
}

#[test]
fn append_adds_batch_to_existing_records() {
    let mut st = store();
    st.create(&rec(vec![("name", s("old"))]));
    let batch = vec![rec(vec![("name", s("A"))]), rec(vec![("name", s("B")), ("score", n(2))])];
    run_reconcile(&mut st, &batch, &Mode::Append).expect("append succeeds");
    assert!(st.pages.len() == 3);
    let recs = st.records();
    assert!(val_of(&recs[0], "name") == Some(&s("old")));
    assert!(val_of(&recs[1], "name") == Some(&s("A")));
    assert!(val_of(&recs[2], "name") == Some(&s("B")));
    assert!(val_of(&recs[2], "score") == Some(&n(2)));
}

#[test]
fn replace_leaves_exactly_the_batch() {
    let mut st = store();
    st.create(&rec(vec![("name", s("old1"))]));
    st.create(&rec(vec![("name", s("old2"))]));
    let batch = vec![rec(vec![("x", n(1))])];
    run_reconcile(&mut st, &batch, &Mode::Replace).expect("replace succeeds");
    let recs = st.records();
    assert!(recs.len() == 1);
    assert!(val_of(&recs[0], "x") == Some(&n(1)));
}

fn count_by_key(st: &ModelStore, key: &str, value: &serde_json::Value) -> usize {
    let mut count = 0;
    for r in st.records() {
        if val_of(&r, key) == Some(value) {
            count += 1;
        }
    }
    count
}

#[test]
fn update_twice_keeps_one_record_per_key() {
    let mut st = store();
    let mode = Mode::Update { primary_id_property: "name".to_string() };
    let batch = vec![
        rec(vec![("name", s("A")), ("score", n(1))]),
        rec(vec![("name", s("B")), ("score", n(2))]),
    ];
    run_reconcile(&mut st, &batch, &mode).expect("first update succeeds");
    run_reconcile(&mut st, &batch, &mode).expect("second update succeeds");
    assert!(st.pages.len() == 2);
    assert!(count_by_key(&st, "name", &s("A")) == 1);
    assert!(count_by_key(&st, "name", &s("B")) == 1);
}

#[test]
fn update_missing_key_fails_and_keeps_earlier_records() {
    let mut st = store();
    let mode = Mode::Update { primary_id_property: "name".to_string() };
    let batch = vec![
        rec(vec![("name", s("A")), ("score", n(1))]),
        rec(vec![("title", s("no key")), ("score", n(2))]),
    ];
    let out = run_reconcile(&mut st, &batch, &mode);
    match out {
        Err(RecError::MissingKeyProperty { index, property, available }) => {
            assert!(index == 1);
            assert!(property == "name");
            assert!(available == vec!["title".to_string(), "score".to_string()]);
        }
        _ => panic!("expected the missing-key error"),
    }
    // the record before the failing one stays reconciled
    assert!(count_by_key(&st, "name", &s("A")) == 1);
}

#[test]
fn update_matches_by_canonical_json_not_by_text() {
    let mut st = store();
    // two records whose key values render to different JSON: "5" and 5
    st.create(&rec(vec![("k", s("5"))]));
    st.create(&rec(vec![("k", n(5))]));
    let mode = Mode::Update { primary_id_property: "k".to_string() };
    let batch = vec![rec(vec![("k", n(5)), ("tag", s("new"))])];
    run_reconcile(&mut st, &batch, &mode).expect("update succeeds");
    // the text record is untouched; the number record was superseded
    assert!(st.pages.len() == 2);
    assert!(count_by_key(&st, "k", &s("5")) == 1);
    assert!(count_by_key(&st, "k", &n(5)) == 1);
    assert!(count_by_key(&st, "tag", &s("new")) == 1);
}

#[test]
fn out_then_check_then_in_then_update_round_trip() {
    let mut st = store();
    // OUT with append on the empty collection
    let batch = vec![rec(vec![("name", s("A"))]), rec(vec![("name", s("B"))])];
    run_reconcile(&mut st, &batch, &Mode::Append).expect("append succeeds");
    assert!(st.pages.len() == 2);
    // CHECK, then IN with the fresh fingerprint
    let v1 = run_check(&st);
    let got = run_retrieve(&st, &v1).expect("fingerprint is current");
    assert!(got.len() == 2);
    let mut names: Vec<String> = Vec::new();
    for r in &got {
        match val_of(r, "name") {
            Some(serde_json::Value::String(text)) => names.push(text.clone()),
            _ => panic!("name property missing"),
        }
    }
    names.sort();
    assert!(names == vec!["A".to_string(), "B".to_string()]);
    // OUT with update-by-name superseding A
    let mode = Mode::Update { primary_id_property: "name".to_string() };
    let second = vec![rec(vec![("name", s("A")), ("score", n(5))])];
    run_reconcile(&mut st, &second, &mode).expect("update succeeds");
    assert!(st.pages.len() == 2);
    let recs = st.records();
    let mut seen_a = false;
    let mut seen_b = false;
    for r in &recs {
        match val_of(r, "name") {
            Some(v) if *v == s("A") => {
                assert!(val_of(r, "score") == Some(&n(5)));
                seen_a = true;
            }
            Some(v) if *v == s("B") => {
                assert!(val_of(r, "score").is_none());
                seen_b = true;
            }
            _ => panic!("unexpected record"),
        }
    }
    assert!(seen_a && seen_b);
}

#[test]
fn replace_from_any_prior_state_keeps_one_record() {
    let mut st = store();
    let prior = vec![
        rec(vec![("name", s("A"))]),
        rec(vec![("name", s("B")), ("x", n(7))]),
        rec(vec![("y", n(9))]),
    ];
    run_reconcile(&mut st, &prior, &Mode::Append).expect("append succeeds");
    let batch = vec![rec(vec![("x", n(1))])];
    run_reconcile(&mut st, &batch, &Mode::Replace).expect("replace succeeds");
    let recs = st.records();
    assert!(recs.len() == 1);
    assert!(val_of(&recs[0], "x") == Some(&n(1)));
}

#[test]
fn out_params_default_values() {
    let p = OutParams::default();
    assert!(p.path == "out.json");
    assert!(matches!(p.mode, Mode::Append));
}

#[test]
fn db_version_carries_metadata() {
    let v = db_version("db-one".to_string(), 42);
    assert!(v.id == "db-one");
    assert!(v.last_edited_time == 42);
    let copy = v.duplicate();
    assert!(copy == v);
}

#[test]
fn resolve_prefers_parsed_identifier() {
    let out = resolve_reference(Some("id-1".to_string()), Some(vec!["other".to_string()]));
    match out {
        Ok(id) => assert!(id == "id-1"),
        _ => panic!("expected the parsed identifier"),
    }
}

#[test]
fn resolve_by_single_search_match() {
    let out = resolve_reference(None, Some(vec!["found".to_string()]));
    match out {
        Ok(id) => assert!(id == "found"),
        _ => panic!("expected the single match"),
    }
}

#[test]
fn resolve_errors() {
    assert!(matches!(resolve_reference(None, None), Err(RecError::Resolution)));
    assert!(matches!(resolve_reference(None, Some(Vec::new())), Err(RecError::NotFound)));
    let two = vec!["a".to_string(), "b".to_string()];
    assert!(matches!(resolve_reference(None, Some(two)), Err(RecError::Ambiguous)));
}
