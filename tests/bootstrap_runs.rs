use policy_bootstrap::bootstrap::{Action, Bootstrap, Phase};
use policy_bootstrap::error::{LoadError, Outcome, StoreError};
use policy_bootstrap::json::{decode_policies, Policy};
use policy_bootstrap::path::{extension_is_json, has_json_extension};
use policy_bootstrap::report::{report, Severity};
use policy_bootstrap::store::{MemoryPolicyStore, PolicyStore};
use policy_bootstrap::InitPoliciesFairing;
use rocket::serde::json::Value;

fn policy(id: &str, effect: &str) -> Policy {
    let mut m = Policy::new();
    m.insert("id".to_string(), Value::String(id.to_string()));
    m.insert("effect".to_string(), Value::String(effect.to_string()));
    m
}

fn id_of(p: &Policy) -> String {
    p.get("id").and_then(|v| v.as_str()).unwrap_or("").to_string()
}

/// Drives a run on `path` up to the point where the file's text is read,
/// answering that the file exists and opens.
fn run_to_read(path: &str) -> Bootstrap {
    let (mut run, first) = Bootstrap::new(Some(path.to_string()));
    assert!(matches!(first, Action::CheckExists(ref p) if p == path));
    let next = run.file_checked(true);
    assert!(matches!(next, Action::Open(ref p) if p == path));
    let next = run.file_opened(Ok(()));
    assert!(matches!(next, Action::Read));
    assert_eq!(run.current_phase(), Phase::Reading);
    run
}

/// Runs the whole step on `text` as the contents of `path`, against `store`.
fn run_on_text(path: &str, text: &str, store: &mut MemoryPolicyStore) -> Outcome {
    let mut run = run_to_read(path);
    match run.file_read(Ok(text.to_string())) {
        Action::Apply(records) => run.apply(store, records),
        Action::Finish(outcome) => outcome,
        other => panic!("unexpected action {:?}", other),
    }
}

#[test]
fn single_policy_file_is_applied() {
    let mut store = MemoryPolicyStore::with_policies(vec![policy("old", "deny")]);
    let outcome = run_on_text("policies.json", r#"[{"id":"p1","effect":"allow"}]"#, &mut store);
    assert!(matches!(outcome, Outcome::Applied(1)));
    let active = store.read_policies();
    assert_eq!(active.len(), 1);
    assert_eq!(id_of(&active[0]), "p1");
    let line = report(&outcome, "policies.json").unwrap();
    assert_eq!(line.severity, Severity::Info);
    assert_eq!(line.message, "Successfully updated policies from file policies.json: 1 policies");
    assert!(line.message.contains("1 policies"));
}

#[test]
fn malformed_json_leaves_store_unchanged() {
    let mut store = MemoryPolicyStore::with_policies(vec![policy("a", "allow"), policy("b", "deny")]);
    let outcome = run_on_text("policies.json", "not json", &mut store);
    assert!(matches!(outcome, Outcome::LoadFailed(LoadError::DecodeFailure(_))));
    let active = store.read_policies();
    assert_eq!(active.len(), 2);
    assert_eq!(id_of(&active[0]), "a");
    assert_eq!(id_of(&active[1]), "b");
    let line = report(&outcome, "policies.json").unwrap();
    assert_eq!(line.severity, Severity::Error);
    assert!(line.message.starts_with("Failed to load policies from file: Failed to deserialize JSON: "));
}

#[test]
fn empty_path_disables_the_step() {
    let (run, first) = Bootstrap::new(Some(String::new()));
    assert!(matches!(first, Action::Finish(Outcome::Disabled)));
    assert_eq!(run.current_phase(), Phase::Done);
    let outcome = Outcome::Disabled;
    assert!(report(&outcome, "").is_none());
    assert!(!outcome.is_failure());
}

#[test]
fn absent_path_disables_the_step() {
    let (run, first) = Bootstrap::new(None);
    assert!(matches!(first, Action::Finish(Outcome::Disabled)));
    assert_eq!(run.current_phase(), Phase::Done);
}

#[test]
fn txt_file_is_rejected_before_open() {
    let (mut run, first) = Bootstrap::new(Some("rules.txt".to_string()));
    assert!(matches!(first, Action::CheckExists(_)));
    let next = run.file_checked(true);
    assert!(matches!(next, Action::Finish(Outcome::LoadFailed(LoadError::UnsupportedFormat))));
    assert_eq!(run.current_phase(), Phase::Done);
    if let Action::Finish(outcome) = next {
        let line = report(&outcome, "rules.txt").unwrap();
        assert_eq!(line.severity, Severity::Error);
        assert_eq!(line.message, "Failed to load policies from file: File is not a json file");
    }
}

#[test]
fn missing_file_is_one_error() {
    let (mut run, _) = Bootstrap::new(Some("missing.json".to_string()));
    let next = run.file_checked(false);
    let outcome = match next {
        Action::Finish(o) => o,
        other => panic!("unexpected action {:?}", other),
    };
    assert!(matches!(outcome, Outcome::LoadFailed(LoadError::NotFound)));
    assert!(outcome.is_failure());
    let line = report(&outcome, "missing.json").unwrap();
    assert_eq!(line.severity, Severity::Error);
    assert_eq!(line.message, "Failed to load policies from file: File does not exist");
}

#[test]
fn missing_extension_is_unsupported() {
    let (mut run, _) = Bootstrap::new(Some("policies".to_string()));
    let next = run.file_checked(true);
    assert!(matches!(next, Action::Finish(Outcome::LoadFailed(LoadError::UnsupportedFormat))));
}

#[test]
fn missing_file_is_reported_before_extension() {
    let (mut run, _) = Bootstrap::new(Some("rules.txt".to_string()));
    let next = run.file_checked(false);
    assert!(matches!(next, Action::Finish(Outcome::LoadFailed(LoadError::NotFound))));
}

#[test]
fn open_failure_carries_cause() {
    let (mut run, _) = Bootstrap::new(Some("p.json".to_string()));
    run.file_checked(true);
    let next = run.file_opened(Err("permission denied".to_string()));
    match next {
        Action::Finish(outcome) => {
            assert!(matches!(outcome, Outcome::LoadFailed(LoadError::OpenFailure(ref c)) if c == "permission denied"));
            let line = report(&outcome, "p.json").unwrap();
            assert_eq!(line.message, "Failed to load policies from file: Failed to open file: permission denied");
        }
        other => panic!("unexpected action {:?}", other),
    }
    assert_eq!(run.current_phase(), Phase::Done);
}

#[test]
fn read_failure_carries_cause() {
    let mut run = run_to_read("p.json");
    let next = run.file_read(Err("invalid utf-8".to_string()));
    match next {
        Action::Finish(outcome) => {
            let line = report(&outcome, "p.json").unwrap();
            assert_eq!(line.message, "Failed to load policies from file: Failed to read file: invalid utf-8");
        }
        other => panic!("unexpected action {:?}", other),
    }
}

#[test]
fn records_keep_file_order() {
    let mut store = MemoryPolicyStore::new();
    let text = r#"[{"id":"c","effect":"allow"},{"id":"a","effect":"deny"},{"id":"b","effect":"allow"}]"#;
    let outcome = run_on_text("order.json", text, &mut store);
    assert!(matches!(outcome, Outcome::Applied(3)));
    let ids: Vec<String> = store.read_policies().iter().map(id_of).collect();
    assert_eq!(ids, vec!["c", "a", "b"]);
}

#[test]
fn empty_array_applies_zero() {
    let mut store = MemoryPolicyStore::with_policies(vec![policy("x", "allow")]);
    let outcome = run_on_text("empty.json", "[]", &mut store);
    assert!(matches!(outcome, Outcome::Applied(0)));
    assert_eq!(store.len(), 0);
    let line = report(&outcome, "empty.json").unwrap();
    assert_eq!(line.message, "Successfully updated policies from file empty.json: 0 policies");
}

#[test]
fn count_is_written_in_decimal() {
    let line = report(&Outcome::Applied(1234), "big.json").unwrap();
    assert_eq!(line.message, "Successfully updated policies from file big.json: 1234 policies");
    let line = report(&Outcome::Applied(10), "ten.json").unwrap();
    assert_eq!(line.message, "Successfully updated policies from file ten.json: 10 policies");
}

#[test]
fn array_of_non_objects_does_not_decode() {
    assert!(decode_policies("[1, 2]").is_err());
    assert!(decode_policies(r#"{"id":"p1"}"#).is_err());
    assert!(decode_policies(r#"[{"id":"p1"}, 3]"#).is_err());
    assert!(decode_policies("").is_err());
}

#[test]
fn decode_error_has_decoder_message() {
    match decode_policies("not json") {
        Err(m) => assert!(!m.is_empty()),
        Ok(_) => panic!("text decoded"),
    }
    let e = rocket::serde::json::from_str::<Vec<Policy>>("[").unwrap_err();
    assert_eq!(decode_policies("[").unwrap_err(), e.to_string());
}

#[test]
fn serialized_policies_load_back_equal() {
    let original = vec![policy("p1", "allow"), policy("p2", "deny"), Policy::new()];
    let text = rocket::serde::json::to_string(&original).unwrap();
    let loaded = decode_policies(&text).unwrap();
    assert_eq!(loaded, original);
    let mut store = MemoryPolicyStore::new();
    let outcome = run_on_text("round.json", &text, &mut store);
    assert!(matches!(outcome, Outcome::Applied(3)));
    assert_eq!(store.read_policies(), &original);
}

#[test]
fn nested_policy_fields_round_trip() {
    let text = r#"[{"id":"p9","effect":"allow","when":{"roles":["admin","ops"],"max":3,"on":true}}]"#;
    let loaded = decode_policies(text).unwrap();
    let again = rocket::serde::json::to_string(&loaded).unwrap();
    assert_eq!(decode_policies(&again).unwrap(), loaded);
}

#[test]
fn json_extension_is_exact() {
    assert!(has_json_extension("policies.json"));
    assert!(has_json_extension("/etc/service/policies.json"));
    assert!(has_json_extension("archive.tar.json"));
    assert!(!has_json_extension("policies.JSON"));
    assert!(!has_json_extension("policies.json5"));
    assert!(!has_json_extension("rules.txt"));
    assert!(!has_json_extension("policies"));
    assert!(!has_json_extension(".json"));
    assert!(extension_is_json(Some("json")));
    assert!(!extension_is_json(Some("Json")));
    assert!(!extension_is_json(None));
}

#[test]
fn store_failure_is_one_error() {
    let outcome = Outcome::ApplyFailed(StoreError { message: "store is read-only".to_string() });
    assert!(outcome.is_failure());
    let line = report(&outcome, "p.json").unwrap();
    assert_eq!(line.severity, Severity::Error);
    assert_eq!(line.message, "Failed to update policies: store is read-only");
}

#[test]
fn memory_store_replaces_whole_set() {
    let mut store = MemoryPolicyStore::with_policies(vec![policy("a", "allow")]);
    let n = store.update_policies(vec![policy("b", "deny"), policy("c", "allow")]).unwrap();
    assert_eq!(n, 2);
    assert_eq!(store.len(), 2);
    assert_eq!(id_of(&store.read_policies()[1]), "c");
}

#[test]
fn path_is_kept_for_the_report() {
    let (run, _) = Bootstrap::new(Some("conf/policies.json".to_string()));
    assert_eq!(run.path(), "conf/policies.json");
    assert_eq!(InitPoliciesFairing.name(), "Init Policies");
}

#[test]
fn same_text_fails_with_same_message() {
    let mut first = run_to_read("p.json");
    let mut second = run_to_read("p.json");
    let a = first.file_read(Ok("[{\"id\": }]".to_string()));
    let b = second.file_read(Ok("[{\"id\": }]".to_string()));
    match (a, b) {
        (
            Action::Finish(Outcome::LoadFailed(LoadError::DecodeFailure(x))),
            Action::Finish(Outcome::LoadFailed(LoadError::DecodeFailure(y))),
        ) => {
            assert_eq!(x, y);
            let e = rocket::serde::json::from_str::<Vec<Policy>>("[{\"id\": }]").unwrap_err();
            assert_eq!(x, e.to_string());
        }
        other => panic!("unexpected actions {:?}", other),
    }
}
