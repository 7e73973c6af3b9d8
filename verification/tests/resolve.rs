use prkcst::binder::bind_args;
use prkcst::chain::render_chain;
use prkcst::index::find_command_by_alias;
use prkcst::record::Command;
use prkcst::store::{append_record, needs_global_fallback, records_or_empty};

fn strings(v: &[&str]) -> Vec<String> {
    v.iter().map(|s| s.to_string()).collect()
}

fn record(alias: &str, templates: &[&str]) -> Command {
    Command::new(alias.to_string(), strings(templates))
}

#[test]
fn finds_first_matching_record() {
    let records = vec![
        record("build", &["make"]),
        record("deploy", &["scp {} host:"]),
        record("deploy", &["echo shadowed"]),
    ];
    let templates = find_command_by_alias(&records, "deploy").unwrap();
    assert_eq!(templates, vec!["scp {} host:"]);
}

#[test]
fn unknown_alias_is_not_found() {
    let records = vec![record("build", &["make"])];
    assert!(find_command_by_alias(&records, "deploy").is_none());
    assert!(find_command_by_alias(&[], "deploy").is_none());
}

#[test]
fn match_is_exact_and_case_sensitive() {
    let records = vec![record("Deploy", &["make"])];
    assert!(find_command_by_alias(&records, "deploy").is_none());
    assert!(find_command_by_alias(&records, "Deploy").is_some());
}

#[test]
fn empty_local_store_falls_back_to_global() {
    let local: Vec<Command> = Vec::new();
    let global = vec![record("deploy", &["echo from-global"])];
    assert!(needs_global_fallback(false, &local));
    let templates = find_command_by_alias(&global, "deploy").unwrap();
    assert_eq!(templates, vec!["echo from-global"]);
}

#[test]
fn non_empty_local_store_never_falls_back() {
    // The local store has a record, just not the requested alias: the
    // lookup stays local and reports "not found" instead of consulting
    // the global store.
    let local = vec![record("unrelated", &["true"])];
    assert!(!needs_global_fallback(false, &local));
    assert!(find_command_by_alias(&local, "deploy").is_none());
}

#[test]
fn requested_global_scope_skips_the_local_store() {
    let local: Vec<Command> = Vec::new();
    assert!(!needs_global_fallback(true, &local));
}

#[test]
fn missing_or_unparsable_store_degrades_to_empty() {
    assert!(records_or_empty(None).is_empty());
    let loaded = records_or_empty(Some(vec![record("a", &["b"])]));
    assert_eq!(loaded.len(), 1);
}

#[test]
fn append_to_empty_store_round_trips() {
    let mut records: Vec<Command> = records_or_empty(None);
    append_record(&mut records, record("deploy", &["echo build {}", "echo ship {}"]));
    assert_eq!(records.len(), 1);
    assert_eq!(records[0].alias(), "deploy");
    assert_eq!(records[0].commands(), vec!["echo build {}", "echo ship {}"]);
}

#[test]
fn deploy_scenario_runs_both_steps() {
    let records = vec![record("deploy", &["echo build {}", "echo ship {}"])];
    let templates: Vec<String> = find_command_by_alias(&records, "deploy")
        .unwrap()
        .iter()
        .map(|s| s.to_string())
        .collect();
    let bindings = bind_args(&templates, &strings(&["v1", "v2"])).unwrap();
    let cmds = render_chain(&bindings).unwrap();
    assert_eq!(cmds, strings(&["echo build v1", "echo ship v2"]));
}

#[test]
fn deploy_scenario_rejects_one_argument() {
    let records = vec![record("deploy", &["echo build {}", "echo ship {}"])];
    let templates: Vec<String> = find_command_by_alias(&records, "deploy")
        .unwrap()
        .iter()
        .map(|s| s.to_string())
        .collect();
    let err = bind_args(&templates, &strings(&["v1"])).unwrap_err();
    assert_eq!(err.required, 2);
}
