use prkcst::binder::{bind_args, required_total};

fn strings(v: &[&str]) -> Vec<String> {
    v.iter().map(|s| s.to_string()).collect()
}

#[test]
fn exact_count_partitions_in_order() {
    let templates = strings(&["cp {} {}", "echo done {}"]);
    let raw_args = strings(&["a.txt", "b.txt", "msg"]);
    assert_eq!(required_total(&templates), Some(3));
    let bindings = bind_args(&templates, &raw_args).unwrap();
    assert_eq!(bindings.len(), 2);
    assert_eq!(bindings[0].template, "cp {} {}");
    assert_eq!(bindings[0].args, strings(&["a.txt", "b.txt"]));
    assert_eq!(bindings[1].template, "echo done {}");
    assert_eq!(bindings[1].args, strings(&["msg"]));
}

#[test]
fn slices_are_contiguous_and_disjoint() {
    let templates = strings(&["one {}", "none", "three {} {} {}"]);
    let raw_args = strings(&["1", "2", "3", "4"]);
    let bindings = bind_args(&templates, &raw_args).unwrap();
    assert_eq!(bindings[0].args, strings(&["1"]));
    assert_eq!(bindings[1].args, Vec::<String>::new());
    assert_eq!(bindings[2].args, strings(&["2", "3", "4"]));
}

#[test]
fn too_few_arguments_fail_naming_the_total() {
    let templates = strings(&["cp {} {}", "echo done {}"]);
    let err = bind_args(&templates, &strings(&["only-one"])).unwrap_err();
    assert_eq!(err.required, 3);
}

#[test]
fn too_many_arguments_fail_naming_the_total() {
    let templates = strings(&["touch {}"]);
    let err = bind_args(&templates, &strings(&["a", "b"])).unwrap_err();
    assert_eq!(err.required, 1);
}

#[test]
fn zero_placeholders_ignore_extra_arguments() {
    let templates = strings(&["ls", "pwd"]);
    assert_eq!(required_total(&templates), Some(0));
    let bindings = bind_args(&templates, &strings(&["stray", "input"])).unwrap();
    assert_eq!(bindings.len(), 2);
    assert!(bindings[0].args.is_empty());
    assert!(bindings[1].args.is_empty());
}

#[test]
fn zero_placeholders_accept_zero_arguments() {
    let templates = strings(&["ls"]);
    let bindings = bind_args(&templates, &strings(&[])).unwrap();
    assert_eq!(bindings.len(), 1);
    assert!(bindings[0].args.is_empty());
}

#[test]
fn empty_template_list_binds_nothing() {
    let bindings = bind_args(&strings(&[]), &strings(&[])).unwrap();
    assert!(bindings.is_empty());
}

#[test]
fn mismatch_message_names_the_count() {
    let templates = strings(&["echo build {}", "echo ship {}"]);
    let err = bind_args(&templates, &strings(&["v1"])).unwrap_err();
    assert_eq!(
        err.message(),
        "Invalid arguments count, please provide exactly 2 arguments"
    );
}
