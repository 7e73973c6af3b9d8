use prkcst::placeholder::{count_placeholders, substitute, substitute_all};

fn strings(v: &[&str]) -> Vec<String> {
    v.iter().map(|s| s.to_string()).collect()
}

#[test]
fn counts_non_overlapping_occurrences() {
    assert_eq!(count_placeholders(""), 0);
    assert_eq!(count_placeholders("echo hello"), 0);
    assert_eq!(count_placeholders("{}"), 1);
    assert_eq!(count_placeholders("{}{}"), 2);
    assert_eq!(count_placeholders("cp {} {}"), 2);
    assert_eq!(count_placeholders("{{}"), 1);
    assert_eq!(count_placeholders("{{}}"), 1);
    assert_eq!(count_placeholders("{ }"), 0);
}

#[test]
fn substitutes_left_to_right_exhaustively() {
    let out = substitute("echo {} then {}", &strings(&["first", "second"])).unwrap();
    assert_eq!(out, "echo first then second");
    assert_eq!(count_placeholders(&out), 0);
}

#[test]
fn substitution_is_a_single_pass() {
    // A placeholder token inside an argument is literal text: it is never
    // rescanned, so it survives into the output.
    let out = substitute("echo {}", &strings(&["{}"])).unwrap();
    assert_eq!(out, "echo {}");
}

#[test]
fn no_placeholders_leaves_template_unchanged() {
    let out = substitute("make all", &strings(&[])).unwrap();
    assert_eq!(out, "make all");
}

#[test]
fn no_placeholders_ignores_arguments() {
    let out = substitute("make all", &strings(&["stray"])).unwrap();
    assert_eq!(out, "make all");
}

#[test]
fn per_template_mismatch_names_the_templates_count() {
    let err = substitute("cp {} {}", &strings(&["only-one"])).unwrap_err();
    assert_eq!(err.required, 2);
}

#[test]
fn unchecked_substitution_keeps_unfilled_placeholders() {
    let out = substitute_all("mv {} {}", &strings(&["a"]));
    assert_eq!(out, "mv a {}");
}

#[test]
fn substitutes_in_slice_order() {
    let out = substitute("{}-{}-{}", &strings(&["x", "y", "z"])).unwrap();
    assert_eq!(out, "x-y-z");
}
