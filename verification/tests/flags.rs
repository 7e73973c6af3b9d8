use prkcst::cli::{has_global_flag, is_global_flag, strip_global_flags};
use prkcst::str_eq;
use prkcst::usage::{decimal_string, usage_args};

fn strings(v: &[&str]) -> Vec<String> {
    v.iter().map(|s| s.to_string()).collect()
}

#[test]
fn recognizes_both_flag_spellings() {
    assert!(is_global_flag("--global"));
    assert!(is_global_flag("-g"));
    assert!(!is_global_flag("global"));
    assert!(!is_global_flag("-G"));
    assert!(!is_global_flag(""));
}

#[test]
fn finds_the_flag_anywhere() {
    assert!(has_global_flag(&strings(&["deploy", "v1", "--global"])));
    assert!(has_global_flag(&strings(&["-g", "deploy"])));
    assert!(!has_global_flag(&strings(&["deploy", "v1"])));
    assert!(!has_global_flag(&strings(&[])));
}

#[test]
fn strips_flag_tokens_and_keeps_order() {
    let args = strings(&["deploy", "--global", "v1", "-g", "v2"]);
    assert_eq!(strip_global_flags(&args), strings(&["deploy", "v1", "v2"]));
}

#[test]
fn strip_leaves_flagless_arguments_alone() {
    let args = strings(&["deploy", "v1"]);
    assert_eq!(strip_global_flags(&args), args);
}

#[test]
fn string_equality_is_exact() {
    assert!(str_eq("abc", "abc"));
    assert!(!str_eq("abc", "abd"));
    assert!(!str_eq("abc", "ab"));
    assert!(str_eq("", ""));
}

#[test]
fn renders_decimal_numbers() {
    assert_eq!(decimal_string(0), "0");
    assert_eq!(decimal_string(7), "7");
    assert_eq!(decimal_string(10), "10");
    assert_eq!(decimal_string(310), "310");
    assert_eq!(decimal_string(100500), "100500");
}

#[test]
fn renders_one_sample_argument_per_placeholder() {
    assert_eq!(usage_args(0), "");
    assert_eq!(usage_args(1), "arg-0 ");
    assert_eq!(usage_args(3), "arg-0 arg-1 arg-2 ");
}

#[test]
fn sample_arguments_count_past_ten() {
    let rendered = usage_args(11);
    assert!(rendered.ends_with("arg-10 "));
}
