use dirpurge::strutil::{contains_substr, is_prefix_exec, str_eq, trim_blank};

#[test]
fn substring_found_and_missed() {
    assert!(contains_substr("a/node_modules/x", "node_modules"));
    assert!(contains_substr("node_modules", "node_modules"));
    assert!(contains_substr("anything", ""));
    assert!(!contains_substr("a/src/x", "node_modules"));
    assert!(!contains_substr("nod", "node"));
}

#[test]
fn prefix_checks() {
    assert!(is_prefix_exec("a/b", "a/b/c"));
    assert!(is_prefix_exec("", "a"));
    assert!(is_prefix_exec("a/b", "a/b"));
    assert!(!is_prefix_exec("a/b/c", "a/b"));
    assert!(!is_prefix_exec("a/x", "a/y/z"));
}

#[test]
fn string_equality() {
    assert!(str_eq("DELETE", "DELETE"));
    assert!(!str_eq("DELETE", "delete"));
    assert!(!str_eq("DELETE", "DELETE "));
    assert!(str_eq("", ""));
}

#[test]
fn trimming_blanks() {
    assert_eq!(trim_blank("  DELETE\n"), "DELETE");
    assert_eq!(trim_blank("\t y \r\n"), "y");
    assert_eq!(trim_blank("x"), "x");
    assert_eq!(trim_blank(" \n\t "), "");
    assert_eq!(trim_blank(""), "");
}
