use ejsr::strutil::str_concat;
use ejsr::strutil::str_eq;
use ejsr::strutil::str_skip;
use ejsr::strutil::str_starts_with;

#[test]
fn equality_is_by_characters() {
    assert!(str_eq("", ""));
    assert!(str_eq("abc", "abc"));
    assert!(!str_eq("abc", "abd"));
    assert!(!str_eq("abc", "ab"));
}

#[test]
fn prefix_test_matches_leading_characters() {
    assert!(str_starts_with("ejsr:runtime/index.js", "ejsr:runtime/"));
    assert!(str_starts_with("abc", ""));
    assert!(!str_starts_with("ab", "abc"));
    assert!(!str_starts_with("xbc", "ab"));
}

#[test]
fn concat_and_skip_work_on_characters() {
    assert_eq!(str_concat("ejsr:runtime", "/modules/fs.js"), "ejsr:runtime/modules/fs.js");
    assert_eq!(str_skip("./modules/fs.js", 1), "/modules/fs.js");
    assert_eq!(str_skip("abc", 3), "");
}
