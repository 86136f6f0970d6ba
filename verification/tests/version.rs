//! Version compatibility: a grammar is accepted exactly when its recorded
//! structural version equals the one the runtime expects, and a rejection
//! reports both versions.

use tree_sitter_notebook::check_version;

#[test]
fn equal_versions_are_accepted() {
    assert!(check_version(15, 15).is_ok());
    assert!(check_version(0, 0).is_ok());
}

#[test]
fn older_grammar_is_rejected_with_both_versions() {
    let err = check_version(14, 15).unwrap_err();
    assert_eq!(err.expected, 15);
    assert_eq!(err.actual, 14);
}

#[test]
fn newer_grammar_is_rejected_with_both_versions() {
    let err = check_version(16, 15).unwrap_err();
    assert_eq!(err.expected, 15);
    assert_eq!(err.actual, 16);
}
