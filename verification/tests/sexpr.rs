//! The delimiter discipline of the query sublanguage: proper nesting of
//! parentheses and brackets, with semicolon comments and double-quoted
//! strings (backslash escapes included) hiding whatever delimiters they
//! contain.

use tree_sitter_notebook::check_delimiters;

#[test]
fn empty_document_is_balanced() {
    assert!(check_delimiters(""));
}

#[test]
fn nested_patterns_are_balanced() {
    assert!(check_delimiters("(cell (content) @injection.content)"));
    assert!(check_delimiters("[(cell_marker) (language)] @tag"));
    assert!(check_delimiters("(a [b (c)] d)"));
}

#[test]
fn strings_hide_their_delimiters() {
    assert!(check_delimiters("((content) (#set! injection.language \"python\"))"));
    assert!(check_delimiters("(\"(\" \"]\")"));
    assert!(!check_delimiters("(\"unterminated)"));
}

#[test]
fn comments_hide_their_delimiters() {
    assert!(check_delimiters("; a comment with ( and ] in it\n(cell)"));
    assert!(check_delimiters("(cell) ; a trailing comment with )"));
    assert!(check_delimiters("; \" ( [\n(x)"));
    assert!(!check_delimiters("( ; the paren above stays open\n"));
}

#[test]
fn escapes_keep_strings_open() {
    assert!(check_delimiters("(\"a\\\"b\")"));
    assert!(check_delimiters("(\"\\\\\")"));
    assert!(check_delimiters("(\"; not a comment\")"));
    assert!(!check_delimiters("(\"a\\\")"));
}

#[test]
fn mismatched_delimiters_are_rejected() {
    assert!(!check_delimiters("(cell"));
    assert!(!check_delimiters("cell)"));
    assert!(!check_delimiters("(]"));
    assert!(!check_delimiters("[)"));
    assert!(!check_delimiters(")("));
}
