//! Surface syntax of the query sublanguage.
//!
//! A query document is a list of S-expression patterns: parentheses and
//! brackets must nest properly, a semicolon starts a comment that runs to
//! the end of the line, and a double-quoted string, in which a backslash
//! escapes the next character, hides whatever delimiters it contains.
//! This module decides that delimiter discipline, a necessary condition
//! for a document to be accepted by the runtime's query compiler.

use vstd::prelude::*;

verus! {

/// Where a left-to-right scan of a query document stands: in pattern
/// text, in a comment, in a double-quoted string, or right after a
/// backslash inside such a string.
#[derive(Clone, Copy)]
pub enum ScanMode {
    Code,
    Comment,
    Quoted,
    Escaped,
}

/// The closing delimiter that matches an opening one.
pub open spec fn closer_for(opening: char) -> char {
    if opening == '(' {
        ')'
    } else {
        ']'
    }
}

/// Scan `s` from position `i` with a stack of currently open delimiters.
/// The whole text is well delimited when the scan ends with every string
/// closed and an empty stack; a comment may run to the end of the text.
pub open spec fn scan_from(s: Seq<char>, i: int, stack: Seq<char>, mode: ScanMode) -> bool
    decreases s.len() - i,
{
    if i < 0 || i >= s.len() {
        (mode is Code || mode is Comment) && stack.len() == 0
    } else {
        let c = s[i];
        match mode {
            ScanMode::Comment => {
                if c == '\n' {
                    scan_from(s, i + 1, stack, ScanMode::Code)
                } else {
                    scan_from(s, i + 1, stack, ScanMode::Comment)
                }
            },
            ScanMode::Quoted => {
                if c == '\\' {
                    scan_from(s, i + 1, stack, ScanMode::Escaped)
                } else if c == '"' {
                    scan_from(s, i + 1, stack, ScanMode::Code)
                } else {
                    scan_from(s, i + 1, stack, ScanMode::Quoted)
                }
            },
            ScanMode::Escaped => scan_from(s, i + 1, stack, ScanMode::Quoted),
            ScanMode::Code => {
                if c == '"' {
                    scan_from(s, i + 1, stack, ScanMode::Quoted)
                } else if c == ';' {
                    scan_from(s, i + 1, stack, ScanMode::Comment)
                } else if c == '(' || c == '[' {
                    scan_from(s, i + 1, stack.push(c), ScanMode::Code)
                } else if c == ')' || c == ']' {
                    &&& stack.len() > 0
                    &&& c == closer_for(stack.last())
                    &&& scan_from(s, i + 1, stack.drop_last(), ScanMode::Code)
                } else {
                    scan_from(s, i + 1, stack, ScanMode::Code)
                }
            },
        }
    }
}

/// Parentheses and brackets nest properly, every string is closed, and
/// delimiters inside comments and strings do not count.
pub open spec fn delimiters_balanced(s: Seq<char>) -> bool {
    scan_from(s, 0, Seq::empty(), ScanMode::Code)
}

/// Decide `delimiters_balanced` for a document.
pub fn check_delimiters(s: &str) -> (r: bool)
    ensures
        r == delimiters_balanced(s@),
{
    let n: usize = s.unicode_len();
    let mut stack: Vec<char> = Vec::new();
    let mut mode = ScanMode::Code;
    let mut i: usize = 0;
    proof {
        assert(stack@ =~= Seq::<char>::empty());
    }
    while i < n
        invariant
            i <= n,
            n == s@.len(),
            delimiters_balanced(s@) == scan_from(s@, i as int, stack@, mode),
        decreases n - i,
    {
        let c = s.get_char(i);
        match mode {
            ScanMode::Comment => {
                if c == '\n' {
                    mode = ScanMode::Code;
                }
            },
            ScanMode::Quoted => {
                if c == '\\' {
                    mode = ScanMode::Escaped;
                } else if c == '"' {
                    mode = ScanMode::Code;
                }
            },
            ScanMode::Escaped => {
                mode = ScanMode::Quoted;
            },
            ScanMode::Code => {
                if c == '"' {
                    mode = ScanMode::Quoted;
                } else if c == ';' {
                    mode = ScanMode::Comment;
                } else if c == '(' || c == '[' {
                    stack.push(c);
                } else if c == ')' || c == ']' {
                    if stack.len() == 0 {
                        return false;
                    }
                    let top = stack[stack.len() - 1];
                    let matching = if top == '(' {
                        ')'
                    } else {
                        ']'
                    };
                    if c != matching {
                        return false;
                    }
                    stack.pop();
                }
            },
        }
        i = i + 1;
    }
    let every_string_closed = match mode {
        ScanMode::Quoted | ScanMode::Escaped => false,
        _ => true,
    };
    every_string_closed && stack.len() == 0
}

} // verus!
