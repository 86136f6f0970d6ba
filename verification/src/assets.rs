//! Static assets shipped with the grammar: the node-type schema and the
//! three query documents that editors load alongside the compiled grammar.
//!
//! All four are immutable text, fixed at build time, readable without any
//! filesystem access, and identical across rebuilds. The proofs below pin
//! what this layer can say of them: each document is non-empty, and each
//! query document keeps the delimiter discipline of the query sublanguage.

use vstd::prelude::*;
use crate::sexpr::delimiters_balanced;
use crate::sexpr::scan_from;

verus! {

/// The node-type schema for this grammar: a JSON document enumerating
/// every named syntax-tree node kind the grammar can produce.
pub const NODE_TYPES: &'static str = r#"[
  {
    "type": "notebook",
    "named": true,
    "fields": {},
    "children": {
      "multiple": true,
      "required": false,
      "types": [
        {
          "type": "cell",
          "named": true
        }
      ]
    }
  },
  {
    "type": "cell",
    "named": true,
    "fields": {
      "language": {
        "multiple": false,
        "required": false,
        "types": [
          {
            "type": "language",
            "named": true
          }
        ]
      }
    },
    "children": {
      "multiple": true,
      "required": false,
      "types": [
        {
          "type": "cell_marker",
          "named": true
        },
        {
          "type": "content",
          "named": true
        }
      ]
    }
  },
  {
    "type": "cell_marker",
    "named": true,
    "fields": {}
  },
  {
    "type": "language",
    "named": true,
    "fields": {}
  },
  {
    "type": "content",
    "named": true,
    "fields": {}
  },
  {
    "type": "%%",
    "named": false
  }
]
"#;

/// The syntax highlighting query for this grammar.
pub const HIGHLIGHTS_QUERY: &'static str = r#"(cell_marker) @punctuation.special

(cell
  language: (language) @tag)
"#;

/// The injection query for this grammar: it maps the body of each cell to
/// the grammar named by the cell's language identifier.
pub const INJECTIONS_QUERY: &'static str = r#"(cell
  language: (language) @injection.language
  (content) @injection.content)
"#;

/// The text objects query for this grammar: each cell behaves as one
/// function-like text object, with its body as the inside part.
pub const TEXTOBJECTS_QUERY: &'static str = r#"(cell) @function.around

(cell
  (content) @function.inside)
"#;

/// The node-type schema is non-empty.
pub proof fn node_types_nonempty()
    ensures
        NODE_TYPES@.len() > 0,
{
    reveal_strlit(r#"[
  {
    "type": "notebook",
    "named": true,
    "fields": {},
    "children": {
      "multiple": true,
      "required": false,
      "types": [
        {
          "type": "cell",
          "named": true
        }
      ]
    }
  },
  {
    "type": "cell",
    "named": true,
    "fields": {
      "language": {
        "multiple": false,
        "required": false,
        "types": [
          {
            "type": "language",
            "named": true
          }
        ]
      }
    },
    "children": {
      "multiple": true,
      "required": false,
      "types": [
        {
          "type": "cell_marker",
          "named": true
        },
        {
          "type": "content",
          "named": true
        }
      ]
    }
  },
  {
    "type": "cell_marker",
    "named": true,
    "fields": {}
  },
  {
    "type": "language",
    "named": true,
    "fields": {}
  },
  {
    "type": "content",
    "named": true,
    "fields": {}
  },
  {
    "type": "%%",
    "named": false
  }
]
"#);
}

/// The syntax highlighting query is non-empty and keeps the delimiter
/// discipline of the query sublanguage.
#[verifier::rlimit(100)]
pub proof fn highlights_query_well_delimited()
    ensures
        HIGHLIGHTS_QUERY@.len() > 0,
        delimiters_balanced(HIGHLIGHTS_QUERY@),
{
    reveal_strlit(r#"(cell_marker) @punctuation.special

(cell
  language: (language) @tag)
"#);
    reveal_with_fuel(scan_from, 75);
}

/// The injection query is non-empty and keeps the delimiter discipline
/// of the query sublanguage.
#[verifier::rlimit(100)]
pub proof fn injections_query_well_delimited()
    ensures
        INJECTIONS_QUERY@.len() > 0,
        delimiters_balanced(INJECTIONS_QUERY@),
{
    reveal_strlit(r#"(cell
  language: (language) @injection.language
  (content) @injection.content)
"#);
    reveal_with_fuel(scan_from, 85);
}

/// The text objects query is non-empty and keeps the delimiter
/// discipline of the query sublanguage.
#[verifier::rlimit(100)]
pub proof fn textobjects_query_well_delimited()
    ensures
        TEXTOBJECTS_QUERY@.len() > 0,
        delimiters_balanced(TEXTOBJECTS_QUERY@),
{
    reveal_strlit(r#"(cell) @function.around

(cell
  (content) @function.inside)
"#);
    reveal_with_fuel(scan_from, 64);
}

} // verus!
