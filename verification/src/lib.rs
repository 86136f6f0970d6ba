//! Tree-sitter grammar bindings for the notebook cell format.
//!
//! The compiled grammar is an opaque descriptor consumed by the tree-sitter
//! runtime; this crate holds the version-compatibility logic and the static
//! query and schema assets that editors load alongside the grammar.

pub mod assets;
pub mod runtime;
pub mod sexpr;
pub mod version;

pub use assets::HIGHLIGHTS_QUERY;
pub use assets::INJECTIONS_QUERY;
pub use assets::NODE_TYPES;
pub use assets::TEXTOBJECTS_QUERY;
pub use runtime::check_language;
pub use sexpr::check_delimiters;
pub use version::check_version;
pub use version::VersionMismatch;
