//! The boundary to the tree-sitter parsing runtime.
//!
//! A grammar descriptor (`tree_sitter::Language`) is opaque here: the only
//! thing the library reads from it is its structural (ABI) version number,
//! which it compares against the version the runtime itself was built for.

use vstd::prelude::*;
use crate::version::check_version;
use crate::version::VersionMismatch;

verus! {

/// The structural (ABI) version the linked tree-sitter runtime was built
/// for: the value of `tree_sitter::LANGUAGE_VERSION`.
pub const RUNTIME_ABI_VERSION: usize = 15;

/// `tree_sitter::Language`: an opaque descriptor of a compiled grammar,
/// produced outside this crate and consumed by the parsing runtime.
#[verifier::external_type_specification]
#[verifier::external_body]
pub struct ExLanguage(tree_sitter::Language);

/// The ABI version number recorded in a compiled grammar descriptor.
pub uninterp spec fn abi_of(lang: tree_sitter::Language) -> usize;

/// Relies on `tree_sitter::Language::abi_version`: reads the ABI version
/// number recorded in the compiled grammar, a plain field of the
/// descriptor, so the result is a function of the descriptor alone.
pub assume_specification[ tree_sitter::Language::abi_version ](
    lang: &tree_sitter::Language,
) -> (v: usize)
    ensures
        v == abi_of(*lang),
;

/// Relies on `tree_sitter::LANGUAGE_VERSION`: the latest grammar ABI
/// version the linked runtime supports, which is 15 in this version of
/// the runtime.
#[verifier::external_body]
fn runtime_abi_version() -> (v: usize)
    ensures
        v == RUNTIME_ABI_VERSION,
{
    tree_sitter::LANGUAGE_VERSION
}

/// Accept a grammar descriptor exactly when its recorded ABI version is
/// the one the linked runtime was built for; a rejection carries both
/// versions.
pub fn check_language(lang: &tree_sitter::Language) -> (r: Result<(), VersionMismatch>)
    ensures
        r is Ok <==> abi_of(*lang) == RUNTIME_ABI_VERSION,
        r matches Err(e) ==> e.actual == abi_of(*lang) && e.expected == RUNTIME_ABI_VERSION,
{
    let actual = lang.abi_version();
    let expected = runtime_abi_version();
    check_version(actual, expected)
}

} // verus!
