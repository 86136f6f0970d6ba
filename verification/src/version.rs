//! Structural (ABI) version compatibility between a compiled grammar
//! descriptor and the parsing runtime that consumes it.

use vstd::prelude::*;

verus! {

/// A grammar descriptor and the runtime disagree about the structural
/// (ABI) version; both versions are carried so the caller can report them.
pub struct VersionMismatch {
    pub expected: usize,
    pub actual: usize,
}

/// Accept a grammar whose structural version is exactly the one the
/// runtime expects; otherwise report both versions to the caller.
pub fn check_version(actual: usize, expected: usize) -> (r: Result<(), VersionMismatch>)
    ensures
        r is Ok <==> actual == expected,
        r matches Err(e) ==> e.expected == expected && e.actual == actual,
{
    if actual == expected {
        Ok(())
    } else {
        Err(VersionMismatch { expected, actual })
    }
}

} // verus!
