//! Declarations of the outside types that the library carries, and the few
//! outside calls that its logic makes.

use std::path::PathBuf;
use vstd::prelude::*;

verus! {

#[verifier::external_type_specification]
#[verifier::external_body]
pub struct ExPathBuf(PathBuf);

#[verifier::external_type_specification]
#[verifier::external_body]
pub struct ExDiagnostic(cargo_metadata::diagnostic::Diagnostic);

/// Relies on `<PathBuf as Clone>::clone`: the copy holds the same path.
#[verifier::external_body]
pub(crate) fn clone_path(p: &PathBuf) -> (r: PathBuf)
    ensures
        r == *p,
{
    p.clone()
}

} // verus!
