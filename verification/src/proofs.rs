//! Primitives for proof bundles. None is defined yet; the module holds its name.

use vstd::prelude::*;

verus! {

/// Name of the `nrv.proof` module.
pub fn module_name() -> (name: &'static str)
    ensures
        name@ == "proof"@,
{
    "proof"
}

} // verus!
