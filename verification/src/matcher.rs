//! Primitives for semantic matching. None is defined yet; the module holds its name.

use vstd::prelude::*;

verus! {

/// Name of the `nrv.match` module.
pub fn module_name() -> (name: &'static str)
    ensures
        name@ == "match"@,
{
    "match"
}

} // verus!
