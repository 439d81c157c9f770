//! Primitives for context budgeting. None is defined yet; the module holds its name.

use vstd::prelude::*;

verus! {

/// Name of the `nrv.ctx` module.
pub fn module_name() -> (name: &'static str)
    ensures
        name@ == "ctx"@,
{
    "ctx"
}

} // verus!
