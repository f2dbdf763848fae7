//! Facts about this package that the commands report.
use vstd::prelude::*;

verus! {

/// The version of this package.
pub fn package_version() -> (v: &'static str)
    ensures
        v@ == "2.3.0"@,
{
    "2.3.0"
}

/// The repository this package is published from.
pub fn package_repository() -> (r: &'static str)
    ensures
        r@ == "https://github.com/charliekarafotias/tmgr"@,
{
    "https://github.com/charliekarafotias/tmgr"
}

} // verus!
