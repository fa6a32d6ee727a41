use vstd::prelude::*;

verus! {

/// The directive that shader sources for this backend must start with.
pub fn glsl_version() -> (r: &'static str)
    ensures
        r@ == "#version 300 es"@,
{
    "#version 300 es"
}

} // verus!
