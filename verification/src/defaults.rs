//! Values that the schema assigns to fields which a document leaves out.

use vstd::prelude::*;

verus! {

pub fn default_1() -> (res: usize)
    ensures
        res == 1,
{
    1
}

pub fn default_0() -> (res: usize)
    ensures
        res == 0,
{
    0
}

/// The alpha mode of a material that names none.
pub fn material_default_alpha_mode() -> (res: String)
    ensures
        res@ == "OPAQUE"@,
{
    "OPAQUE".to_string()
}

/// The interpolation of an animation sampler that names none.
pub fn animation_sampler_default_interpolation() -> (res: String)
    ensures
        res@ == "LINEAR"@,
{
    "LINEAR".to_string()
}

} // verus!
