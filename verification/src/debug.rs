use vstd::prelude::*;

use crate::tools;

verus! {

/// Whether the instance supports every required validation layer.
///
/// True exactly when each name in `required_layers` also stands among
/// the layer names the instance reported, and at least one layer was
/// reported at all.
pub fn check_validation_layer_support(
    required_layers: &Vec<Vec<u8>>,
    available_layers: &Vec<Vec<u8>>,
) -> (r: bool)
    ensures
        r == (tools::all_contained(required_layers@, available_layers@)
            && available_layers@.len() > 0),
{
    let mut i: usize = 0;
    while i < required_layers.len()
        invariant
            i <= required_layers@.len(),
            forall|j: int| 0 <= j < i
                ==> tools::contains_bytes(available_layers@, required_layers@[j]@),
        decreases required_layers@.len() - i,
    {
        if !tools::contains_name(available_layers, &required_layers[i]) {
            return false;
        }
        i += 1;
    }
    available_layers.len() > 0
}

} // verus!
