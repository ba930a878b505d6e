//! Layout arithmetic used by the renderer.

use vstd::prelude::*;

verus! {

/// Top-left corner that centers an element of `elem_size` in an area of
/// `area_size` (widths first, then heights). The element must not be wider
/// or taller than the area, measured in half-cells, or there is no such
/// corner.
pub fn calculate_coordinates(area_size: (u16, u16), elem_size: (u16, u16)) -> (r: (u16, u16))
    requires
        elem_size.0 / 2 <= area_size.0 / 2,
        elem_size.1 / 2 <= area_size.1 / 2,
    ensures
        r.0 == area_size.0 / 2 - elem_size.0 / 2,
        r.1 == area_size.1 / 2 - elem_size.1 / 2,
{
    (area_size.0 / 2 - elem_size.0 / 2, area_size.1 / 2 - elem_size.1 / 2)
}

} // verus!
