//! The colour a fill gives each pixel.

use vstd::prelude::*;
use crate::primitives::Size;

verus! {

/// A way of filling a shape: a colour for each pixel within the shape's bounds.
pub trait FillStyle {
    /// The colour type.
    type Color: Copy;

    /// The colour of the pixel at (`x`, `y`) in a shape of size `in_bounds`.
    fn shade_pixel(&self, x: u16, y: u16, in_bounds: Size) -> Self::Color;

    /// The single colour of the fill, if it has one.
    fn solid(&self) -> Option<Self::Color>;
}

} // verus!
