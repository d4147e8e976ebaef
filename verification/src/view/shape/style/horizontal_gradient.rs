//! A fill that blends from one colour to another across a shape.

use vstd::prelude::*;

verus! {

/// A gradient from `start` at the leading edge to `end` at the trailing edge.
#[derive(Debug, PartialEq, Copy, Clone)]
pub struct HorizontalGradient<Color> {
    pub start: Color,
    pub end: Color,
}

impl<Color> HorizontalGradient<Color> {
    /// A gradient from `start` to `end`.
    pub fn new(start: Color, end: Color) -> (r: Self)
        ensures
            r == (HorizontalGradient { start, end }),
    {
        HorizontalGradient { start, end }
    }
}

} // verus!
