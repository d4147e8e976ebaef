//! A fill that blends from one colour to another down a shape.

use vstd::prelude::*;

verus! {

/// A gradient from `start` at the top to `end` at the bottom.
#[derive(Debug, PartialEq, Copy, Clone)]
pub struct VerticalGradient<Color> {
    pub start: Color,
    pub end: Color,
}

impl<Color> VerticalGradient<Color> {
    /// A gradient from `start` to `end`.
    pub fn new(start: Color, end: Color) -> (r: Self)
        ensures
            r == (VerticalGradient { start, end }),
    {
        VerticalGradient { start, end }
    }
}

} // verus!
