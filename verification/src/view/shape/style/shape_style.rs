//! The fill and stroke of a shape.

use vstd::prelude::*;

verus! {

/// A stroke: a colour and a line width.
#[derive(Debug, Clone, Copy, PartialEq, Eq)]
pub struct StrokeStyle<C> {
    pub color: C,
    pub width: u16,
}

impl<T> StrokeStyle<T> {
    /// A stroke of `color`, `width` wide.
    pub fn new(color: T, width: u16) -> (r: Self)
        ensures
            r == (StrokeStyle { color, width }),
    {
        StrokeStyle { color, width }
    }
}

/// How a shape is drawn: an optional fill and an optional stroke.
#[derive(Debug)]
pub struct ShapeStyle<C, F> {
    pub fill_style: Option<F>,
    pub stroke_style: Option<StrokeStyle<C>>,
}

impl<C, T> ShapeStyle<C, T> {
    /// Filled with `color`, not stroked.
    pub fn fill(color: T) -> (r: Self)
        ensures
            r == (ShapeStyle { fill_style: Some(color), stroke_style: None::<StrokeStyle<C>> }),
    {
        ShapeStyle { fill_style: Some(color), stroke_style: None }
    }

    /// Stroked with `color`, `width` wide, not filled.
    pub fn stroke(color: C, width: u16) -> (r: Self)
        ensures
            r == (ShapeStyle { fill_style: None::<T>, stroke_style: Some(StrokeStyle { color, width }) }),
    {
        ShapeStyle { fill_style: None, stroke_style: Some(StrokeStyle::new(color, width)) }
    }

    /// The same style filled with `fill`.
    pub fn with_fill(self, fill: T) -> (r: Self)
        ensures
            r == (ShapeStyle { fill_style: Some(fill), stroke_style: self.stroke_style }),
    {
        ShapeStyle { fill_style: Some(fill), stroke_style: self.stroke_style }
    }

    /// The same style stroked with `stroke`, `width` wide.
    pub fn with_stroke(self, stroke: C, width: u16) -> (r: Self)
        ensures
            r == (ShapeStyle { fill_style: self.fill_style, stroke_style: Some(StrokeStyle { color: stroke, width }) }),
    {
        ShapeStyle { fill_style: self.fill_style, stroke_style: Some(StrokeStyle::new(stroke, width)) }
    }
}

} // verus!
