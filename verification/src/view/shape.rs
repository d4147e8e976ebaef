//! Primitive shapes and stroking.

pub mod capsule;
pub mod circle;
pub mod rectangle;
pub mod rounded_rectangle;
pub mod style;

use vstd::prelude::*;
use crate::layout::{half_toward_zero, DefaultEnvironment, ResolvedLayout};
use crate::primitives::{Point, ProposedDimensions};
use crate::render::StrokedShape;
use crate::view::ViewLayout;

verus! {

/// Where a stroke is drawn relative to the edge of its shape.
#[derive(Debug, Clone, Copy, PartialEq, Eq, Structural)]
pub enum StrokeOffset {
    Outer,
    Center,
    Inner,
}

impl StrokeOffset {
    /// The default offset, [`StrokeOffset::Inner`].
    pub fn default() -> (r: StrokeOffset)
        ensures
            r == StrokeOffset::Inner,
    {
        StrokeOffset::Inner
    }
}

/// A shape drawn with a stroke instead of being filled.
#[derive(Debug, Clone, PartialEq, Eq)]
pub struct Stroked<T> {
    pub shape: T,
    pub style: StrokeOffset,
    pub line_width: u32,
}

impl<T> Stroked<T> {
    /// A stroked shape with the given offset and line width.
    pub fn new(shape: T, style: StrokeOffset, line_width: u32) -> (r: Self)
        ensures
            r == (Stroked { shape, style, line_width }),
    {
        Stroked { shape, style, line_width }
    }
}

/// How far the shape is inset so that a stroke of the given width lands where the
/// offset asks: inward by half the width for an inner stroke, outward for an outer one.
pub open spec fn stroke_inset(style: StrokeOffset, line_width: u32) -> i32 {
    match style {
        StrokeOffset::Outer => (-half_toward_zero((#[verifier::truncate] (line_width as i32)) as int)) as i32,
        StrokeOffset::Inner => half_toward_zero((#[verifier::truncate] (line_width as i32)) as int) as i32,
        StrokeOffset::Center => 0,
    }
}

/// Stroking for views.
pub trait ShapeExt: Sized {
    /// Draws a shape with an inner stroke instead of filling it.
    fn stroked(self, line_width: u32) -> (r: Stroked<Self>)
        ensures
            r == (Stroked { shape: self, style: StrokeOffset::Inner, line_width }),
    {
        Stroked::new(self, StrokeOffset::Inner, line_width)
    }

    /// Draws a shape with a stroke at the given offset instead of filling it.
    fn stroked_offset(self, line_width: u32, offset: StrokeOffset) -> (r: Stroked<Self>)
        ensures
            r == (Stroked { shape: self, style: offset, line_width }),
    {
        Stroked::new(self, offset, line_width)
    }
}

impl<T: ViewLayout> ShapeExt for T {}

impl<T: ViewLayout> ViewLayout for Stroked<T> {
    type Sublayout = T::Sublayout;
    type Renderables = StrokedShape<T::Renderables>;

    open spec fn spec_priority(&self) -> i8 { 0 }
    open spec fn spec_is_empty(&self) -> bool { false }

    open spec fn admits(&self, offer: ProposedDimensions, env: DefaultEnvironment) -> bool {
        self.shape.admits(offer, env)
    }

    open spec fn spec_layout(&self, offer: ProposedDimensions, env: DefaultEnvironment) -> ResolvedLayout<T::Sublayout> {
        self.shape.spec_layout(offer, env)
    }

    open spec fn render_admits(&self, layout: ResolvedLayout<T::Sublayout>, origin: Point, env: DefaultEnvironment) -> bool {
        self.shape.render_admits(layout, origin, env)
    }

    open spec fn spec_render_tree(&self, layout: ResolvedLayout<T::Sublayout>, origin: Point, env: DefaultEnvironment) -> StrokedShape<T::Renderables> {
        StrokedShape {
            shape: self.shape.spec_render_tree(layout, origin, env),
            inset: stroke_inset(self.style, self.line_width),
            line_width: self.line_width,
        }
    }

    fn priority(&self) -> (r: i8) { 0 }

    fn is_empty(&self) -> (r: bool) { false }

    fn layout(&self, offer: &ProposedDimensions, env: &DefaultEnvironment) -> (r: ResolvedLayout<T::Sublayout>) {
        self.shape.layout(offer, env)
    }

    fn render_tree(&self, layout: &ResolvedLayout<T::Sublayout>, origin: Point, env: &DefaultEnvironment) -> (r: StrokedShape<T::Renderables>) {
        let inset = match self.style {
            StrokeOffset::Outer => -((#[verifier::truncate] (self.line_width as i32)) / 2),
            StrokeOffset::Inner => (#[verifier::truncate] (self.line_width as i32)) / 2,
            StrokeOffset::Center => 0,
        };
        StrokedShape { shape: self.shape.render_tree(layout, origin, env), inset, line_width: self.line_width }
    }
}

} // verus!
