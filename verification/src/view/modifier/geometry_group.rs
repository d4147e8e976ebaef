//! A coordinate space whose children are positioned relative to a zero offset.

use vstd::prelude::*;
use crate::layout::{DefaultEnvironment, ResolvedLayout};
use crate::primitives::{Point, ProposedDimensions};
use crate::view::ViewLayout;
use crate::render::Offset as RenderOffset;

verus! {

/// Creates a coordinate space in which children are positioned relative to a zero offset,
/// so that they animate relative to a shared origin.
#[derive(Debug, Clone)]
pub struct GeometryGroup<T> {
    pub inner: T,
}

impl<T> GeometryGroup<T> {
    /// A geometry group around a view.
    pub fn new(inner: T) -> (r: Self)
        ensures
            r == (GeometryGroup { inner }),
    {
        GeometryGroup { inner }
    }
}

impl<T: ViewLayout> ViewLayout for GeometryGroup<T> {
    type Sublayout = T::Sublayout;
    type Renderables = RenderOffset<T::Renderables>;

    open spec fn spec_priority(&self) -> i8 {
        self.inner.spec_priority()
    }

    open spec fn spec_is_empty(&self) -> bool {
        self.inner.spec_is_empty()
    }

    open spec fn admits(&self, offer: ProposedDimensions, env: DefaultEnvironment) -> bool {
        self.inner.admits(offer, env)
    }

    open spec fn spec_layout(&self, offer: ProposedDimensions, env: DefaultEnvironment) -> ResolvedLayout<T::Sublayout> {
        self.inner.spec_layout(offer, env)
    }

    open spec fn render_admits(&self, layout: ResolvedLayout<T::Sublayout>, origin: Point, env: DefaultEnvironment) -> bool {
        self.inner.render_admits(layout, Point { x: 0, y: 0 }, env)
    }

    open spec fn spec_render_tree(&self, layout: ResolvedLayout<T::Sublayout>, origin: Point, env: DefaultEnvironment) -> RenderOffset<T::Renderables> {
        RenderOffset { offset: origin, subtree: self.inner.spec_render_tree(layout, Point { x: 0, y: 0 }, env) }
    }

    fn priority(&self) -> (r: i8) {
        self.inner.priority()
    }

    fn is_empty(&self) -> (r: bool) {
        self.inner.is_empty()
    }

    fn layout(&self, offer: &ProposedDimensions, env: &DefaultEnvironment) -> (r: ResolvedLayout<T::Sublayout>) {
        self.inner.layout(offer, env)
    }

    fn render_tree(&self, layout: &ResolvedLayout<T::Sublayout>, origin: Point, env: &DefaultEnvironment) -> (r: RenderOffset<T::Renderables>) {
        RenderOffset { offset: origin, subtree: self.inner.render_tree(layout, Point::zero(), env) }
    }
}

} // verus!
