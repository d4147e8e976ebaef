//! Converts the captures of a parent view to a subview's captures.

use vstd::prelude::*;
use crate::layout::{DefaultEnvironment, ResolvedLayout};
use crate::primitives::{Point, ProposedDimensions};
use crate::view::ViewLayout;

verus! {

#[derive(Debug, Clone)]
pub struct Lens<V, F> {
    pub inner: V,
    pub capture_fn: F,
}

impl<V, F> Lens<V, F> {
    /// Wraps `inner`, handing it the captures `capture_fn` selects.
    pub fn new(inner: V, capture_fn: F) -> (r: Self)
        ensures
            r == (Lens { inner, capture_fn }),
    {
        Lens { inner, capture_fn }
    }
}

impl<V: ViewLayout, F> ViewLayout for Lens<V, F> {
    type Sublayout = V::Sublayout;
    type Renderables = V::Renderables;

    open spec fn spec_priority(&self) -> i8 {
        self.inner.spec_priority()
    }

    open spec fn spec_is_empty(&self) -> bool {
        self.inner.spec_is_empty()
    }

    open spec fn admits(&self, offer: ProposedDimensions, env: DefaultEnvironment) -> bool {
        self.inner.admits(offer, env)
    }

    open spec fn spec_layout(&self, offer: ProposedDimensions, env: DefaultEnvironment) -> ResolvedLayout<V::Sublayout> {
        self.inner.spec_layout(offer, env)
    }

    open spec fn render_admits(&self, layout: ResolvedLayout<V::Sublayout>, origin: Point, env: DefaultEnvironment) -> bool {
        self.inner.render_admits(layout, origin, env)
    }

    open spec fn spec_render_tree(&self, layout: ResolvedLayout<V::Sublayout>, origin: Point, env: DefaultEnvironment) -> V::Renderables {
        self.inner.spec_render_tree(layout, origin, env)
    }

    fn priority(&self) -> (r: i8) {
        self.inner.priority()
    }

    fn is_empty(&self) -> (r: bool) {
        self.inner.is_empty()
    }

    fn layout(&self, offer: &ProposedDimensions, env: &DefaultEnvironment) -> (r: ResolvedLayout<V::Sublayout>) {
        self.inner.layout(offer, env)
    }

    fn render_tree(&self, layout: &ResolvedLayout<V::Sublayout>, origin: Point, env: &DefaultEnvironment) -> (r: V::Renderables) {
        self.inner.render_tree(layout, origin, env)
    }
}

} // verus!
