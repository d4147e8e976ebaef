//! Sets the foreground style used by a view tree when rendering.

use vstd::prelude::*;
use crate::layout::{DefaultEnvironment, ResolvedLayout};
use crate::primitives::{Point, ProposedDimensions};
use crate::view::ViewLayout;
use crate::render::ShadeSubtree;

verus! {

#[derive(Debug, Clone)]
pub struct ForegroundStyle<V, Style> {
    pub style: Style,
    pub inner: V,
}

impl<V, Style> ForegroundStyle<V, Style> {
    /// Applies a foreground style to a view tree.
    pub fn new(style: Style, inner: V) -> (r: Self)
        ensures
            r == (ForegroundStyle { style, inner }),
    {
        ForegroundStyle { style, inner }
    }
}

impl<V: ViewLayout, Style: Copy> ViewLayout for ForegroundStyle<V, Style> {
    type Sublayout = V::Sublayout;
    type Renderables = ShadeSubtree<Style, V::Renderables>;

    open spec fn spec_priority(&self) -> i8 {
        0
    }

    open spec fn spec_is_empty(&self) -> bool {
        false
    }

    open spec fn admits(&self, offer: ProposedDimensions, env: DefaultEnvironment) -> bool {
        self.inner.admits(offer, env)
    }

    open spec fn spec_layout(&self, offer: ProposedDimensions, env: DefaultEnvironment) -> ResolvedLayout<V::Sublayout> {
        self.inner.spec_layout(offer, env)
    }

    open spec fn render_admits(&self, layout: ResolvedLayout<V::Sublayout>, origin: Point, env: DefaultEnvironment) -> bool {
        self.inner.render_admits(layout, origin, env)
    }

    open spec fn spec_render_tree(&self, layout: ResolvedLayout<V::Sublayout>, origin: Point, env: DefaultEnvironment) -> ShadeSubtree<Style, V::Renderables> {
        ShadeSubtree { style: self.style, subtree: self.inner.spec_render_tree(layout, origin, env) }
    }

    fn priority(&self) -> (r: i8) {
        0
    }

    fn is_empty(&self) -> (r: bool) {
        false
    }

    fn layout(&self, offer: &ProposedDimensions, env: &DefaultEnvironment) -> (r: ResolvedLayout<V::Sublayout>) {
        self.inner.layout(offer, env)
    }

    fn render_tree(&self, layout: &ResolvedLayout<V::Sublayout>, origin: Point, env: &DefaultEnvironment) -> (r: ShadeSubtree<Style, V::Renderables>) {
        ShadeSubtree { style: self.style, subtree: self.inner.render_tree(layout, origin, env) }
    }
}

} // verus!
