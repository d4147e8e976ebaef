//! Scales a view when rendering, leaving its layout unaffected.

use vstd::prelude::*;
use crate::layout::{DefaultEnvironment, ResolvedLayout};
use crate::primitives::{point_add_fits, unit_offset, Point, ProposedDimensions, UnitPoint};
use crate::render::{ScaleFactor, Transform};
use crate::view::ViewLayout;

verus! {

/// Applies a scale effect to the inner view about an anchor.
///
/// A scale of one leaves the view as it is, less shrinks it and more enlarges it.
#[derive(Debug, Clone, PartialEq, Eq)]
pub struct ScaleEffect<V> {
    pub inner: V,
    pub scale: ScaleFactor,
    pub anchor: UnitPoint,
}

impl<V> ScaleEffect<V> {
    /// Scales `inner` by `scale` about `anchor`.
    pub fn new(inner: V, scale: ScaleFactor, anchor: UnitPoint) -> (r: Self)
        ensures
            r == (ScaleEffect { inner, scale, anchor }),
    {
        ScaleEffect { inner, scale, anchor }
    }
}

impl<V: ViewLayout> ScaleEffect<V> {
    /// The anchor relative to the view's origin, for a layout of the given size.
    pub open spec fn anchor_offset(&self, layout: ResolvedLayout<V::Sublayout>) -> Point {
        Point {
            x: unit_offset(self.anchor.x, layout.resolved_size.width),
            y: unit_offset(self.anchor.y, layout.resolved_size.height),
        }
    }
}

impl<V: ViewLayout> ViewLayout for ScaleEffect<V> {
    type Sublayout = V::Sublayout;
    type Renderables = Transform<V::Renderables>;

    open spec fn spec_priority(&self) -> i8 { self.inner.spec_priority() }
    open spec fn spec_is_empty(&self) -> bool { self.inner.spec_is_empty() }

    open spec fn admits(&self, offer: ProposedDimensions, env: DefaultEnvironment) -> bool {
        self.inner.admits(offer, env)
    }

    open spec fn spec_layout(&self, offer: ProposedDimensions, env: DefaultEnvironment) -> ResolvedLayout<V::Sublayout> {
        self.inner.spec_layout(offer, env)
    }

    open spec fn render_admits(&self, layout: ResolvedLayout<V::Sublayout>, origin: Point, env: DefaultEnvironment) -> bool {
        let a = self.anchor_offset(layout);
        &&& point_add_fits(origin, a)
        &&& self.inner.render_admits(layout, Point { x: (-a.x) as i32, y: (-a.y) as i32 }, env)
    }

    open spec fn spec_render_tree(&self, layout: ResolvedLayout<V::Sublayout>, origin: Point, env: DefaultEnvironment) -> Transform<V::Renderables> {
        let a = self.anchor_offset(layout);
        Transform {
            subtree: self.inner.spec_render_tree(layout, Point { x: (-a.x) as i32, y: (-a.y) as i32 }, env),
            anchor: Point { x: (origin.x + a.x) as i32, y: (origin.y + a.y) as i32 },
            scale: self.scale,
        }
    }

    fn priority(&self) -> (r: i8) { self.inner.priority() }

    fn is_empty(&self) -> (r: bool) { self.inner.is_empty() }

    fn layout(&self, offer: &ProposedDimensions, env: &DefaultEnvironment) -> (r: ResolvedLayout<V::Sublayout>) {
        self.inner.layout(offer, env)
    }

    fn render_tree(&self, layout: &ResolvedLayout<V::Sublayout>, origin: Point, env: &DefaultEnvironment) -> (r: Transform<V::Renderables>) {
        let anchor = self.anchor.in_view_bounds(layout.resolved_size);
        let subtree = self.inner.render_tree(layout, Point::new(-anchor.x, -anchor.y), env);
        Transform { subtree, anchor: origin.add(anchor), scale: self.scale }
    }
}

} // verus!
