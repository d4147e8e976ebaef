//! Overrides the shape used to hit-test a view.

use vstd::prelude::*;
use crate::layout::{DefaultEnvironment, ResolvedLayout};
use crate::primitives::{Point, ProposedDimensions};
use crate::render::ContentShapeOverride;
use crate::view::modifier::background_color::size_offer;
use crate::view::{EventView, ViewLayout};
use crate::focus::FocusResult;
use crate::event::Event;

verus! {

/// A modifier that overrides the content shape of its child view.
#[derive(Debug, Clone)]
pub struct ContentShape<V, S> {
    pub inner: V,
    pub shape: S,
}

impl<V, S> ContentShape<V, S> {
    /// Hit-tests `inner` with `shape` instead of its own shape.
    pub fn new(inner: V, shape: S) -> (r: Self)
        ensures
            r == (ContentShape { inner, shape }),
    {
        ContentShape { inner, shape }
    }
}

impl<V: ViewLayout, S: ViewLayout> ViewLayout for ContentShape<V, S> {
    type Sublayout = ResolvedLayout<V::Sublayout>;
    type Renderables = ContentShapeOverride<V::Renderables, S::Renderables>;

    open spec fn spec_priority(&self) -> i8 { self.inner.spec_priority() }
    open spec fn spec_is_empty(&self) -> bool { self.inner.spec_is_empty() }

    open spec fn admits(&self, offer: ProposedDimensions, env: DefaultEnvironment) -> bool {
        self.inner.admits(offer, env)
    }

    open spec fn spec_layout(&self, offer: ProposedDimensions, env: DefaultEnvironment) -> ResolvedLayout<ResolvedLayout<V::Sublayout>> {
        let inner = self.inner.spec_layout(offer, env);
        ResolvedLayout { sublayouts: inner, resolved_size: inner.resolved_size }
    }

    open spec fn render_admits(&self, layout: ResolvedLayout<ResolvedLayout<V::Sublayout>>, origin: Point, env: DefaultEnvironment) -> bool {
        let shape = self.shape.spec_layout(size_offer(layout.resolved_size), env);
        &&& self.inner.render_admits(layout.sublayouts, origin, env)
        &&& self.shape.admits(size_offer(layout.resolved_size), env)
        &&& self.shape.render_admits(shape, origin, env)
    }

    open spec fn spec_render_tree(&self, layout: ResolvedLayout<ResolvedLayout<V::Sublayout>>, origin: Point, env: DefaultEnvironment) -> ContentShapeOverride<V::Renderables, S::Renderables> {
        let shape = self.shape.spec_layout(size_offer(layout.resolved_size), env);
        ContentShapeOverride {
            subtree: self.inner.spec_render_tree(layout.sublayouts, origin, env),
            shape: self.shape.spec_render_tree(shape, origin, env),
        }
    }

    fn priority(&self) -> (r: i8) { self.inner.priority() }

    fn is_empty(&self) -> (r: bool) { self.inner.is_empty() }

    fn layout(&self, offer: &ProposedDimensions, env: &DefaultEnvironment) -> (r: ResolvedLayout<ResolvedLayout<V::Sublayout>>) {
        let inner = self.inner.layout(offer, env);
        let size = inner.resolved_size;
        ResolvedLayout { sublayouts: inner, resolved_size: size }
    }

    fn render_tree(&self, layout: &ResolvedLayout<ResolvedLayout<V::Sublayout>>, origin: Point, env: &DefaultEnvironment) -> (r: ContentShapeOverride<V::Renderables, S::Renderables>) {
        let inner = self.inner.render_tree(&layout.sublayouts, origin, env);
        let shape = self.shape.layout(&ProposedDimensions::from_dimensions(layout.resolved_size), env);
        let content_shape = self.shape.render_tree(&shape, origin, env);
        ContentShapeOverride { subtree: inner, shape: content_shape }
    }
}

/// Events go to its child, which keeps the state and the focus.
impl<V: EventView, S: ViewLayout> EventView for ContentShape<V, S> {
    type State = V::State;
    type FocusTree = V::FocusTree;

    open spec fn spec_handle_event(&self, event: Event, state: V::State, focus: V::FocusTree) -> (FocusResult, V::State, V::FocusTree) {
        self.inner.spec_handle_event(event, state, focus)
    }

    open spec fn spec_first_focus() -> V::FocusTree {
        V::spec_first_focus()
    }

    fn handle_event(&self, event: &Event, state: &mut V::State, focus: &mut V::FocusTree) -> (r: FocusResult) {
        self.inner.handle_event(event, state, focus)
    }

    fn first_focus() -> (r: V::FocusTree) {
        V::first_focus()
    }
}

} // verus!
