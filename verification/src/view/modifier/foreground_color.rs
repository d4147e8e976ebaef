//! Sets the foreground style of a view tree.

use vstd::prelude::*;
use crate::layout::{DefaultEnvironment, ResolvedLayout};
use crate::primitives::{Point, ProposedDimensions};
use crate::view::{EventView, ViewLayout};
use crate::focus::FocusResult;
use crate::event::Event;
use crate::render::ShadeSubtree;

verus! {

#[derive(Debug, Clone)]
pub struct ForegroundStyle<V, S> {
    pub style: S,
    pub inner: V,
}

impl<V, S> ForegroundStyle<V, S> {
    /// Applies a foreground style to a view tree.
    pub fn new(style: S, inner: V) -> (r: Self)
        ensures
            r == (ForegroundStyle { style, inner }),
    {
        ForegroundStyle { style, inner }
    }
}

impl<V: ViewLayout, S: Copy> ViewLayout for ForegroundStyle<V, S> {
    type Sublayout = V::Sublayout;
    type Renderables = ShadeSubtree<S, V::Renderables>;

    open spec fn spec_priority(&self) -> i8 {
        self.inner.spec_priority()
    }

    open spec fn spec_is_empty(&self) -> bool {
        self.inner.spec_is_empty()
    }

    open spec fn admits(&self, offer: ProposedDimensions, env: DefaultEnvironment) -> bool {
        self.inner.admits(offer, env)
    }

    open spec fn spec_layout(&self, offer: ProposedDimensions, env: DefaultEnvironment) -> ResolvedLayout<V::Sublayout> {
        self.inner.spec_layout(offer, env)
    }

    open spec fn render_admits(&self, layout: ResolvedLayout<V::Sublayout>, origin: Point, env: DefaultEnvironment) -> bool {
        self.inner.render_admits(layout, origin, env)
    }

    open spec fn spec_render_tree(&self, layout: ResolvedLayout<V::Sublayout>, origin: Point, env: DefaultEnvironment) -> ShadeSubtree<S, V::Renderables> {
        ShadeSubtree { style: self.style, subtree: self.inner.spec_render_tree(layout, origin, env) }
    }

    fn priority(&self) -> (r: i8) {
        self.inner.priority()
    }

    fn is_empty(&self) -> (r: bool) {
        self.inner.is_empty()
    }

    fn layout(&self, offer: &ProposedDimensions, env: &DefaultEnvironment) -> (r: ResolvedLayout<V::Sublayout>) {
        self.inner.layout(offer, env)
    }

    fn render_tree(&self, layout: &ResolvedLayout<V::Sublayout>, origin: Point, env: &DefaultEnvironment) -> (r: ShadeSubtree<S, V::Renderables>) {
        ShadeSubtree { style: self.style, subtree: self.inner.render_tree(layout, origin, env) }
    }
}

} // verus!

verus! {

/// Layout does not depend on colour: a view laid out with any two foreground styles
/// takes the same layout as without one.
pub proof fn lemma_layout_ignores_style<V: ViewLayout, S: Copy>(
    a: ForegroundStyle<V, S>,
    b: ForegroundStyle<V, S>,
    offer: ProposedDimensions,
    env: DefaultEnvironment,
)
    requires
        a.inner == b.inner,
    ensures
        a.spec_layout(offer, env) == b.spec_layout(offer, env),
        a.spec_layout(offer, env) == a.inner.spec_layout(offer, env),
{
}

/// Events go to its child, which keeps the state and the focus.
impl<V: EventView, S: Copy> EventView for ForegroundStyle<V, S> {
    type State = V::State;
    type FocusTree = V::FocusTree;

    open spec fn spec_handle_event(&self, event: Event, state: V::State, focus: V::FocusTree) -> (FocusResult, V::State, V::FocusTree) {
        self.inner.spec_handle_event(event, state, focus)
    }

    open spec fn spec_first_focus() -> V::FocusTree {
        V::spec_first_focus()
    }

    fn handle_event(&self, event: &Event, state: &mut V::State, focus: &mut V::FocusTree) -> (r: FocusResult) {
        self.inner.handle_event(event, state, focus)
    }

    fn first_focus() -> (r: V::FocusTree) {
        V::first_focus()
    }
}

} // verus!
