//! Renders a view tree at an opacity.

use vstd::prelude::*;
use crate::layout::{DefaultEnvironment, ResolvedLayout};
use crate::primitives::{Point, ProposedDimensions};
use crate::view::{EventView, ViewLayout};
use crate::focus::FocusResult;
use crate::event::Event;
use crate::render::Opacity as RenderOpacity;

verus! {

#[derive(Debug, Clone, PartialEq, Eq)]
pub struct Opacity<V> {
    pub inner: V,
    pub opacity: u8,
}

impl<V: ViewLayout> ViewLayout for Opacity<V> {
    type Sublayout = V::Sublayout;
    type Renderables = RenderOpacity<V::Renderables>;

    open spec fn spec_priority(&self) -> i8 {
        self.inner.spec_priority()
    }

    open spec fn spec_is_empty(&self) -> bool {
        self.inner.spec_is_empty()
    }

    open spec fn admits(&self, offer: ProposedDimensions, env: DefaultEnvironment) -> bool {
        self.inner.admits(offer, env)
    }

    open spec fn spec_layout(&self, offer: ProposedDimensions, env: DefaultEnvironment) -> ResolvedLayout<V::Sublayout> {
        self.inner.spec_layout(offer, env)
    }

    open spec fn render_admits(&self, layout: ResolvedLayout<V::Sublayout>, origin: Point, env: DefaultEnvironment) -> bool {
        self.inner.render_admits(layout, origin, env)
    }

    open spec fn spec_render_tree(&self, layout: ResolvedLayout<V::Sublayout>, origin: Point, env: DefaultEnvironment) -> RenderOpacity<V::Renderables> {
        RenderOpacity { subtree: self.inner.spec_render_tree(layout, origin, env), opacity: self.opacity }
    }

    fn priority(&self) -> (r: i8) {
        self.inner.priority()
    }

    fn is_empty(&self) -> (r: bool) {
        self.inner.is_empty()
    }

    fn layout(&self, offer: &ProposedDimensions, env: &DefaultEnvironment) -> (r: ResolvedLayout<V::Sublayout>) {
        self.inner.layout(offer, env)
    }

    fn render_tree(&self, layout: &ResolvedLayout<V::Sublayout>, origin: Point, env: &DefaultEnvironment) -> (r: RenderOpacity<V::Renderables>) {
        RenderOpacity { subtree: self.inner.render_tree(layout, origin, env), opacity: self.opacity }
    }
}

/// Events go to its child, which keeps the state and the focus.
impl<V: EventView> EventView for Opacity<V> {
    type State = V::State;
    type FocusTree = V::FocusTree;

    open spec fn spec_handle_event(&self, event: Event, state: V::State, focus: V::FocusTree) -> (FocusResult, V::State, V::FocusTree) {
        self.inner.spec_handle_event(event, state, focus)
    }

    open spec fn spec_first_focus() -> V::FocusTree {
        V::spec_first_focus()
    }

    fn handle_event(&self, event: &Event, state: &mut V::State, focus: &mut V::FocusTree) -> (r: FocusResult) {
        self.inner.handle_event(event, state, focus)
    }

    fn first_focus() -> (r: V::FocusTree) {
        V::first_focus()
    }
}

} // verus!
