//! Sets the transition used when the view is added or removed.

use vstd::prelude::*;
use crate::layout::{DefaultEnvironment, ResolvedLayout};
use crate::primitives::{Point, ProposedDimensions};
use crate::view::{EventView, ViewLayout};
use crate::focus::FocusResult;
use crate::event::Event;

verus! {

#[derive(Debug, Clone, PartialEq, Eq)]
pub struct Transition<V, T> {
    pub transition: T,
    pub child: V,
}

impl<V, T> Transition<V, T> {
    /// Sets the transition of a view tree.
    pub fn new(transition: T, child: V) -> (r: Self)
        ensures
            r == (Transition { transition, child }),
    {
        Transition { transition, child }
    }
}

impl<V: ViewLayout, T> ViewLayout for Transition<V, T> {
    type Sublayout = V::Sublayout;
    type Renderables = V::Renderables;

    open spec fn spec_priority(&self) -> i8 {
        self.child.spec_priority()
    }

    open spec fn spec_is_empty(&self) -> bool {
        self.child.spec_is_empty()
    }

    open spec fn admits(&self, offer: ProposedDimensions, env: DefaultEnvironment) -> bool {
        self.child.admits(offer, env)
    }

    open spec fn spec_layout(&self, offer: ProposedDimensions, env: DefaultEnvironment) -> ResolvedLayout<V::Sublayout> {
        self.child.spec_layout(offer, env)
    }

    open spec fn render_admits(&self, layout: ResolvedLayout<V::Sublayout>, origin: Point, env: DefaultEnvironment) -> bool {
        self.child.render_admits(layout, origin, env)
    }

    open spec fn spec_render_tree(&self, layout: ResolvedLayout<V::Sublayout>, origin: Point, env: DefaultEnvironment) -> V::Renderables {
        self.child.spec_render_tree(layout, origin, env)
    }

    fn priority(&self) -> (r: i8) {
        self.child.priority()
    }

    fn is_empty(&self) -> (r: bool) {
        self.child.is_empty()
    }

    fn layout(&self, offer: &ProposedDimensions, env: &DefaultEnvironment) -> (r: ResolvedLayout<V::Sublayout>) {
        self.child.layout(offer, env)
    }

    fn render_tree(&self, layout: &ResolvedLayout<V::Sublayout>, origin: Point, env: &DefaultEnvironment) -> (r: V::Renderables) {
        self.child.render_tree(layout, origin, env)
    }
}

/// Events go to its child, which keeps the state and the focus.
impl<V: EventView, T> EventView for Transition<V, T> {
    type State = V::State;
    type FocusTree = V::FocusTree;

    open spec fn spec_handle_event(&self, event: Event, state: V::State, focus: V::FocusTree) -> (FocusResult, V::State, V::FocusTree) {
        self.child.spec_handle_event(event, state, focus)
    }

    open spec fn spec_first_focus() -> V::FocusTree {
        V::spec_first_focus()
    }

    fn handle_event(&self, event: &Event, state: &mut V::State, focus: &mut V::FocusTree) -> (r: FocusResult) {
        self.child.handle_event(event, state, focus)
    }

    fn first_focus() -> (r: V::FocusTree) {
        V::first_focus()
    }
}

} // verus!
