//! Converts the captures of a parent view to those of a component view.

use vstd::prelude::*;
use crate::layout::{DefaultEnvironment, ResolvedLayout};
use crate::primitives::{Point, ProposedDimensions};
use crate::view::{EventView, ViewLayout};
use crate::focus::FocusResult;
use crate::event::Event;

verus! {

#[derive(Debug, Clone)]
pub struct EraseCaptures<T> {
    pub inner: T,
}

impl<T> EraseCaptures<T> {
    /// Wraps a view that does not use the parent's captures.
    pub fn new(inner: T) -> (r: Self)
        ensures
            r == (EraseCaptures { inner }),
    {
        EraseCaptures { inner }
    }
}

impl<T: ViewLayout> ViewLayout for EraseCaptures<T> {
    type Sublayout = T::Sublayout;
    type Renderables = T::Renderables;

    open spec fn spec_priority(&self) -> i8 {
        self.inner.spec_priority()
    }

    open spec fn spec_is_empty(&self) -> bool {
        self.inner.spec_is_empty()
    }

    open spec fn admits(&self, offer: ProposedDimensions, env: DefaultEnvironment) -> bool {
        self.inner.admits(offer, env)
    }

    open spec fn spec_layout(&self, offer: ProposedDimensions, env: DefaultEnvironment) -> ResolvedLayout<T::Sublayout> {
        self.inner.spec_layout(offer, env)
    }

    open spec fn render_admits(&self, layout: ResolvedLayout<T::Sublayout>, origin: Point, env: DefaultEnvironment) -> bool {
        self.inner.render_admits(layout, origin, env)
    }

    open spec fn spec_render_tree(&self, layout: ResolvedLayout<T::Sublayout>, origin: Point, env: DefaultEnvironment) -> T::Renderables {
        self.inner.spec_render_tree(layout, origin, env)
    }

    fn priority(&self) -> (r: i8) {
        self.inner.priority()
    }

    fn is_empty(&self) -> (r: bool) {
        self.inner.is_empty()
    }

    fn layout(&self, offer: &ProposedDimensions, env: &DefaultEnvironment) -> (r: ResolvedLayout<T::Sublayout>) {
        self.inner.layout(offer, env)
    }

    fn render_tree(&self, layout: &ResolvedLayout<T::Sublayout>, origin: Point, env: &DefaultEnvironment) -> (r: T::Renderables) {
        self.inner.render_tree(layout, origin, env)
    }
}

/// Events go to its child, which keeps the state and the focus.
impl<T: EventView> EventView for EraseCaptures<T> {
    type State = T::State;
    type FocusTree = T::FocusTree;

    open spec fn spec_handle_event(&self, event: Event, state: T::State, focus: T::FocusTree) -> (FocusResult, T::State, T::FocusTree) {
        self.inner.spec_handle_event(event, state, focus)
    }

    open spec fn spec_first_focus() -> T::FocusTree {
        T::spec_first_focus()
    }

    fn handle_event(&self, event: &Event, state: &mut T::State, focus: &mut T::FocusTree) -> (r: FocusResult) {
        self.inner.handle_event(event, state, focus)
    }

    fn first_focus() -> (r: T::FocusTree) {
        T::first_focus()
    }
}

} // verus!
