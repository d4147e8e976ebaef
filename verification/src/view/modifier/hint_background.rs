//! Hints the background color of a view, used to simulate alpha blending.

use vstd::prelude::*;
use crate::layout::{DefaultEnvironment, ResolvedLayout};
use crate::primitives::{Point, ProposedDimensions};
use crate::view::{EventView, ViewLayout};
use crate::focus::FocusResult;
use crate::event::Event;
use crate::render::HintBackground as RenderHint;

verus! {

#[derive(Debug, Clone)]
pub struct HintBackground<T, C> {
    pub inner: T,
    pub hint_color: C,
}

impl<T, C> HintBackground<T, C> {
    /// Hints the background color behind a view.
    pub fn new(inner: T, hint_color: C) -> (r: Self)
        ensures
            r == (HintBackground { inner, hint_color }),
    {
        HintBackground { inner, hint_color }
    }
}

impl<T: ViewLayout, C: Copy> ViewLayout for HintBackground<T, C> {
    type Sublayout = T::Sublayout;
    type Renderables = RenderHint<T::Renderables, C>;

    open spec fn spec_priority(&self) -> i8 {
        self.inner.spec_priority()
    }

    open spec fn spec_is_empty(&self) -> bool {
        self.inner.spec_is_empty()
    }

    open spec fn admits(&self, offer: ProposedDimensions, env: DefaultEnvironment) -> bool {
        self.inner.admits(offer, env)
    }

    open spec fn spec_layout(&self, offer: ProposedDimensions, env: DefaultEnvironment) -> ResolvedLayout<T::Sublayout> {
        self.inner.spec_layout(offer, env)
    }

    open spec fn render_admits(&self, layout: ResolvedLayout<T::Sublayout>, origin: Point, env: DefaultEnvironment) -> bool {
        self.inner.render_admits(layout, origin, env)
    }

    open spec fn spec_render_tree(&self, layout: ResolvedLayout<T::Sublayout>, origin: Point, env: DefaultEnvironment) -> RenderHint<T::Renderables, C> {
        RenderHint { subtree: self.inner.spec_render_tree(layout, origin, env), color: self.hint_color }
    }

    fn priority(&self) -> (r: i8) {
        self.inner.priority()
    }

    fn is_empty(&self) -> (r: bool) {
        self.inner.is_empty()
    }

    fn layout(&self, offer: &ProposedDimensions, env: &DefaultEnvironment) -> (r: ResolvedLayout<T::Sublayout>) {
        self.inner.layout(offer, env)
    }

    fn render_tree(&self, layout: &ResolvedLayout<T::Sublayout>, origin: Point, env: &DefaultEnvironment) -> (r: RenderHint<T::Renderables, C>) {
        RenderHint { subtree: self.inner.render_tree(layout, origin, env), color: self.hint_color }
    }
}

/// Events go to its child, which keeps the state and the focus.
impl<T: EventView, C: Copy> EventView for HintBackground<T, C> {
    type State = T::State;
    type FocusTree = T::FocusTree;

    open spec fn spec_handle_event(&self, event: Event, state: T::State, focus: T::FocusTree) -> (FocusResult, T::State, T::FocusTree) {
        self.inner.spec_handle_event(event, state, focus)
    }

    open spec fn spec_first_focus() -> T::FocusTree {
        T::spec_first_focus()
    }

    fn handle_event(&self, event: &Event, state: &mut T::State, focus: &mut T::FocusTree) -> (r: FocusResult) {
        self.inner.handle_event(event, state, focus)
    }

    fn first_focus() -> (r: T::FocusTree) {
        T::first_focus()
    }
}

} // verus!
