//! Animates a view tree when a value changes.

use vstd::prelude::*;
use crate::layout::{DefaultEnvironment, ResolvedLayout};
use crate::primitives::{Point, ProposedDimensions};
use crate::view::{EventView, ViewLayout};
use crate::focus::FocusResult;
use crate::event::Event;
use crate::render::{Animate, Animation};

verus! {

#[derive(Debug, Clone)]
pub struct Animated<T, V> {
    pub inner: T,
    pub animation: Animation,
    pub value: V,
}

impl<T, V> Animated<T, V> {
    /// An animated view, animating with `animation` whenever `value` changes.
    pub fn new(inner: T, animation: Animation, value: V) -> (r: Self)
        ensures
            r == (Animated { inner, animation, value }),
    {
        Animated { inner, animation, value }
    }
}

impl<T: ViewLayout, V: Copy> ViewLayout for Animated<T, V> {
    type Sublayout = T::Sublayout;
    type Renderables = Animate<T::Renderables, V>;

    open spec fn spec_priority(&self) -> i8 {
        self.inner.spec_priority()
    }

    open spec fn spec_is_empty(&self) -> bool {
        self.inner.spec_is_empty()
    }

    open spec fn admits(&self, offer: ProposedDimensions, env: DefaultEnvironment) -> bool {
        self.inner.admits(offer, env)
    }

    open spec fn spec_layout(&self, offer: ProposedDimensions, env: DefaultEnvironment) -> ResolvedLayout<T::Sublayout> {
        self.inner.spec_layout(offer, env)
    }

    open spec fn render_admits(&self, layout: ResolvedLayout<T::Sublayout>, origin: Point, env: DefaultEnvironment) -> bool {
        self.inner.render_admits(layout, origin, env)
    }

    open spec fn spec_render_tree(&self, layout: ResolvedLayout<T::Sublayout>, origin: Point, env: DefaultEnvironment) -> Animate<T::Renderables, V> {
        Animate { subtree: self.inner.spec_render_tree(layout, origin, env), animation: self.animation, frame_time_ms: env.app_time_ms, value: self.value }
    }

    fn priority(&self) -> (r: i8) {
        self.inner.priority()
    }

    fn is_empty(&self) -> (r: bool) {
        self.inner.is_empty()
    }

    fn layout(&self, offer: &ProposedDimensions, env: &DefaultEnvironment) -> (r: ResolvedLayout<T::Sublayout>) {
        self.inner.layout(offer, env)
    }

    fn render_tree(&self, layout: &ResolvedLayout<T::Sublayout>, origin: Point, env: &DefaultEnvironment) -> (r: Animate<T::Renderables, V>) {
        Animate { subtree: self.inner.render_tree(layout, origin, env), animation: self.animation, frame_time_ms: env.app_time_ms, value: self.value }
    }
}

/// Events go to its child, which keeps the state and the focus.
impl<T: EventView, V: Copy> EventView for Animated<T, V> {
    type State = T::State;
    type FocusTree = T::FocusTree;

    open spec fn spec_handle_event(&self, event: Event, state: T::State, focus: T::FocusTree) -> (FocusResult, T::State, T::FocusTree) {
        self.inner.spec_handle_event(event, state, focus)
    }

    open spec fn spec_first_focus() -> T::FocusTree {
        T::spec_first_focus()
    }

    fn handle_event(&self, event: &Event, state: &mut T::State, focus: &mut T::FocusTree) -> (r: FocusResult) {
        self.inner.handle_event(event, state, focus)
    }

    fn first_focus() -> (r: T::FocusTree) {
        T::first_focus()
    }
}

} // verus!
