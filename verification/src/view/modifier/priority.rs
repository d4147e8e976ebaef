//! Overrides the layout priority of a child view.

use vstd::prelude::*;
use crate::layout::{DefaultEnvironment, ResolvedLayout};
use crate::primitives::{Point, ProposedDimensions};
use crate::view::{EventView, ViewLayout};
use crate::focus::FocusResult;
use crate::event::Event;

verus! {

/// Sets the priority of the view layout.
///
/// Stack subviews are laid out in groups of equal priority, with higher priority views
/// laid out first.
#[derive(Debug, Clone)]
pub struct Priority<T> {
    pub priority: i8,
    pub child: T,
}

impl<T> Priority<T> {
    /// A view with the given layout priority.
    pub fn new(priority: i8, child: T) -> (r: Self)
        ensures
            r == (Priority { priority, child }),
    {
        Priority { priority, child }
    }
}

impl<T: ViewLayout> ViewLayout for Priority<T> {
    type Sublayout = T::Sublayout;
    type Renderables = T::Renderables;

    open spec fn spec_priority(&self) -> i8 {
        self.priority
    }

    open spec fn spec_is_empty(&self) -> bool {
        self.child.spec_is_empty()
    }

    open spec fn admits(&self, offer: ProposedDimensions, env: DefaultEnvironment) -> bool {
        self.child.admits(offer, env)
    }

    open spec fn spec_layout(&self, offer: ProposedDimensions, env: DefaultEnvironment) -> ResolvedLayout<T::Sublayout> {
        self.child.spec_layout(offer, env)
    }

    open spec fn render_admits(&self, layout: ResolvedLayout<T::Sublayout>, origin: Point, env: DefaultEnvironment) -> bool {
        self.child.render_admits(layout, origin, env)
    }

    open spec fn spec_render_tree(&self, layout: ResolvedLayout<T::Sublayout>, origin: Point, env: DefaultEnvironment) -> T::Renderables {
        self.child.spec_render_tree(layout, origin, env)
    }

    fn priority(&self) -> (r: i8) {
        self.priority
    }

    fn is_empty(&self) -> (r: bool) {
        self.child.is_empty()
    }

    fn layout(&self, offer: &ProposedDimensions, env: &DefaultEnvironment) -> (r: ResolvedLayout<T::Sublayout>) {
        self.child.layout(offer, env)
    }

    fn render_tree(&self, layout: &ResolvedLayout<T::Sublayout>, origin: Point, env: &DefaultEnvironment) -> (r: T::Renderables) {
        self.child.render_tree(layout, origin, env)
    }
}

/// Events go to its child, which keeps the state and the focus.
impl<T: EventView> EventView for Priority<T> {
    type State = T::State;
    type FocusTree = T::FocusTree;

    open spec fn spec_handle_event(&self, event: Event, state: T::State, focus: T::FocusTree) -> (FocusResult, T::State, T::FocusTree) {
        self.child.spec_handle_event(event, state, focus)
    }

    open spec fn spec_first_focus() -> T::FocusTree {
        T::spec_first_focus()
    }

    fn handle_event(&self, event: &Event, state: &mut T::State, focus: &mut T::FocusTree) -> (r: FocusResult) {
        self.child.handle_event(event, state, focus)
    }

    fn first_focus() -> (r: T::FocusTree) {
        T::first_focus()
    }
}

} // verus!
