//! Offsets the rendered position of a child view.

use vstd::prelude::*;
use crate::layout::{DefaultEnvironment, ResolvedLayout};
use crate::primitives::{Point, ProposedDimensions};
use crate::view::{EventView, ViewLayout};
use crate::focus::FocusResult;
use crate::event::Event;
use crate::primitives::point_add_fits;

verus! {

/// Offsets the rendered position of a child view by a given point; layout is unaffected.
#[derive(Debug, Clone)]
pub struct Offset<T> {
    pub child: T,
    pub offset: Point,
}

impl<T> Offset<T> {
    /// A view rendered shifted by `offset`.
    pub fn new(child: T, offset: Point) -> (r: Self)
        ensures
            r == (Offset { child, offset }),
    {
        Offset { child, offset }
    }
}

impl<T: ViewLayout> ViewLayout for Offset<T> {
    type Sublayout = T::Sublayout;
    type Renderables = T::Renderables;

    open spec fn spec_priority(&self) -> i8 {
        self.child.spec_priority()
    }

    open spec fn spec_is_empty(&self) -> bool {
        self.child.spec_is_empty()
    }

    open spec fn admits(&self, offer: ProposedDimensions, env: DefaultEnvironment) -> bool {
        self.child.admits(offer, env)
    }

    open spec fn spec_layout(&self, offer: ProposedDimensions, env: DefaultEnvironment) -> ResolvedLayout<T::Sublayout> {
        self.child.spec_layout(offer, env)
    }

    open spec fn render_admits(&self, layout: ResolvedLayout<T::Sublayout>, origin: Point, env: DefaultEnvironment) -> bool {
        point_add_fits(origin, self.offset) && self.child.render_admits(layout, Point { x: (origin.x + self.offset.x) as i32, y: (origin.y + self.offset.y) as i32 }, env)
    }

    open spec fn spec_render_tree(&self, layout: ResolvedLayout<T::Sublayout>, origin: Point, env: DefaultEnvironment) -> T::Renderables {
        self.child.spec_render_tree(layout, Point { x: (origin.x + self.offset.x) as i32, y: (origin.y + self.offset.y) as i32 }, env)
    }

    fn priority(&self) -> (r: i8) {
        self.child.priority()
    }

    fn is_empty(&self) -> (r: bool) {
        self.child.is_empty()
    }

    fn layout(&self, offer: &ProposedDimensions, env: &DefaultEnvironment) -> (r: ResolvedLayout<T::Sublayout>) {
        self.child.layout(offer, env)
    }

    fn render_tree(&self, layout: &ResolvedLayout<T::Sublayout>, origin: Point, env: &DefaultEnvironment) -> (r: T::Renderables) {
        self.child.render_tree(layout, origin.add(self.offset), env)
    }
}

} // verus!

verus! {

/// Offsetting a view does not change its layout, only where it is drawn.
pub proof fn lemma_offset_keeps_layout<T: ViewLayout>(view: Offset<T>, offer: ProposedDimensions, env: DefaultEnvironment)
    ensures
        view.spec_layout(offer, env) == view.child.spec_layout(offer, env),
{
}

/// Events go to its child, which keeps the state and the focus.
impl<T: EventView> EventView for Offset<T> {
    type State = T::State;
    type FocusTree = T::FocusTree;

    open spec fn spec_handle_event(&self, event: Event, state: T::State, focus: T::FocusTree) -> (FocusResult, T::State, T::FocusTree) {
        self.child.spec_handle_event(event, state, focus)
    }

    open spec fn spec_first_focus() -> T::FocusTree {
        T::spec_first_focus()
    }

    fn handle_event(&self, event: &Event, state: &mut T::State, focus: &mut T::FocusTree) -> (r: FocusResult) {
        self.child.handle_event(event, state, focus)
    }

    fn first_focus() -> (r: T::FocusTree) {
        T::first_focus()
    }
}

} // verus!
