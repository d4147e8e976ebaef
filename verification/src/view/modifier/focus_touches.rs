//! Moves focus to a tapped child that handled the touch.

use vstd::prelude::*;
use crate::event::Event;
use crate::focus::{FocusAction, FocusDirection, FocusGroup, FocusResult};
use crate::layout::{DefaultEnvironment, ResolvedLayout};
use crate::primitives::{Point, ProposedDimensions};
use crate::view::ViewLayout;

verus! {

#[derive(Debug, Clone, PartialEq, Eq)]
pub struct FocusTouches<T> {
    pub child: T,
}

impl<T> FocusTouches<T> {
    /// Wraps a view so that handled touches move focus.
    pub fn new(child: T) -> (r: Self)
        ensures
            r == (FocusTouches { child }),
    {
        FocusTouches { child }
    }
}

/// What a view that moves focus to tapped children does once its child has handled an
/// event with a trial copy of its focus.
#[derive(Debug, Clone, Copy, PartialEq, Eq, Structural)]
pub enum FocusTouchStep {
    /// Keep the focus held before the touch.
    Keep,
    /// Tear the focus held before the touch down in the group, adopt the trial focus, and pass a
    /// forward focus request in the group to the child.
    Adopt(FocusGroup),
}

/// Whether an event goes to the child with a trial copy of its focus: touches do,
/// other events go to the child with its focus.
pub open spec fn uses_trial_focus(event: Event) -> bool {
    event is Touch
}

/// What to do once the child has answered a touch with `result`: a touch handled with a
/// request for focus moves focus there.
pub open spec fn focus_touch_step(result: FocusResult) -> FocusTouchStep {
    match result {
        FocusResult::Handled { request_focus: true, group } => FocusTouchStep::Adopt(group),
        _ => FocusTouchStep::Keep,
    }
}

/// The focus requests passed to the child when it adopts the trial focus, in order.
pub open spec fn adoption_events(group: FocusGroup) -> (Event, Event) {
    (
        Event::Focus { action: FocusAction::Teardown, group },
        Event::Focus { action: FocusAction::Focus(FocusDirection::Forward), group },
    )
}

impl<T> FocusTouches<T> {
    /// Whether the event goes to the child with a trial copy of its focus.
    pub fn trial_focus(&self, event: &Event) -> (r: bool)
        ensures
            r == uses_trial_focus(*event),
    {
        matches!(event, Event::Touch(_))
    }

    /// What to do once the child has answered a touch with `result`.
    pub fn handle_event(&self, result: FocusResult) -> (r: FocusTouchStep)
        ensures
            r == focus_touch_step(result),
    {
        match result {
            FocusResult::Handled { request_focus: true, group } => FocusTouchStep::Adopt(group),
            _ => FocusTouchStep::Keep,
        }
    }

    /// The focus requests passed to the child when it adopts the trial focus in `group`.
    pub fn adoption(&self, group: FocusGroup) -> (r: (Event, Event))
        ensures
            r == adoption_events(group),
    {
        (
            Event::Focus { action: FocusAction::Teardown, group },
            Event::Focus { action: FocusAction::Focus(FocusDirection::Forward), group },
        )
    }
}

impl<T: ViewLayout> ViewLayout for FocusTouches<T> {
    type Sublayout = T::Sublayout;
    type Renderables = T::Renderables;

    open spec fn spec_priority(&self) -> i8 {
        self.child.spec_priority()
    }

    open spec fn spec_is_empty(&self) -> bool {
        self.child.spec_is_empty()
    }

    open spec fn admits(&self, offer: ProposedDimensions, env: DefaultEnvironment) -> bool {
        self.child.admits(offer, env)
    }

    open spec fn spec_layout(&self, offer: ProposedDimensions, env: DefaultEnvironment) -> ResolvedLayout<T::Sublayout> {
        self.child.spec_layout(offer, env)
    }

    open spec fn render_admits(&self, layout: ResolvedLayout<T::Sublayout>, origin: Point, env: DefaultEnvironment) -> bool {
        self.child.render_admits(layout, origin, env)
    }

    open spec fn spec_render_tree(&self, layout: ResolvedLayout<T::Sublayout>, origin: Point, env: DefaultEnvironment) -> T::Renderables {
        self.child.spec_render_tree(layout, origin, env)
    }

    fn priority(&self) -> (r: i8) {
        self.child.priority()
    }

    fn is_empty(&self) -> (r: bool) {
        self.child.is_empty()
    }

    fn layout(&self, offer: &ProposedDimensions, env: &DefaultEnvironment) -> (r: ResolvedLayout<T::Sublayout>) {
        self.child.layout(offer, env)
    }

    fn render_tree(&self, layout: &ResolvedLayout<T::Sublayout>, origin: Point, env: &DefaultEnvironment) -> (r: T::Renderables) {
        self.child.render_tree(layout, origin, env)
    }
}

} // verus!
