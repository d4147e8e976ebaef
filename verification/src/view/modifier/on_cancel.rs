//! Runs a callback when a cancel key press is not handled by the child.

use vstd::prelude::*;
use crate::layout::{DefaultEnvironment, ResolvedLayout};
use crate::primitives::{Point, ProposedDimensions};
use crate::view::ViewLayout;
use crate::event::{Event, EventResult, KeyboardEventKind};

verus! {

#[derive(Debug)]
pub struct OnCancel<V, F> {
    pub view: V,
    pub func: F,
}

impl<V, F> OnCancel<V, F> {
    /// Wraps a view with a cancel callback.
    pub fn new(view: V, func: F) -> (r: Self)
        ensures
            r == (OnCancel { view, func }),
    {
        OnCancel { view, func }
    }
}

/// Whether a cancel callback runs: the event is a cancel key press the child left
/// unhandled.
pub open spec fn cancels(event: Event, child: EventResult) -> bool {
    &&& event matches Event::Keyboard(k) && k.kind == KeyboardEventKind::Cancel
    &&& !child.handled
}

impl<V, F> OnCancel<V, F> {
    /// Given the child's answer to an event, the view's answer and whether to run the
    /// callback: a cancel key press the child left unhandled runs it and is handled.
    pub fn handle_event(&self, event: &Event, child: EventResult) -> (r: (EventResult, bool))
        ensures
            r.1 == cancels(*event, child),
            r.0 == (if r.1 { EventResult { handled: true, ..child } } else { child }),
    {
        let mut result = child;
        let mut run = false;
        if let Event::Keyboard(k) = event {
            if !result.handled && k.kind == KeyboardEventKind::Cancel {
                run = true;
                result.handled = true;
            }
        }
        (result, run)
    }
}

impl<V: ViewLayout, F> ViewLayout for OnCancel<V, F> {
    type Sublayout = V::Sublayout;
    type Renderables = V::Renderables;

    open spec fn spec_priority(&self) -> i8 {
        self.view.spec_priority()
    }

    open spec fn spec_is_empty(&self) -> bool {
        self.view.spec_is_empty()
    }

    open spec fn admits(&self, offer: ProposedDimensions, env: DefaultEnvironment) -> bool {
        self.view.admits(offer, env)
    }

    open spec fn spec_layout(&self, offer: ProposedDimensions, env: DefaultEnvironment) -> ResolvedLayout<V::Sublayout> {
        self.view.spec_layout(offer, env)
    }

    open spec fn render_admits(&self, layout: ResolvedLayout<V::Sublayout>, origin: Point, env: DefaultEnvironment) -> bool {
        self.view.render_admits(layout, origin, env)
    }

    open spec fn spec_render_tree(&self, layout: ResolvedLayout<V::Sublayout>, origin: Point, env: DefaultEnvironment) -> V::Renderables {
        self.view.spec_render_tree(layout, origin, env)
    }

    fn priority(&self) -> (r: i8) {
        self.view.priority()
    }

    fn is_empty(&self) -> (r: bool) {
        self.view.is_empty()
    }

    fn layout(&self, offer: &ProposedDimensions, env: &DefaultEnvironment) -> (r: ResolvedLayout<V::Sublayout>) {
        self.view.layout(offer, env)
    }

    fn render_tree(&self, layout: &ResolvedLayout<V::Sublayout>, origin: Point, env: &DefaultEnvironment) -> (r: V::Renderables) {
        self.view.render_tree(layout, origin, env)
    }
}

} // verus!
