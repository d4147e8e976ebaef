//! A rounded rectangle that fills the space it is offered.

use vstd::prelude::*;
use crate::layout::{DefaultEnvironment, ResolvedLayout};
use crate::primitives::{resolve_flexible, Dimensions, Point, ProposedDimensions};
use crate::render::{dimensions_to_size, size_of, RoundedRect};
use crate::view::{EventView, ViewLayout};
use crate::focus::FocusResult;
use crate::event::Event;

verus! {

/// A rectangle with rounded corners, which takes space greedily on both axes.
#[derive(Debug, Copy, Clone, PartialEq, Eq, Structural)]
pub struct RoundedRectangle {
    pub corner_radius: u16,
}

impl RoundedRectangle {
    /// A rounded rectangle with the given corner radius.
    pub fn new(corner_radius: u16) -> (r: RoundedRectangle)
        ensures
            r.corner_radius == corner_radius,
    {
        RoundedRectangle { corner_radius }
    }
}

impl ViewLayout for RoundedRectangle {
    type Sublayout = ();
    type Renderables = RoundedRect;

    open spec fn spec_priority(&self) -> i8 { 0 }
    open spec fn spec_is_empty(&self) -> bool { false }
    open spec fn admits(&self, offer: ProposedDimensions, env: DefaultEnvironment) -> bool { true }

    open spec fn spec_layout(&self, offer: ProposedDimensions, env: DefaultEnvironment) -> ResolvedLayout<()> {
        ResolvedLayout {
            sublayouts: (),
            resolved_size: Dimensions {
                width: resolve_flexible(offer.width, 0, 1),
                height: resolve_flexible(offer.height, 0, 1),
            },
        }
    }

    open spec fn render_admits(&self, layout: ResolvedLayout<()>, origin: Point, env: DefaultEnvironment) -> bool { true }

    open spec fn spec_render_tree(&self, layout: ResolvedLayout<()>, origin: Point, env: DefaultEnvironment) -> RoundedRect {
        RoundedRect { origin, size: size_of(layout.resolved_size), corner_radius: self.corner_radius }
    }

    fn priority(&self) -> (r: i8) { 0 }

    fn is_empty(&self) -> (r: bool) { false }

    fn layout(&self, offer: &ProposedDimensions, env: &DefaultEnvironment) -> (r: ResolvedLayout<()>) {
        ResolvedLayout { sublayouts: (), resolved_size: offer.resolve_most_flexible(0, 1) }
    }

    fn render_tree(&self, layout: &ResolvedLayout<()>, origin: Point, env: &DefaultEnvironment) -> (r: RoundedRect) {
        RoundedRect { origin, size: dimensions_to_size(layout.resolved_size), corner_radius: self.corner_radius }
    }
}

/// A rounded rectangle keeps nothing between events and leaves every event to others.
impl EventView for RoundedRectangle {
    type State = ();
    type FocusTree = ();

    open spec fn spec_handle_event(&self, event: Event, state: (), focus: ()) -> (FocusResult, (), ()) {
        (FocusResult::Deferred, (), ())
    }

    open spec fn spec_first_focus() -> () {
        ()
    }

    fn handle_event(&self, event: &Event, state: &mut (), focus: &mut ()) -> (r: FocusResult) {
        FocusResult::Deferred
    }

    fn first_focus() -> (r: ()) {
        ()
    }
}

} // verus!
