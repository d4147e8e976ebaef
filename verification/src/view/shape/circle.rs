//! A circle sized to the smaller offered dimension.

use vstd::prelude::*;
use crate::layout::{DefaultEnvironment, ResolvedLayout};
use crate::primitives::{proposal_le, resolve_flexible, Dimensions, Point, ProposedDimension, ProposedDimensions};
use crate::render::Circle as CircleShape;
use crate::view::{EventView, ViewLayout};
use crate::focus::FocusResult;
use crate::event::Event;

verus! {

/// A circle primitive, as large as the smaller of the offered width and height.
#[derive(Debug, Copy, Clone, PartialEq, Eq, Structural)]
pub struct Circle;

impl Circle {
    /// A circle.
    pub fn new() -> (r: Circle)
        ensures
            r == Circle,
    {
        Circle
    }
}

/// The smaller of the two proposed dimensions.
pub open spec fn smaller_proposal(offer: ProposedDimensions) -> ProposedDimension {
    if proposal_le(offer.width, offer.height) { offer.width } else { offer.height }
}

impl ViewLayout for Circle {
    type Sublayout = ();
    type Renderables = CircleShape;

    open spec fn spec_priority(&self) -> i8 { 0 }
    open spec fn spec_is_empty(&self) -> bool { false }
    open spec fn admits(&self, offer: ProposedDimensions, env: DefaultEnvironment) -> bool { true }

    open spec fn spec_layout(&self, offer: ProposedDimensions, env: DefaultEnvironment) -> ResolvedLayout<()> {
        let d = resolve_flexible(smaller_proposal(offer), 0, 1);
        ResolvedLayout { sublayouts: (), resolved_size: Dimensions { width: d, height: d } }
    }

    open spec fn render_admits(&self, layout: ResolvedLayout<()>, origin: Point, env: DefaultEnvironment) -> bool { true }

    open spec fn spec_render_tree(&self, layout: ResolvedLayout<()>, origin: Point, env: DefaultEnvironment) -> CircleShape {
        CircleShape { origin, diameter: layout.resolved_size.width.0 }
    }

    fn priority(&self) -> (r: i8) { 0 }

    fn is_empty(&self) -> (r: bool) { false }

    fn layout(&self, offer: &ProposedDimensions, env: &DefaultEnvironment) -> (r: ResolvedLayout<()>) {
        let minimum_dimension = offer.width.min(offer.height).resolve_most_flexible(0, 1);
        ResolvedLayout {
            sublayouts: (),
            resolved_size: Dimensions { width: minimum_dimension, height: minimum_dimension },
        }
    }

    fn render_tree(&self, layout: &ResolvedLayout<()>, origin: Point, env: &DefaultEnvironment) -> (r: CircleShape) {
        CircleShape { origin, diameter: layout.resolved_size.width.0 }
    }
}

/// A circle keeps nothing between events and leaves every event to others.
impl EventView for Circle {
    type State = ();
    type FocusTree = ();

    open spec fn spec_handle_event(&self, event: Event, state: (), focus: ()) -> (FocusResult, (), ()) {
        (FocusResult::Deferred, (), ())
    }

    open spec fn spec_first_focus() -> () {
        ()
    }

    fn handle_event(&self, event: &Event, state: &mut (), focus: &mut ()) -> (r: FocusResult) {
        FocusResult::Deferred
    }

    fn first_focus() -> (r: ()) {
        ()
    }
}

} // verus!
