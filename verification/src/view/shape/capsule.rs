//! A capsule that fills the space it is offered.

use vstd::prelude::*;
use crate::layout::{DefaultEnvironment, ResolvedLayout};
use crate::primitives::{resolve_flexible, Dimensions, Point, ProposedDimensions};
use crate::render::{dimensions_to_size, size_of, Capsule as CapsuleShape};
use crate::view::{EventView, ViewLayout};
use crate::focus::FocusResult;
use crate::event::Event;

verus! {

/// A capsule primitive, oriented along its longer axis, which takes space greedily.
#[derive(Debug, Copy, Clone, PartialEq, Eq, Structural)]
pub struct Capsule;

impl ViewLayout for Capsule {
    type Sublayout = Dimensions;
    type Renderables = CapsuleShape;

    open spec fn spec_priority(&self) -> i8 { 0 }
    open spec fn spec_is_empty(&self) -> bool { false }
    open spec fn admits(&self, offer: ProposedDimensions, env: DefaultEnvironment) -> bool { true }

    open spec fn spec_layout(&self, offer: ProposedDimensions, env: DefaultEnvironment) -> ResolvedLayout<Dimensions> {
        let d = Dimensions {
            width: resolve_flexible(offer.width, 0, 1),
            height: resolve_flexible(offer.height, 0, 1),
        };
        ResolvedLayout { sublayouts: d, resolved_size: d }
    }

    open spec fn render_admits(&self, layout: ResolvedLayout<Dimensions>, origin: Point, env: DefaultEnvironment) -> bool { true }

    open spec fn spec_render_tree(&self, layout: ResolvedLayout<Dimensions>, origin: Point, env: DefaultEnvironment) -> CapsuleShape {
        CapsuleShape { origin, size: size_of(layout.sublayouts) }
    }

    fn priority(&self) -> (r: i8) { 0 }

    fn is_empty(&self) -> (r: bool) { false }

    fn layout(&self, offer: &ProposedDimensions, env: &DefaultEnvironment) -> (r: ResolvedLayout<Dimensions>) {
        let dimensions = offer.resolve_most_flexible(0, 1);
        ResolvedLayout { sublayouts: dimensions, resolved_size: offer.resolve_most_flexible(0, 1) }
    }

    fn render_tree(&self, layout: &ResolvedLayout<Dimensions>, origin: Point, env: &DefaultEnvironment) -> (r: CapsuleShape) {
        CapsuleShape { origin, size: dimensions_to_size(layout.sublayouts) }
    }
}

/// A capsule keeps nothing between events and leaves every event to others.
impl EventView for Capsule {
    type State = ();
    type FocusTree = ();

    open spec fn spec_handle_event(&self, event: Event, state: (), focus: ()) -> (FocusResult, (), ()) {
        (FocusResult::Deferred, (), ())
    }

    open spec fn spec_first_focus() -> () {
        ()
    }

    fn handle_event(&self, event: &Event, state: &mut (), focus: &mut ()) -> (r: FocusResult) {
        FocusResult::Deferred
    }

    fn first_focus() -> (r: ()) {
        ()
    }
}

} // verus!
