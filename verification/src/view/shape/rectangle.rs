//! A rectangle that fills the space it is offered.

use vstd::prelude::*;
use crate::layout::{DefaultEnvironment, ResolvedLayout};
use crate::primitives::{resolve_flexible, Dimensions, Point, ProposedDimensions};
use crate::render::{dimensions_to_size, size_of, Rect};
use crate::view::{EventView, ViewLayout};
use crate::event::Event;
use crate::focus::FocusResult;
use crate::view::shape::rounded_rectangle::RoundedRectangle;

verus! {

/// A rectangle which takes space greedily on both axes.
///
/// By default, this renders a filled shape with the inherited foreground color.
#[derive(Debug, Copy, Clone, PartialEq, Eq, Structural)]
pub struct Rectangle;

impl Rectangle {
    /// Adds a corner radius to all corners.
    pub fn corner_radius(self, radius: u16) -> (r: RoundedRectangle)
        ensures
            r.corner_radius == radius,
    {
        RoundedRectangle::new(radius)
    }
}

impl ViewLayout for Rectangle {
    type Sublayout = ();
    type Renderables = Rect;

    open spec fn spec_priority(&self) -> i8 { 0 }
    open spec fn spec_is_empty(&self) -> bool { false }
    open spec fn admits(&self, offer: ProposedDimensions, env: DefaultEnvironment) -> bool { true }

    open spec fn spec_layout(&self, offer: ProposedDimensions, env: DefaultEnvironment) -> ResolvedLayout<()> {
        ResolvedLayout {
            sublayouts: (),
            resolved_size: Dimensions {
                width: resolve_flexible(offer.width, 0, 1),
                height: resolve_flexible(offer.height, 0, 1),
            },
        }
    }

    open spec fn render_admits(&self, layout: ResolvedLayout<()>, origin: Point, env: DefaultEnvironment) -> bool { true }

    open spec fn spec_render_tree(&self, layout: ResolvedLayout<()>, origin: Point, env: DefaultEnvironment) -> Rect {
        Rect { origin, size: size_of(layout.resolved_size) }
    }

    fn priority(&self) -> (r: i8) { 0 }

    fn is_empty(&self) -> (r: bool) { false }

    fn layout(&self, offer: &ProposedDimensions, env: &DefaultEnvironment) -> (r: ResolvedLayout<()>) {
        ResolvedLayout { sublayouts: (), resolved_size: offer.resolve_most_flexible(0, 1) }
    }

    fn render_tree(&self, layout: &ResolvedLayout<()>, origin: Point, env: &DefaultEnvironment) -> (r: Rect) {
        Rect { origin, size: dimensions_to_size(layout.resolved_size) }
    }
}

/// A rectangle keeps nothing between events and leaves every event to others.
impl EventView for Rectangle {
    type State = ();
    type FocusTree = ();

    open spec fn spec_handle_event(&self, event: Event, state: (), focus: ()) -> (FocusResult, (), ()) {
        (FocusResult::Deferred, (), ())
    }

    open spec fn spec_first_focus() -> () {
        ()
    }

    fn handle_event(&self, event: &Event, state: &mut (), focus: &mut ()) -> (r: FocusResult) {
        FocusResult::Deferred
    }

    fn first_focus() -> (r: ()) {
        ()
    }
}

} // verus!
