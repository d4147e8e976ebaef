//! A line that separates the children of a stack.

use vstd::prelude::*;
use crate::layout::{DefaultEnvironment, LayoutDirection, ResolvedLayout};
use crate::primitives::{resolve_flexible, Dimension, Dimensions, Point, ProposedDimensions};
use crate::render::{dimensions_to_size, size_of, Rect};
use crate::view::{EventView, ViewLayout};
use crate::focus::FocusResult;
use crate::event::Event;

verus! {

/// A horizontal or vertical line, depending on the direction of the enclosing stack.
#[derive(Debug, Clone, PartialEq, Eq, Structural)]
pub struct Divider {
    /// The line width.
    pub weight: u16,
}

impl Divider {
    /// A divider of the given line width.
    pub fn new(weight: u16) -> (r: Divider)
        ensures
            r.weight == weight,
    {
        Divider { weight }
    }

    /// A divider one pixel wide.
    pub fn default() -> (r: Divider)
        ensures
            r.weight == 1,
    {
        Divider::new(1)
    }
}

impl ViewLayout for Divider {
    type Sublayout = Dimensions;
    type Renderables = Rect;

    open spec fn spec_priority(&self) -> i8 { i8::MAX }
    open spec fn spec_is_empty(&self) -> bool { false }
    open spec fn admits(&self, offer: ProposedDimensions, env: DefaultEnvironment) -> bool { true }

    open spec fn spec_layout(&self, offer: ProposedDimensions, env: DefaultEnvironment) -> ResolvedLayout<Dimensions> {
        let size = match env.layout_direction {
            LayoutDirection::Vertical => Dimensions {
                width: resolve_flexible(offer.width, 0, 1),
                height: Dimension(self.weight as u32),
            },
            LayoutDirection::Horizontal => Dimensions {
                width: Dimension(self.weight as u32),
                height: resolve_flexible(offer.height, 0, 1),
            },
        };
        ResolvedLayout { sublayouts: size, resolved_size: size }
    }

    open spec fn render_admits(&self, layout: ResolvedLayout<Dimensions>, origin: Point, env: DefaultEnvironment) -> bool { true }

    open spec fn spec_render_tree(&self, layout: ResolvedLayout<Dimensions>, origin: Point, env: DefaultEnvironment) -> Rect {
        Rect { origin, size: size_of(layout.sublayouts) }
    }

    fn priority(&self) -> (r: i8) { i8::MAX }

    fn is_empty(&self) -> (r: bool) { false }

    fn layout(&self, offer: &ProposedDimensions, env: &DefaultEnvironment) -> (r: ResolvedLayout<Dimensions>) {
        let size = match env.layout_direction {
            LayoutDirection::Vertical => Dimensions {
                width: offer.width.resolve_most_flexible(0, 1),
                height: Dimension(self.weight as u32),
            },
            LayoutDirection::Horizontal => Dimensions {
                width: Dimension(self.weight as u32),
                height: offer.height.resolve_most_flexible(0, 1),
            },
        };
        ResolvedLayout { sublayouts: size, resolved_size: size }
    }

    fn render_tree(&self, layout: &ResolvedLayout<Dimensions>, origin: Point, env: &DefaultEnvironment) -> (r: Rect) {
        Rect { origin, size: dimensions_to_size(layout.sublayouts) }
    }
}

/// A divider keeps nothing between events and leaves every event to others.
impl EventView for Divider {
    type State = ();
    type FocusTree = ();

    open spec fn spec_handle_event(&self, event: Event, state: (), focus: ()) -> (FocusResult, (), ()) {
        (FocusResult::Deferred, (), ())
    }

    open spec fn spec_first_focus() -> () {
        ()
    }

    fn handle_event(&self, event: &Event, state: &mut (), focus: &mut ()) -> (r: FocusResult) {
        FocusResult::Deferred
    }

    fn first_focus() -> (r: ()) {
        ()
    }
}

} // verus!
