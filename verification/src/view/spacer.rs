//! An invisible view that greedily takes the remaining space of a stack.

use vstd::prelude::*;
use crate::layout::{DefaultEnvironment, LayoutDirection, ResolvedLayout};
use crate::primitives::{resolve_flexible, Dimension, Dimensions, Point, ProposedDimensions};
use crate::view::{EventView, ViewLayout};
use crate::focus::FocusResult;
use crate::event::Event;

verus! {

/// An invisible spacer that greedily takes space along the layout direction.
///
/// Spacer has the minimum layout priority, so stacks offer it space only after all
/// other siblings have been laid out.
#[derive(Debug, PartialEq, Eq, Structural)]
pub struct Spacer {
    pub min_length: u32,
}

impl Spacer {
    /// A spacer with no minimum length.
    pub fn default() -> (r: Spacer)
        ensures
            r.min_length == 0,
    {
        Spacer { min_length: 0 }
    }
}

impl ViewLayout for Spacer {
    type Sublayout = ();
    type Renderables = ();

    open spec fn spec_priority(&self) -> i8 { i8::MIN }
    open spec fn spec_is_empty(&self) -> bool { false }
    open spec fn admits(&self, offer: ProposedDimensions, env: DefaultEnvironment) -> bool { true }

    open spec fn spec_layout(&self, offer: ProposedDimensions, env: DefaultEnvironment) -> ResolvedLayout<()> {
        ResolvedLayout {
            sublayouts: (),
            resolved_size: match env.layout_direction {
                LayoutDirection::Horizontal => Dimensions {
                    width: resolve_flexible(offer.width, 0, self.min_length),
                    height: Dimension(0),
                },
                LayoutDirection::Vertical => Dimensions {
                    width: Dimension(0),
                    height: resolve_flexible(offer.height, 0, self.min_length),
                },
            },
        }
    }

    open spec fn render_admits(&self, layout: ResolvedLayout<()>, origin: Point, env: DefaultEnvironment) -> bool { true }

    open spec fn spec_render_tree(&self, layout: ResolvedLayout<()>, origin: Point, env: DefaultEnvironment) -> () { () }

    fn priority(&self) -> (r: i8) { i8::MIN }

    fn is_empty(&self) -> (r: bool) { false }

    fn layout(&self, offer: &ProposedDimensions, env: &DefaultEnvironment) -> (r: ResolvedLayout<()>) {
        let size = match env.layout_direction {
            LayoutDirection::Horizontal => Dimensions {
                width: offer.width.resolve_most_flexible(0, self.min_length),
                height: Dimension(0),
            },
            LayoutDirection::Vertical => Dimensions {
                width: Dimension(0),
                height: offer.height.resolve_most_flexible(0, self.min_length),
            },
        };
        ResolvedLayout { sublayouts: (), resolved_size: size }
    }

    fn render_tree(&self, layout: &ResolvedLayout<()>, origin: Point, env: &DefaultEnvironment) -> (r: ()) {
    }
}

} // verus!

verus! {

/// A spacer has the lowest layout priority, so a stack offers it space only after its
/// siblings (see `lemma_higher_priority_first`).
pub proof fn lemma_spacer_lowest_priority(spacer: Spacer, other: i8)
    ensures
        spacer.spec_priority() <= other,
{
}

/// A spacer keeps nothing between events and leaves every event to others.
impl EventView for Spacer {
    type State = ();
    type FocusTree = ();

    open spec fn spec_handle_event(&self, event: Event, state: (), focus: ()) -> (FocusResult, (), ()) {
        (FocusResult::Deferred, (), ())
    }

    open spec fn spec_first_focus() -> () {
        ()
    }

    fn handle_event(&self, event: &Event, state: &mut (), focus: &mut ()) -> (r: FocusResult) {
        FocusResult::Deferred
    }

    fn first_focus() -> (r: ()) {
        ()
    }
}

} // verus!
