//! A view that renders nothing and has zero size.

use vstd::prelude::*;
use crate::layout::{DefaultEnvironment, ResolvedLayout};
use crate::primitives::{Dimension, Dimensions, Point, ProposedDimensions};
use crate::view::{EventView, ViewLayout};
use crate::focus::FocusResult;
use crate::event::Event;

verus! {

/// A view that does not render anything and has a zero size.
///
/// In stacks, spacing is not added around this view.
#[derive(Debug, Clone, PartialEq, Eq, Structural)]
pub struct EmptyView;

impl ViewLayout for EmptyView {
    type Sublayout = ();
    type Renderables = ();

    open spec fn spec_priority(&self) -> i8 { i8::MIN }
    open spec fn spec_is_empty(&self) -> bool { true }
    open spec fn admits(&self, offer: ProposedDimensions, env: DefaultEnvironment) -> bool { true }

    open spec fn spec_layout(&self, offer: ProposedDimensions, env: DefaultEnvironment) -> ResolvedLayout<()> {
        ResolvedLayout { sublayouts: (), resolved_size: Dimensions { width: Dimension(0), height: Dimension(0) } }
    }

    open spec fn render_admits(&self, layout: ResolvedLayout<()>, origin: Point, env: DefaultEnvironment) -> bool { true }

    open spec fn spec_render_tree(&self, layout: ResolvedLayout<()>, origin: Point, env: DefaultEnvironment) -> () { () }

    fn priority(&self) -> (r: i8) { i8::MIN }

    fn is_empty(&self) -> (r: bool) { true }

    fn layout(&self, offer: &ProposedDimensions, env: &DefaultEnvironment) -> (r: ResolvedLayout<()>) {
        ResolvedLayout { sublayouts: (), resolved_size: Dimensions::zero() }
    }

    fn render_tree(&self, layout: &ResolvedLayout<()>, origin: Point, env: &DefaultEnvironment) -> (r: ()) {
    }
}

/// An empty view keeps nothing between events and leaves every event to others.
impl EventView for EmptyView {
    type State = ();
    type FocusTree = ();

    open spec fn spec_handle_event(&self, event: Event, state: (), focus: ()) -> (FocusResult, (), ()) {
        (FocusResult::Deferred, (), ())
    }

    open spec fn spec_first_focus() -> () {
        ()
    }

    fn handle_event(&self, event: &Event, state: &mut (), focus: &mut ()) -> (r: FocusResult) {
        FocusResult::Deferred
    }

    fn first_focus() -> (r: ()) {
        ()
    }
}

} // verus!
