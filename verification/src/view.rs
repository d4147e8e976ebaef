//! The view trait and the views built on it.

use vstd::prelude::*;
use crate::layout::{DefaultEnvironment, ResolvedLayout};
use crate::primitives::{Point, ProposedDimensions};
use crate::event::Event;
use crate::focus::FocusResult;

pub mod button;
pub mod capturing;
pub mod conditional_view;
pub mod divider;
pub mod empty_view;
pub mod match_view;
pub mod foreach;
pub mod foreground_style;
pub mod geometry_reader;
pub mod hstack;
pub mod image;
pub mod option;
pub mod padding;
pub mod paginate;
pub mod pagination;
pub mod rectangle;
pub mod scroll_view;
pub mod shape;
pub mod spacer;
pub mod stack;
pub mod table;
pub mod text;
pub mod modifier;

verus! {

/// A view: something that can be laid out for a proposed size and turned into a
/// render tree at a position.
///
/// Layout is a pure function of the view, the proposal and the environment; the
/// `spec_` functions state it, and the executable methods are proved to compute it.
pub trait ViewLayout: Sized {
    /// The layouts of the children, kept for rendering.
    type Sublayout;
    /// The render tree this view produces.
    type Renderables;

    /// The layout priority of the view within stacks.
    spec fn spec_priority(&self) -> i8;

    /// Whether the view takes no part in stack spacing.
    spec fn spec_is_empty(&self) -> bool;

    /// Whether laying the view out for this proposal stays within machine arithmetic.
    spec fn admits(&self, offer: ProposedDimensions, env: DefaultEnvironment) -> bool;

    /// The layout of the view for a proposal.
    spec fn spec_layout(&self, offer: ProposedDimensions, env: DefaultEnvironment) -> ResolvedLayout<Self::Sublayout>;

    /// Whether rendering this layout at this origin stays within machine arithmetic.
    spec fn render_admits(&self, layout: ResolvedLayout<Self::Sublayout>, origin: Point, env: DefaultEnvironment) -> bool;

    /// The render tree of the view for a layout placed at an origin.
    spec fn spec_render_tree(&self, layout: ResolvedLayout<Self::Sublayout>, origin: Point, env: DefaultEnvironment) -> Self::Renderables;

    /// The layout priority of the view within stacks.
    fn priority(&self) -> (r: i8)
        ensures
            r == self.spec_priority(),
    ;

    /// Whether the view takes no part in stack spacing.
    fn is_empty(&self) -> (r: bool)
        ensures
            r == self.spec_is_empty(),
    ;

    /// Lays the view out for a proposal.
    fn layout(&self, offer: &ProposedDimensions, env: &DefaultEnvironment) -> (r: ResolvedLayout<Self::Sublayout>)
        requires
            self.admits(*offer, *env),
        ensures
            r == self.spec_layout(*offer, *env),
    ;

    /// Builds the render tree of the view for a layout placed at `origin`.
    fn render_tree(
        &self,
        layout: &ResolvedLayout<Self::Sublayout>,
        origin: Point,
        env: &DefaultEnvironment,
    ) -> (r: Self::Renderables)
        requires
            self.render_admits(*layout, origin, *env),
        ensures
            r == self.spec_render_tree(*layout, origin, *env),
    ;
}

/// A view that answers events: the state and the focus it keeps between events, and
/// what it answers to an event.
pub trait EventView: ViewLayout {
    /// What the view keeps between events.
    type State;
    /// Where focus is within the view.
    type FocusTree;

    /// The answer to an event, and the state and focus afterwards.
    spec fn spec_handle_event(&self, event: Event, state: Self::State, focus: Self::FocusTree) -> (FocusResult, Self::State, Self::FocusTree);

    /// The focus on the view's first element.
    spec fn spec_first_focus() -> Self::FocusTree;

    /// Answers an event, updating the state and the focus.
    fn handle_event(&self, event: &Event, state: &mut Self::State, focus: &mut Self::FocusTree) -> (r: FocusResult)
        ensures
            (r, *final(state), *final(focus)) == self.spec_handle_event(*event, *old(state), *old(focus)),
    ;

    /// The focus on the view's first element.
    fn first_focus() -> (r: Self::FocusTree)
        ensures
            r == Self::spec_first_focus(),
    ;
}

} // verus!
