//! Proposes compact dimensions so that a child takes its ideal size.

use vstd::prelude::*;
use crate::layout::{DefaultEnvironment, ResolvedLayout};
use crate::primitives::{Point, ProposedDimension, ProposedDimensions};
use crate::view::ViewLayout;

verus! {

/// Proposes [`ProposedDimension::Compact`] along the selected axes, so the child
/// renders at its ideal size along them.
#[derive(Debug, Clone)]
pub struct FixedSize<T> {
    pub horizontal: bool,
    pub vertical: bool,
    pub child: T,
}

impl<T> FixedSize<T> {
    /// Fixes `child` to its ideal size horizontally and/or vertically.
    pub fn new(horizontal: bool, vertical: bool, child: T) -> (r: Self)
        ensures
            r == (FixedSize { horizontal, vertical, child }),
    {
        FixedSize { horizontal, vertical, child }
    }
}

impl<T: ViewLayout> FixedSize<T> {
    /// The proposal made to the child.
    pub open spec fn child_offer(&self, offer: ProposedDimensions) -> ProposedDimensions {
        ProposedDimensions {
            width: if self.horizontal { ProposedDimension::Compact } else { offer.width },
            height: if self.vertical { ProposedDimension::Compact } else { offer.height },
        }
    }
}

impl<T: ViewLayout> ViewLayout for FixedSize<T> {
    type Sublayout = T::Sublayout;
    type Renderables = T::Renderables;

    open spec fn spec_priority(&self) -> i8 { self.child.spec_priority() }
    open spec fn spec_is_empty(&self) -> bool { self.child.spec_is_empty() }

    open spec fn admits(&self, offer: ProposedDimensions, env: DefaultEnvironment) -> bool {
        self.child.admits(self.child_offer(offer), env)
    }

    open spec fn spec_layout(&self, offer: ProposedDimensions, env: DefaultEnvironment) -> ResolvedLayout<T::Sublayout> {
        self.child.spec_layout(self.child_offer(offer), env)
    }

    open spec fn render_admits(&self, layout: ResolvedLayout<T::Sublayout>, origin: Point, env: DefaultEnvironment) -> bool {
        self.child.render_admits(layout, origin, env)
    }

    open spec fn spec_render_tree(&self, layout: ResolvedLayout<T::Sublayout>, origin: Point, env: DefaultEnvironment) -> T::Renderables {
        self.child.spec_render_tree(layout, origin, env)
    }

    fn priority(&self) -> (r: i8) { self.child.priority() }

    fn is_empty(&self) -> (r: bool) { self.child.is_empty() }

    fn layout(&self, offer: &ProposedDimensions, env: &DefaultEnvironment) -> (r: ResolvedLayout<T::Sublayout>) {
        let proposed_width = if self.horizontal { ProposedDimension::Compact } else { offer.width };
        let proposed_height = if self.vertical { ProposedDimension::Compact } else { offer.height };
        let child_offer = ProposedDimensions { width: proposed_width, height: proposed_height };
        self.child.layout(&child_offer, env)
    }

    fn render_tree(&self, layout: &ResolvedLayout<T::Sublayout>, origin: Point, env: &DefaultEnvironment) -> (r: T::Renderables) {
        self.child.render_tree(layout, origin, env)
    }
}

} // verus!
