//! A view that is laid out but not rendered.

use vstd::prelude::*;
use crate::layout::{DefaultEnvironment, ResolvedLayout};
use crate::primitives::{Point, ProposedDimensions};
use crate::view::ViewLayout;

verus! {

/// A view that uses the layout of the child view, but renders nothing.
#[derive(Debug, Clone)]
pub struct Hidden<T> {
    pub child: T,
}

impl<T> Hidden<T> {
    /// Hides a view while keeping its layout.
    pub fn new(child: T) -> (r: Self)
        ensures
            r == (Hidden { child }),
    {
        Hidden { child }
    }
}

impl<T: ViewLayout> ViewLayout for Hidden<T> {
    type Sublayout = T::Sublayout;
    type Renderables = ();

    open spec fn spec_priority(&self) -> i8 {
        self.child.spec_priority()
    }

    open spec fn spec_is_empty(&self) -> bool {
        self.child.spec_is_empty()
    }

    open spec fn admits(&self, offer: ProposedDimensions, env: DefaultEnvironment) -> bool {
        self.child.admits(offer, env)
    }

    open spec fn spec_layout(&self, offer: ProposedDimensions, env: DefaultEnvironment) -> ResolvedLayout<T::Sublayout> {
        self.child.spec_layout(offer, env)
    }

    open spec fn render_admits(&self, layout: ResolvedLayout<T::Sublayout>, origin: Point, env: DefaultEnvironment) -> bool {
        true
    }

    open spec fn spec_render_tree(&self, layout: ResolvedLayout<T::Sublayout>, origin: Point, env: DefaultEnvironment) -> () {
        ()
    }

    fn priority(&self) -> (r: i8) {
        self.child.priority()
    }

    fn is_empty(&self) -> (r: bool) {
        self.child.is_empty()
    }

    fn layout(&self, offer: &ProposedDimensions, env: &DefaultEnvironment) -> (r: ResolvedLayout<T::Sublayout>) {
        self.child.layout(offer, env)
    }

    fn render_tree(&self, layout: &ResolvedLayout<T::Sublayout>, origin: Point, env: &DefaultEnvironment) -> (r: ()) {
        ()
    }
}

} // verus!
