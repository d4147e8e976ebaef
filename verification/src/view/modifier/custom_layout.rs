//! Lays a child out for a proposal computed by a function of the offer.

use vstd::prelude::*;
use crate::layout::{DefaultEnvironment, ResolvedLayout};
use crate::primitives::{Point, ProposedDimensions};
use crate::view::ViewLayout;

verus! {

/// Lays out a child with the proposal that `layout_fn` makes of the offer.
#[derive(Debug, Clone)]
pub struct CustomLayout<T, F> {
    pub child: T,
    pub layout_fn: F,
}

impl<T, F> CustomLayout<T, F> {
    /// Lays out `child` with the proposal `layout_fn` makes of each offer.
    pub fn new(child: T, layout_fn: F) -> (r: Self)
        ensures
            r == (CustomLayout { child, layout_fn }),
    {
        CustomLayout { child, layout_fn }
    }
}

impl<T: ViewLayout, F: Fn(ProposedDimensions) -> ProposedDimensions> CustomLayout<T, F> {
    /// The proposal `layout_fn` makes of `offer`.
    pub open spec fn modified_offer(&self, offer: ProposedDimensions) -> ProposedDimensions {
        choose|o: ProposedDimensions| call_ensures(self.layout_fn, (offer,), o)
    }

    /// `layout_fn` can be called on `offer` and returns one proposal only.
    pub open spec fn deterministic_at(&self, offer: ProposedDimensions) -> bool {
        &&& call_requires(self.layout_fn, (offer,))
        &&& forall|a: ProposedDimensions, b: ProposedDimensions|
            call_ensures(self.layout_fn, (offer,), a) && call_ensures(self.layout_fn, (offer,), b) ==> a == b
    }
}

impl<T: ViewLayout, F: Fn(ProposedDimensions) -> ProposedDimensions> ViewLayout for CustomLayout<T, F> {
    type Sublayout = T::Sublayout;
    type Renderables = T::Renderables;

    open spec fn spec_priority(&self) -> i8 { self.child.spec_priority() }
    open spec fn spec_is_empty(&self) -> bool { self.child.spec_is_empty() }

    open spec fn admits(&self, offer: ProposedDimensions, env: DefaultEnvironment) -> bool {
        &&& self.deterministic_at(offer)
        &&& forall|o: ProposedDimensions| call_ensures(self.layout_fn, (offer,), o) ==> self.child.admits(o, env)
    }

    open spec fn spec_layout(&self, offer: ProposedDimensions, env: DefaultEnvironment) -> ResolvedLayout<T::Sublayout> {
        self.child.spec_layout(self.modified_offer(offer), env)
    }

    open spec fn render_admits(&self, layout: ResolvedLayout<T::Sublayout>, origin: Point, env: DefaultEnvironment) -> bool {
        self.child.render_admits(layout, origin, env)
    }

    open spec fn spec_render_tree(&self, layout: ResolvedLayout<T::Sublayout>, origin: Point, env: DefaultEnvironment) -> T::Renderables {
        self.child.spec_render_tree(layout, origin, env)
    }

    fn priority(&self) -> (r: i8) { self.child.priority() }

    fn is_empty(&self) -> (r: bool) { self.child.is_empty() }

    fn layout(&self, offer: &ProposedDimensions, env: &DefaultEnvironment) -> (r: ResolvedLayout<T::Sublayout>) {
        let modified_offer = (self.layout_fn)(*offer);
        proof {
            assert(call_ensures(self.layout_fn, (*offer,), modified_offer));
            assert(self.modified_offer(*offer) == modified_offer);
        }
        self.child.layout(&modified_offer, env)
    }

    fn render_tree(&self, layout: &ResolvedLayout<T::Sublayout>, origin: Point, env: &DefaultEnvironment) -> (r: T::Renderables) {
        self.child.render_tree(layout, origin, env)
    }
}

} // verus!
