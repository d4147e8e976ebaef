//! Equal padding on all four edges of a child view.

use vstd::prelude::*;
use crate::layout::{DefaultEnvironment, ResolvedLayout};
use crate::primitives::{point_add_fits, proposal_shrunk, sat_add, Dimension, Dimensions, Point, ProposedDimensions, Size};
use crate::view::ViewLayout;

verus! {

/// Pads a child view by the same amount on all four edges.
#[derive(Debug, Clone)]
pub struct Padding<T> {
    pub padding: u16,
    pub child: T,
}

impl<T> Padding<T> {
    /// Pads `child` by `padding` on every edge.
    pub fn new(padding: u16, child: T) -> (r: Self)
        ensures
            r == (Padding { padding, child }),
    {
        Padding { padding, child }
    }
}

impl<T: ViewLayout> Padding<T> {
    /// The padding on both edges of one axis.
    pub open spec fn doubled(&self) -> u32 {
        (2 * self.padding) as u32
    }

    /// The proposal made to the child: the offer shrunk by twice the padding.
    pub open spec fn child_offer(&self, offer: ProposedDimensions) -> ProposedDimensions {
        ProposedDimensions {
            width: proposal_shrunk(offer.width, self.doubled()),
            height: proposal_shrunk(offer.height, self.doubled()),
        }
    }
}

impl<T: ViewLayout> ViewLayout for Padding<T> {
    type Sublayout = ResolvedLayout<T::Sublayout>;
    type Renderables = T::Renderables;

    open spec fn spec_priority(&self) -> i8 { 0 }
    open spec fn spec_is_empty(&self) -> bool { false }

    open spec fn admits(&self, offer: ProposedDimensions, env: DefaultEnvironment) -> bool {
        &&& 2 * self.padding <= u16::MAX
        &&& self.child.admits(self.child_offer(offer), env)
    }

    open spec fn spec_layout(&self, offer: ProposedDimensions, env: DefaultEnvironment) -> ResolvedLayout<ResolvedLayout<T::Sublayout>> {
        let child = self.child.spec_layout(self.child_offer(offer), env);
        ResolvedLayout {
            sublayouts: child,
            resolved_size: Dimensions {
                width: Dimension(sat_add(child.resolved_size.width.0 as int, self.doubled() as int)),
                height: Dimension(sat_add(child.resolved_size.height.0 as int, self.doubled() as int)),
            },
        }
    }

    open spec fn render_admits(&self, layout: ResolvedLayout<ResolvedLayout<T::Sublayout>>, origin: Point, env: DefaultEnvironment) -> bool {
        let inset = Point { x: self.padding as i32, y: self.padding as i32 };
        &&& point_add_fits(origin, inset)
        &&& self.child.render_admits(layout.sublayouts, Point { x: (origin.x + inset.x) as i32, y: (origin.y + inset.y) as i32 }, env)
    }

    open spec fn spec_render_tree(&self, layout: ResolvedLayout<ResolvedLayout<T::Sublayout>>, origin: Point, env: DefaultEnvironment) -> T::Renderables {
        let inset = Point { x: self.padding as i32, y: self.padding as i32 };
        self.child.spec_render_tree(layout.sublayouts, Point { x: (origin.x + inset.x) as i32, y: (origin.y + inset.y) as i32 }, env)
    }

    fn priority(&self) -> (r: i8) { 0 }

    fn is_empty(&self) -> (r: bool) { false }

    fn layout(&self, offer: &ProposedDimensions, env: &DefaultEnvironment) -> (r: ResolvedLayout<ResolvedLayout<T::Sublayout>>) {
        let doubled = 2 * self.padding;
        let padded_offer = ProposedDimensions {
            width: offer.width.shrink(doubled as u32),
            height: offer.height.shrink(doubled as u32),
        };
        let child_layout = self.child.layout(&padded_offer, env);
        let padding_size = child_layout.resolved_size.grow(Size::new(doubled as u32, doubled as u32));
        ResolvedLayout { sublayouts: child_layout, resolved_size: padding_size }
    }

    fn render_tree(&self, layout: &ResolvedLayout<ResolvedLayout<T::Sublayout>>, origin: Point, env: &DefaultEnvironment) -> (r: T::Renderables) {
        let inset = Point::new(self.padding as i32, self.padding as i32);
        self.child.render_tree(&layout.sublayouts, origin.add(inset), env)
    }
}

} // verus!
