//! Padding around a child view on selected edges.

use vstd::prelude::*;
use crate::layout::{DefaultEnvironment, ResolvedLayout};
use crate::primitives::{
    point_add_fits, proposal_shrunk, sat_add, Dimension, Dimensions, Point, ProposedDimensions, Size,
};
use crate::view::ViewLayout;

verus! {

/// The edges padding applies to.
#[derive(Debug, Clone, Copy, PartialEq, Eq, Structural)]
pub enum Edges {
    All,
    Horizontal,
    Vertical,
    Top,
    Bottom,
    Leading,
    Trailing,
}

/// A view that adds padding around a child view.
///
/// When the space offered is less than the padding, the padding is not truncated and
/// the view resolves to a size larger than the offer.
#[derive(Debug, Clone)]
pub struct Padding<T> {
    pub edges: Edges,
    pub padding: u32,
    pub inner: T,
}

impl<T> Padding<T> {
    /// Pads `inner` by `padding` on `edges`.
    pub fn new(edges: Edges, padding: u32, inner: T) -> (r: Self)
        ensures
            r == (Padding { edges, padding, inner }),
    {
        Padding { edges, padding, inner }
    }
}

/// Two paddings are equal when they pad the same edges by the same amount, whatever
/// they pad.
impl<T> PartialEq for Padding<T> {
    fn eq(&self, other: &Self) -> (r: bool) {
        self.padding == other.padding && self.edges == other.edges
    }
}

impl<T> vstd::std_specs::cmp::PartialEqSpecImpl for Padding<T> {
    open spec fn obeys_eq_spec() -> bool {
        true
    }

    open spec fn eq_spec(&self, other: &Self) -> bool {
        self.padding == other.padding && self.edges == other.edges
    }
}

/// The padding on the (leading, trailing, top, bottom) edges.
pub open spec fn edge_insets(edges: Edges, p: u32) -> (u32, u32, u32, u32) {
    match edges {
        Edges::All => (p, p, p, p),
        Edges::Horizontal => (p, p, 0, 0),
        Edges::Vertical => (0, 0, p, p),
        Edges::Top => (0, 0, p, 0),
        Edges::Bottom => (0, 0, 0, p),
        Edges::Leading => (p, 0, 0, 0),
        Edges::Trailing => (0, p, 0, 0),
    }
}

/// Whether the padding on opposite edges sums within a `u32`.
pub open spec fn insets_fit(edges: Edges, p: u32) -> bool {
    let (l, t, top, b) = edge_insets(edges, p);
    &&& l + t <= u32::MAX
    &&& top + b <= u32::MAX
}

impl<T: ViewLayout> Padding<T> {
    /// The horizontal and vertical padding.
    pub open spec fn extra(&self) -> (u32, u32) {
        let (l, t, top, b) = edge_insets(self.edges, self.padding);
        ((l + t) as u32, (top + b) as u32)
    }

    /// The proposal made to the child: the offer shrunk by the padding.
    pub open spec fn child_offer(&self, offer: ProposedDimensions) -> ProposedDimensions {
        let (w, h) = self.extra();
        ProposedDimensions { width: proposal_shrunk(offer.width, w), height: proposal_shrunk(offer.height, h) }
    }

    /// Where the child is placed relative to the padding's origin.
    pub open spec fn child_position(&self, origin: Point) -> Point {
        let (l, t, top, b) = edge_insets(self.edges, self.padding);
        Point {
            x: (origin.x + (#[verifier::truncate] (l as i32))) as i32,
            y: (origin.y + (#[verifier::truncate] (top as i32))) as i32,
        }
    }
}

impl<T: ViewLayout> ViewLayout for Padding<T> {
    type Sublayout = ResolvedLayout<T::Sublayout>;
    type Renderables = T::Renderables;

    open spec fn spec_priority(&self) -> i8 { self.inner.spec_priority() }
    open spec fn spec_is_empty(&self) -> bool { false }

    open spec fn admits(&self, offer: ProposedDimensions, env: DefaultEnvironment) -> bool {
        &&& insets_fit(self.edges, self.padding)
        &&& self.inner.admits(self.child_offer(offer), env)
    }

    open spec fn spec_layout(&self, offer: ProposedDimensions, env: DefaultEnvironment) -> ResolvedLayout<ResolvedLayout<T::Sublayout>> {
        let (w, h) = self.extra();
        let child = self.inner.spec_layout(self.child_offer(offer), env);
        ResolvedLayout {
            sublayouts: child,
            resolved_size: Dimensions {
                width: Dimension(sat_add(child.resolved_size.width.0 as int, w as int)),
                height: Dimension(sat_add(child.resolved_size.height.0 as int, h as int)),
            },
        }
    }

    open spec fn render_admits(&self, layout: ResolvedLayout<ResolvedLayout<T::Sublayout>>, origin: Point, env: DefaultEnvironment) -> bool {
        let (l, t, top, b) = edge_insets(self.edges, self.padding);
        &&& point_add_fits(origin, Point { x: #[verifier::truncate] (l as i32), y: #[verifier::truncate] (top as i32) })
        &&& self.inner.render_admits(layout.sublayouts, self.child_position(origin), env)
    }

    open spec fn spec_render_tree(&self, layout: ResolvedLayout<ResolvedLayout<T::Sublayout>>, origin: Point, env: DefaultEnvironment) -> T::Renderables {
        self.inner.spec_render_tree(layout.sublayouts, self.child_position(origin), env)
    }

    fn priority(&self) -> (r: i8) { self.inner.priority() }

    fn is_empty(&self) -> (r: bool) { false }

    fn layout(&self, offer: &ProposedDimensions, env: &DefaultEnvironment) -> (r: ResolvedLayout<ResolvedLayout<T::Sublayout>>) {
        let (leading, trailing, top, bottom) = match self.edges {
            Edges::All => (self.padding, self.padding, self.padding, self.padding),
            Edges::Horizontal => (self.padding, self.padding, 0, 0),
            Edges::Vertical => (0, 0, self.padding, self.padding),
            Edges::Top => (0, 0, self.padding, 0),
            Edges::Bottom => (0, 0, 0, self.padding),
            Edges::Leading => (self.padding, 0, 0, 0),
            Edges::Trailing => (0, self.padding, 0, 0),
        };
        let extra_width = leading + trailing;
        let extra_height = top + bottom;
        let padded_offer = ProposedDimensions {
            width: offer.width.shrink(extra_width),
            height: offer.height.shrink(extra_height),
        };
        let child_layout = self.inner.layout(&padded_offer, env);
        let padding_size = child_layout.resolved_size.grow(Size::new(extra_width, extra_height));
        ResolvedLayout { sublayouts: child_layout, resolved_size: padding_size }
    }

    fn render_tree(&self, layout: &ResolvedLayout<ResolvedLayout<T::Sublayout>>, origin: Point, env: &DefaultEnvironment) -> (r: T::Renderables) {
        let (leading, top) = match self.edges {
            Edges::All => (self.padding, self.padding),
            Edges::Horizontal | Edges::Leading => (self.padding, 0),
            Edges::Vertical | Edges::Top => (0, self.padding),
            Edges::Bottom | Edges::Trailing => (0, 0),
        };
        let offset = Point::new(#[verifier::truncate] (leading as i32), #[verifier::truncate] (top as i32));
        self.inner.render_tree(&layout.sublayouts, origin.add(offset), env)
    }
}

/// A padded view is its child's size grown by the padding on each axis, saturating at
/// the infinite length.
pub proof fn lemma_padding_adds_insets<T: ViewLayout>(view: Padding<T>, offer: ProposedDimensions, env: DefaultEnvironment)
    requires
        insets_fit(view.edges, view.padding),
    ensures
        ({
            let (l, t, top, b) = edge_insets(view.edges, view.padding);
            let size = view.spec_layout(offer, env).resolved_size;
            let child = view.inner.spec_layout(view.child_offer(offer), env).resolved_size;
            &&& size.width.0 == sat_add(child.width.0 as int, l + t)
            &&& size.height.0 == sat_add(child.height.0 as int, top + b)
        }),
{
}

} // verus!
