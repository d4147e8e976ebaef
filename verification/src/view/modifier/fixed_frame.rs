//! A frame of fixed width and/or height around a child view.

use vstd::prelude::*;
use crate::layout::{
    align_in_frame, aligned_offset, alignment_h, alignment_v, Alignment, DefaultEnvironment,
    HorizontalAlignment, ResolvedLayout, VerticalAlignment,
};
use crate::primitives::{
    point_add_fits, Dimension, Dimensions, Point, ProposedDimension, ProposedDimensions,
};
use crate::view::ViewLayout;

verus! {

/// A virtual frame with optionally fixed width and height.
#[derive(Debug, Clone)]
pub struct FixedFrame<T> {
    pub width: Option<u16>,
    pub height: Option<u16>,
    pub horizontal_alignment: HorizontalAlignment,
    pub vertical_alignment: VerticalAlignment,
    pub child: T,
}

impl<T> FixedFrame<T> {
    /// A frame that fixes neither dimension, centering the child.
    pub fn new(child: T) -> (r: Self)
        ensures
            r.width is None,
            r.height is None,
            r.horizontal_alignment == HorizontalAlignment::Center,
            r.vertical_alignment == VerticalAlignment::Center,
            r.child == child,
    {
        FixedFrame {
            width: None,
            height: None,
            horizontal_alignment: HorizontalAlignment::Center,
            vertical_alignment: VerticalAlignment::Center,
            child,
        }
    }

    /// Sets the width of the frame.
    pub fn with_width(self, width: u16) -> (r: Self)
        ensures
            r == (FixedFrame { width: Some(width), ..self }),
    {
        FixedFrame { width: Some(width), ..self }
    }

    /// Sets the height of the frame.
    pub fn with_height(self, height: u16) -> (r: Self)
        ensures
            r == (FixedFrame { height: Some(height), ..self }),
    {
        FixedFrame { height: Some(height), ..self }
    }

    /// Sets the size of the frame.
    pub fn with_size(self, width: u16, height: u16) -> (r: Self)
        ensures
            r == (FixedFrame { width: Some(width), height: Some(height), ..self }),
    {
        FixedFrame { width: Some(width), height: Some(height), ..self }
    }

    /// The horizontal alignment of the child when it is larger or smaller than the frame.
    pub fn with_horizontal_alignment(self, alignment: HorizontalAlignment) -> (r: Self)
        ensures
            r == (FixedFrame { horizontal_alignment: alignment, ..self }),
    {
        FixedFrame { horizontal_alignment: alignment, ..self }
    }

    /// The vertical alignment of the child when it is larger or smaller than the frame.
    pub fn with_vertical_alignment(self, alignment: VerticalAlignment) -> (r: Self)
        ensures
            r == (FixedFrame { vertical_alignment: alignment, ..self }),
    {
        FixedFrame { vertical_alignment: alignment, ..self }
    }

    /// The alignment of the child when it is larger or smaller than the frame.
    pub fn with_alignment(self, alignment: Alignment) -> (r: Self)
        ensures
            r == (FixedFrame {
                horizontal_alignment: alignment_h(alignment),
                vertical_alignment: alignment_v(alignment),
                ..self
            }),
    {
        FixedFrame {
            horizontal_alignment: alignment.horizontal(),
            vertical_alignment: alignment.vertical(),
            ..self
        }
    }
}

/// A fixed length proposes itself exactly; otherwise the parent's proposal passes through.
pub open spec fn fixed_proposal(fixed: Option<u16>, offered: ProposedDimension) -> ProposedDimension {
    match fixed {
        Some(v) => ProposedDimension::Exact(v as u32),
        None => offered,
    }
}

/// A fixed length is the resolved length; otherwise the child's length is.
pub open spec fn fixed_length(fixed: Option<u16>, child: Dimension) -> Dimension {
    match fixed {
        Some(v) => Dimension(v as u32),
        None => child,
    }
}

impl<T: ViewLayout> FixedFrame<T> {
    /// The proposal the frame makes to its child.
    pub open spec fn child_offer(&self, offer: ProposedDimensions) -> ProposedDimensions {
        ProposedDimensions {
            width: fixed_proposal(self.width, offer.width),
            height: fixed_proposal(self.height, offer.height),
        }
    }
}

impl<T: ViewLayout> ViewLayout for FixedFrame<T> {
    type Sublayout = ResolvedLayout<T::Sublayout>;
    type Renderables = T::Renderables;

    open spec fn spec_priority(&self) -> i8 { 0 }
    open spec fn spec_is_empty(&self) -> bool { false }

    open spec fn admits(&self, offer: ProposedDimensions, env: DefaultEnvironment) -> bool {
        self.child.admits(self.child_offer(offer), env)
    }

    open spec fn spec_layout(&self, offer: ProposedDimensions, env: DefaultEnvironment) -> ResolvedLayout<ResolvedLayout<T::Sublayout>> {
        let child_layout = self.child.spec_layout(self.child_offer(offer), env);
        ResolvedLayout {
            sublayouts: child_layout,
            resolved_size: Dimensions {
                width: fixed_length(self.width, child_layout.resolved_size.width),
                height: fixed_length(self.height, child_layout.resolved_size.height),
            },
        }
    }

    open spec fn render_admits(&self, layout: ResolvedLayout<ResolvedLayout<T::Sublayout>>, origin: Point, env: DefaultEnvironment) -> bool {
        let offset = aligned_offset(self.horizontal_alignment, self.vertical_alignment, layout.resolved_size, layout.sublayouts.resolved_size);
        &&& point_add_fits(origin, offset)
        &&& self.child.render_admits(layout.sublayouts, Point { x: (origin.x + offset.x) as i32, y: (origin.y + offset.y) as i32 }, env)
    }

    open spec fn spec_render_tree(&self, layout: ResolvedLayout<ResolvedLayout<T::Sublayout>>, origin: Point, env: DefaultEnvironment) -> T::Renderables {
        let offset = aligned_offset(self.horizontal_alignment, self.vertical_alignment, layout.resolved_size, layout.sublayouts.resolved_size);
        self.child.spec_render_tree(layout.sublayouts, Point { x: (origin.x + offset.x) as i32, y: (origin.y + offset.y) as i32 }, env)
    }

    fn priority(&self) -> (r: i8) { 0 }

    fn is_empty(&self) -> (r: bool) { false }

    fn layout(&self, offer: &ProposedDimensions, env: &DefaultEnvironment) -> (r: ResolvedLayout<ResolvedLayout<T::Sublayout>>) {
        let modified_offer = ProposedDimensions {
            width: match self.width { Some(w) => ProposedDimension::Exact(w as u32), None => offer.width },
            height: match self.height { Some(h) => ProposedDimension::Exact(h as u32), None => offer.height },
        };
        let child_layout = self.child.layout(&modified_offer, env);
        let resolved_size = Dimensions {
            width: match self.width { Some(w) => Dimension(w as u32), None => child_layout.resolved_size.width },
            height: match self.height { Some(h) => Dimension(h as u32), None => child_layout.resolved_size.height },
        };
        ResolvedLayout { sublayouts: child_layout, resolved_size }
    }

    fn render_tree(&self, layout: &ResolvedLayout<ResolvedLayout<T::Sublayout>>, origin: Point, env: &DefaultEnvironment) -> (r: T::Renderables) {
        let offset = align_in_frame(self.horizontal_alignment, self.vertical_alignment, layout.resolved_size, layout.sublayouts.resolved_size);
        let new_origin = origin.add(offset);
        self.child.render_tree(&layout.sublayouts, new_origin, env)
    }
}

/// A frame given both a width and a height takes exactly that size, whatever it is
/// offered and whatever size the child takes, and offers the child exactly that size.
pub proof fn lemma_sized_frame_is_exact<T: ViewLayout>(
    frame: FixedFrame<T>,
    offer: ProposedDimensions,
    env: DefaultEnvironment,
    width: u16,
    height: u16,
)
    requires
        frame.width == Some(width),
        frame.height == Some(height),
    ensures
        frame.spec_layout(offer, env).resolved_size == (Dimensions { width: Dimension(width as u32), height: Dimension(height as u32) }),
        frame.child_offer(offer) == (ProposedDimensions {
            width: ProposedDimension::Exact(width as u32),
            height: ProposedDimension::Exact(height as u32),
        }),
{
}

} // verus!
