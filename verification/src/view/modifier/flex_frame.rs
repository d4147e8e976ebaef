//! A virtual frame with flexible minimum, ideal and maximum dimensions.

use vstd::prelude::*;
use crate::layout::{
    align_in_frame, aligned_offset, DefaultEnvironment, HorizontalAlignment, ResolvedLayout,
    VerticalAlignment,
};
use crate::primitives::{
    max_u32, min_u32, point_add_fits, Dimension, Dimensions, Point, ProposedDimension,
    ProposedDimensions, INFINITE_LENGTH,
};
use crate::view::ViewLayout;

verus! {

/// A virtual frame that can be configured with flexible dimensions.
#[derive(Debug, Clone)]
pub struct FlexFrame<T> {
    pub child: T,
    pub min_width: Option<u16>,
    pub ideal_width: Option<u16>,
    pub max_width: Option<Dimension>,
    pub min_height: Option<u16>,
    pub ideal_height: Option<u16>,
    pub max_height: Option<Dimension>,
    pub horizontal_alignment: HorizontalAlignment,
    pub vertical_alignment: VerticalAlignment,
}

impl<T> FlexFrame<T> {
    /// The frame around `child` with no constraints, centering it.
    pub open spec fn unconstrained(child: T) -> Self {
        FlexFrame {
            child,
            min_width: None,
            ideal_width: None,
            max_width: None,
            min_height: None,
            ideal_height: None,
            max_height: None,
            horizontal_alignment: HorizontalAlignment::Center,
            vertical_alignment: VerticalAlignment::Center,
        }
    }

    /// A frame with no constraints, centering its child.
    pub fn new(child: T) -> (r: Self)
        ensures
            r == (FlexFrame {
                child,
                min_width: None,
                ideal_width: None,
                max_width: None,
                min_height: None,
                ideal_height: None,
                max_height: None,
                horizontal_alignment: HorizontalAlignment::Center,
                vertical_alignment: VerticalAlignment::Center,
            }),
    {
        FlexFrame {
            child,
            min_width: None,
            ideal_width: None,
            max_width: None,
            min_height: None,
            ideal_height: None,
            max_height: None,
            horizontal_alignment: HorizontalAlignment::default(),
            vertical_alignment: VerticalAlignment::default(),
        }
    }

    /// Sets the minimum width.
    pub fn with_min_width(self, min_width: u16) -> (r: Self)
        ensures
            r == (FlexFrame { min_width: Some(min_width), ..self }),
    {
        FlexFrame { min_width: Some(min_width), ..self }
    }

    /// Sets the ideal width, taken when the frame is offered a compact width.
    pub fn with_ideal_width(self, ideal_width: u16) -> (r: Self)
        ensures
            r == (FlexFrame { ideal_width: Some(ideal_width), ..self }),
    {
        FlexFrame { ideal_width: Some(ideal_width), ..self }
    }

    /// Sets the maximum width.
    pub fn with_max_width(self, max_width: u16) -> (r: Self)
        ensures
            r == (FlexFrame { max_width: Some(Dimension(max_width as u32)), ..self }),
    {
        FlexFrame { max_width: Some(Dimension(max_width as u32)), ..self }
    }

    /// Lets the frame take as much width as it is offered.
    pub fn with_infinite_max_width(self) -> (r: Self)
        ensures
            r == (FlexFrame { max_width: Some(Dimension(INFINITE_LENGTH)), ..self }),
    {
        FlexFrame { max_width: Some(Dimension::infinite()), ..self }
    }

    /// Sets the minimum height.
    pub fn with_min_height(self, min_height: u16) -> (r: Self)
        ensures
            r == (FlexFrame { min_height: Some(min_height), ..self }),
    {
        FlexFrame { min_height: Some(min_height), ..self }
    }

    /// Sets the ideal height, taken when the frame is offered a compact height.
    pub fn with_ideal_height(self, ideal_height: u16) -> (r: Self)
        ensures
            r == (FlexFrame { ideal_height: Some(ideal_height), ..self }),
    {
        FlexFrame { ideal_height: Some(ideal_height), ..self }
    }

    /// Sets the maximum height.
    pub fn with_max_height(self, max_height: u16) -> (r: Self)
        ensures
            r == (FlexFrame { max_height: Some(Dimension(max_height as u32)), ..self }),
    {
        FlexFrame { max_height: Some(Dimension(max_height as u32)), ..self }
    }

    /// Lets the frame take as much height as it is offered.
    pub fn with_infinite_max_height(self) -> (r: Self)
        ensures
            r == (FlexFrame { max_height: Some(Dimension(INFINITE_LENGTH)), ..self }),
    {
        FlexFrame { max_height: Some(Dimension::infinite()), ..self }
    }

    /// Sets the horizontal alignment of the child within the frame.
    pub fn with_horizontal_alignment(self, alignment: HorizontalAlignment) -> (r: Self)
        ensures
            r == (FlexFrame { horizontal_alignment: alignment, ..self }),
    {
        FlexFrame { horizontal_alignment: alignment, ..self }
    }

    /// Sets the vertical alignment of the child within the frame.
    pub fn with_vertical_alignment(self, alignment: VerticalAlignment) -> (r: Self)
        ensures
            r == (FlexFrame { vertical_alignment: alignment, ..self }),
    {
        FlexFrame { vertical_alignment: alignment, ..self }
    }
}

/// `value` first limited to `max`, then raised to `min`, each bound applying when present.
pub open spec fn clamped(value: u32, min: Option<u32>, max: Option<u32>) -> u32 {
    let capped = match max { Some(m) => min_u32(value, m), None => value };
    match min { Some(m) => max_u32(capped, m), None => capped }
}

/// Limits `value` to `max`, then raises it to `min`, each bound applying when present.
pub fn clamp_optional(value: u32, min: Option<u32>, max: Option<u32>) -> (r: u32)
    ensures
        r == clamped(value, min, max),
{
    let mut value = value;
    match max {
        Some(m) => { if m < value { value = m; } },
        None => {},
    }
    match min {
        Some(m) => { if m > value { value = m; } },
        None => {},
    }
    value
}

/// The largest length a proposal allows: its exact length, the ideal length when compact,
/// or the infinite length.
pub open spec fn greatest_allowed(proposal: ProposedDimension, ideal: Dimension) -> Dimension {
    match proposal {
        ProposedDimension::Exact(d) => Dimension(d),
        ProposedDimension::Compact => ideal,
        ProposedDimension::Infinite => Dimension(INFINITE_LENGTH),
    }
}

/// The largest length a proposal allows: its exact length, the ideal length when compact,
/// or the infinite length.
pub fn greatest_possible(proposal: ProposedDimension, ideal: Dimension) -> (r: Dimension)
    ensures
        r == greatest_allowed(proposal, ideal),
{
    match proposal {
        ProposedDimension::Exact(d) => Dimension(d),
        ProposedDimension::Compact => ideal,
        ProposedDimension::Infinite => Dimension::infinite(),
    }
}

/// A `u16` bound as a `u32` bound.
pub open spec fn widen(v: Option<u16>) -> Option<u32> {
    match v { Some(x) => Some(x as u32), None => None }
}

/// A dimension bound as a `u32` bound.
pub open spec fn dimension_bound(v: Option<Dimension>) -> Option<u32> {
    match v { Some(x) => Some(x.0), None => None }
}

/// What the frame proposes to its child along one axis.
pub open spec fn flex_proposal(
    offered: ProposedDimension,
    min: Option<u16>,
    ideal: Option<u16>,
    max: Option<Dimension>,
) -> ProposedDimension {
    match offered {
        ProposedDimension::Exact(d) => ProposedDimension::Exact(clamped(d, widen(min), dimension_bound(max))),
        ProposedDimension::Compact => match ideal {
            Some(i) => ProposedDimension::Exact(match min {
                Some(m) => max_u32(m as u32, i as u32),
                None => i as u32,
            }),
            None => ProposedDimension::Compact,
        },
        ProposedDimension::Infinite => match max {
            Some(m) => if m.0 == INFINITE_LENGTH { ProposedDimension::Infinite } else { ProposedDimension::Exact(m.0) },
            None => ProposedDimension::Infinite,
        },
    }
}

/// The frame's length along one axis given the child's length: at most the maximum and
/// what the child was offered, and at least the minimum.
pub open spec fn flex_length(
    child_offer: ProposedDimension,
    child: Dimension,
    min: Option<u16>,
    max: Option<Dimension>,
) -> Dimension {
    let upper = match max { Some(m) => m, None => child };
    let limited = Dimension(min_u32(upper.0, greatest_allowed(child_offer, child).0));
    let lower = match min { Some(m) => Dimension(m as u32), None => child };
    Dimension(max_u32(limited.0, lower.0))
}

/// What the frame proposes to its child along one axis.
fn axis_proposal(
    offered: ProposedDimension,
    min: Option<u16>,
    ideal: Option<u16>,
    max: Option<Dimension>,
) -> (r: ProposedDimension)
    ensures
        r == flex_proposal(offered, min, ideal, max),
{
    match offered {
        ProposedDimension::Exact(d) => ProposedDimension::Exact(clamp_optional(
            d,
            match min { Some(m) => Some(m as u32), None => None },
            match max { Some(m) => Some(m.0), None => None },
        )),
        ProposedDimension::Compact => match ideal {
            Some(i) => ProposedDimension::Exact(match min {
                Some(m) => if (m as u32) >= (i as u32) { m as u32 } else { i as u32 },
                None => i as u32,
            }),
            None => ProposedDimension::Compact,
        },
        ProposedDimension::Infinite => match max {
            Some(m) => if m.is_infinite() { ProposedDimension::Infinite } else { ProposedDimension::Exact(m.0) },
            None => ProposedDimension::Infinite,
        },
    }
}

/// The frame's length along one axis given the child's length.
fn axis_length(
    child_offer: ProposedDimension,
    child: Dimension,
    min: Option<u16>,
    max: Option<Dimension>,
) -> (r: Dimension)
    ensures
        r == flex_length(child_offer, child, min, max),
{
    let upper = match max { Some(m) => m, None => child };
    let limited = upper.min(greatest_possible(child_offer, child));
    limited.max(match min { Some(m) => Dimension(m as u32), None => child })
}

impl<T: ViewLayout> FlexFrame<T> {
    /// What the frame proposes to its child.
    pub open spec fn child_offer(&self, offer: ProposedDimensions) -> ProposedDimensions {
        ProposedDimensions {
            width: flex_proposal(offer.width, self.min_width, self.ideal_width, self.max_width),
            height: flex_proposal(offer.height, self.min_height, self.ideal_height, self.max_height),
        }
    }
}

impl<T: ViewLayout> ViewLayout for FlexFrame<T> {
    type Sublayout = ResolvedLayout<T::Sublayout>;
    type Renderables = T::Renderables;

    open spec fn spec_priority(&self) -> i8 { 0 }
    open spec fn spec_is_empty(&self) -> bool { false }

    open spec fn admits(&self, offer: ProposedDimensions, env: DefaultEnvironment) -> bool {
        self.child.admits(self.child_offer(offer), env)
    }

    open spec fn spec_layout(&self, offer: ProposedDimensions, env: DefaultEnvironment) -> ResolvedLayout<ResolvedLayout<T::Sublayout>> {
        let child_offer = self.child_offer(offer);
        let sublayout = self.child.spec_layout(child_offer, env);
        ResolvedLayout {
            sublayouts: sublayout,
            resolved_size: Dimensions {
                width: flex_length(child_offer.width, sublayout.resolved_size.width, self.min_width, self.max_width),
                height: flex_length(child_offer.height, sublayout.resolved_size.height, self.min_height, self.max_height),
            },
        }
    }

    open spec fn render_admits(&self, layout: ResolvedLayout<ResolvedLayout<T::Sublayout>>, origin: Point, env: DefaultEnvironment) -> bool {
        let offset = aligned_offset(self.horizontal_alignment, self.vertical_alignment, layout.resolved_size, layout.sublayouts.resolved_size);
        &&& point_add_fits(origin, offset)
        &&& self.child.render_admits(layout.sublayouts, Point { x: (origin.x + offset.x) as i32, y: (origin.y + offset.y) as i32 }, env)
    }

    open spec fn spec_render_tree(&self, layout: ResolvedLayout<ResolvedLayout<T::Sublayout>>, origin: Point, env: DefaultEnvironment) -> T::Renderables {
        let offset = aligned_offset(self.horizontal_alignment, self.vertical_alignment, layout.resolved_size, layout.sublayouts.resolved_size);
        self.child.spec_render_tree(layout.sublayouts, Point { x: (origin.x + offset.x) as i32, y: (origin.y + offset.y) as i32 }, env)
    }

    fn priority(&self) -> (r: i8) { 0 }

    fn is_empty(&self) -> (r: bool) { false }

    fn layout(&self, offer: &ProposedDimensions, env: &DefaultEnvironment) -> (r: ResolvedLayout<ResolvedLayout<T::Sublayout>>) {
        let sublayout_width_offer = axis_proposal(offer.width, self.min_width, self.ideal_width, self.max_width);
        let sublayout_height_offer = axis_proposal(offer.height, self.min_height, self.ideal_height, self.max_height);
        let sublayout_offer = ProposedDimensions { width: sublayout_width_offer, height: sublayout_height_offer };
        let sublayout = self.child.layout(&sublayout_offer, env);
        // restrict the frame to min/max regardless of what the sublayout returns
        let w = axis_length(sublayout_width_offer, sublayout.resolved_size.width, self.min_width, self.max_width);
        let h = axis_length(sublayout_height_offer, sublayout.resolved_size.height, self.min_height, self.max_height);
        ResolvedLayout { sublayouts: sublayout, resolved_size: Dimensions { width: w, height: h } }
    }

    fn render_tree(&self, layout: &ResolvedLayout<ResolvedLayout<T::Sublayout>>, origin: Point, env: &DefaultEnvironment) -> (r: T::Renderables) {
        let offset = align_in_frame(self.horizontal_alignment, self.vertical_alignment, layout.resolved_size, layout.sublayouts.resolved_size);
        self.child.render_tree(&layout.sublayouts, origin.add(offset), env)
    }
}

/// Whatever the child resolves to, a flexible frame is at least its minimum along each
/// axis, and at most its maximum whenever a minimum no larger than the maximum is set.
pub proof fn lemma_flex_frame_respects_bounds<T: ViewLayout>(
    frame: FlexFrame<T>,
    offer: ProposedDimensions,
    env: DefaultEnvironment,
)
    ensures
        ({
            let size = frame.spec_layout(offer, env).resolved_size;
            &&& (frame.min_width matches Some(m) ==> size.width.0 >= m)
            &&& (frame.min_height matches Some(m) ==> size.height.0 >= m)
            &&& (frame.max_width matches Some(m) ==> (frame.min_width matches Some(n) && n <= m.0) ==> size.width.0 <= m.0)
            &&& (frame.max_height matches Some(m) ==> (frame.min_height matches Some(n) && n <= m.0) ==> size.height.0 <= m.0)
        }),
{
}

} // verus!
