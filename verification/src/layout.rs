//! Alignment, layout direction and the result of laying out a view.

use vstd::prelude::*;
use crate::primitives::{Dimension, Dimensions, Point};

verus! {

/// Division of an integer by two, rounding toward zero as Rust's `/` does.
pub open spec fn half_toward_zero(v: int) -> int {
    if v >= 0 { v / 2 } else { -((-v) / 2) }
}

/// Horizontal alignment of content within a frame.
#[derive(Debug, Clone, Copy, PartialEq, Eq, Structural)]
pub enum HorizontalAlignment {
    Leading,
    Center,
    Trailing,
}

/// The offset at which content of a given width is placed within an available width.
pub open spec fn align_offset_h(a: HorizontalAlignment, available: int, content: int) -> int {
    match a {
        HorizontalAlignment::Leading => 0,
        HorizontalAlignment::Center => half_toward_zero(available - content),
        HorizontalAlignment::Trailing => available - content,
    }
}

impl HorizontalAlignment {
    /// The default alignment, [`HorizontalAlignment::Center`].
    pub fn default() -> (r: HorizontalAlignment)
        ensures
            r == HorizontalAlignment::Center,
    {
        HorizontalAlignment::Center
    }

    /// The x offset of content of width `content` aligned within `available`.
    pub fn align(self, available: i32, content: i32) -> (r: i32)
        requires
            i32::MIN <= available - content <= i32::MAX,
        ensures
            r == align_offset_h(self, available as int, content as int),
    {
        match self {
            HorizontalAlignment::Leading => 0,
            HorizontalAlignment::Center => (available - content) / 2,
            HorizontalAlignment::Trailing => available - content,
        }
    }
}

} // verus!

verus! {

/// Vertical alignment of content within a frame.
#[derive(Debug, Clone, Copy, PartialEq, Eq, Structural)]
pub enum VerticalAlignment {
    Top,
    Center,
    Bottom,
}

/// The offset at which content of a given height is placed within an available height.
pub open spec fn align_offset_v(a: VerticalAlignment, available: int, content: int) -> int {
    match a {
        VerticalAlignment::Top => 0,
        VerticalAlignment::Center => half_toward_zero(available - content),
        VerticalAlignment::Bottom => available - content,
    }
}

impl VerticalAlignment {
    /// The default alignment, [`VerticalAlignment::Center`].
    pub fn default() -> (r: VerticalAlignment)
        ensures
            r == VerticalAlignment::Center,
    {
        VerticalAlignment::Center
    }

    /// The y offset of content of height `content` aligned within `available`.
    pub fn align(self, available: i32, content: i32) -> (r: i32)
        requires
            i32::MIN <= available - content <= i32::MAX,
        ensures
            r == align_offset_v(self, available as int, content as int),
    {
        match self {
            VerticalAlignment::Top => 0,
            VerticalAlignment::Center => (available - content) / 2,
            VerticalAlignment::Bottom => available - content,
        }
    }
}

/// Alignment along both axes.
#[derive(Debug, Clone, Copy, PartialEq, Eq, Structural)]
pub enum Alignment {
    TopLeading,
    Top,
    TopTrailing,
    Leading,
    Center,
    Trailing,
    BottomLeading,
    Bottom,
    BottomTrailing,
}

/// The horizontal component of an alignment.
pub open spec fn alignment_h(a: Alignment) -> HorizontalAlignment {
    match a {
        Alignment::TopLeading | Alignment::Leading | Alignment::BottomLeading => HorizontalAlignment::Leading,
        Alignment::Top | Alignment::Center | Alignment::Bottom => HorizontalAlignment::Center,
        Alignment::TopTrailing | Alignment::Trailing | Alignment::BottomTrailing => HorizontalAlignment::Trailing,
    }
}

/// The vertical component of an alignment.
pub open spec fn alignment_v(a: Alignment) -> VerticalAlignment {
    match a {
        Alignment::TopLeading | Alignment::Top | Alignment::TopTrailing => VerticalAlignment::Top,
        Alignment::Leading | Alignment::Center | Alignment::Trailing => VerticalAlignment::Center,
        Alignment::BottomLeading | Alignment::Bottom | Alignment::BottomTrailing => VerticalAlignment::Bottom,
    }
}

impl Alignment {
    /// The default alignment, [`Alignment::Center`].
    pub fn default() -> (r: Alignment)
        ensures
            r == Alignment::Center,
    {
        Alignment::Center
    }

    /// The horizontal component of this alignment.
    pub fn horizontal(self) -> (r: HorizontalAlignment)
        ensures
            r == alignment_h(self),
    {
        match self {
            Alignment::TopLeading | Alignment::Leading | Alignment::BottomLeading => HorizontalAlignment::Leading,
            Alignment::Top | Alignment::Center | Alignment::Bottom => HorizontalAlignment::Center,
            Alignment::TopTrailing | Alignment::Trailing | Alignment::BottomTrailing => HorizontalAlignment::Trailing,
        }
    }

    /// The vertical component of this alignment.
    pub fn vertical(self) -> (r: VerticalAlignment)
        ensures
            r == alignment_v(self),
    {
        match self {
            Alignment::TopLeading | Alignment::Top | Alignment::TopTrailing => VerticalAlignment::Top,
            Alignment::Leading | Alignment::Center | Alignment::Trailing => VerticalAlignment::Center,
            Alignment::BottomLeading | Alignment::Bottom | Alignment::BottomTrailing => VerticalAlignment::Bottom,
        }
    }
}

/// The axis along which a stack arranges its children.
#[derive(Debug, Clone, Copy, PartialEq, Eq, Structural)]
pub enum LayoutDirection {
    Horizontal,
    Vertical,
}

/// The environment a view is laid out in.
#[derive(Debug, Clone, Copy, PartialEq, Eq, Structural)]
pub struct DefaultEnvironment {
    /// The axis of the nearest enclosing stack.
    pub layout_direction: LayoutDirection,
    /// The time since the application started, in milliseconds.
    pub app_time_ms: u64,
}

impl DefaultEnvironment {
    /// A vertical environment at application time zero.
    pub fn default() -> (r: DefaultEnvironment)
        ensures
            r.layout_direction == LayoutDirection::Vertical,
            r.app_time_ms == 0,
    {
        DefaultEnvironment { layout_direction: LayoutDirection::Vertical, app_time_ms: 0 }
    }

    /// An environment for layouts that are not animated: vertical, at time zero.
    pub fn non_animated() -> (r: DefaultEnvironment)
        ensures
            r.layout_direction == LayoutDirection::Vertical,
            r.app_time_ms == 0,
    {
        DefaultEnvironment { layout_direction: LayoutDirection::Vertical, app_time_ms: 0 }
    }

    /// The same environment with another layout direction.
    pub fn with_direction(self, direction: LayoutDirection) -> (r: DefaultEnvironment)
        ensures
            r.layout_direction == direction,
            r.app_time_ms == self.app_time_ms,
    {
        DefaultEnvironment { layout_direction: direction, ..self }
    }
}

/// The outcome of laying out a view: its size and the layouts of its children.
#[derive(Debug, Clone)]
pub struct ResolvedLayout<T> {
    pub sublayouts: T,
    pub resolved_size: Dimensions,
}

/// A length as a signed coordinate, saturating at `i32::MAX`.
pub open spec fn length_i32(d: Dimension) -> i32 {
    if d.0 > i32::MAX { i32::MAX } else { d.0 as i32 }
}

/// A length as a signed coordinate, saturating at `i32::MAX`.
pub fn dimension_to_i32(d: Dimension) -> (r: i32)
    ensures
        r == length_i32(d),
{
    if d.0 > 0x7fff_ffffu32 { 0x7fff_ffffi32 } else { d.0 as i32 }
}

/// The offset of a child of size `child` placed with the given alignments in a
/// frame of size `frame`.
pub open spec fn aligned_offset(
    h: HorizontalAlignment,
    v: VerticalAlignment,
    frame: Dimensions,
    child: Dimensions,
) -> Point {
    Point {
        x: align_offset_h(h, length_i32(frame.width) as int, length_i32(child.width) as int) as i32,
        y: align_offset_v(v, length_i32(frame.height) as int, length_i32(child.height) as int) as i32,
    }
}

/// The offset of a child of size `child` placed with the given alignments in a
/// frame of size `frame`.
pub fn align_in_frame(
    h: HorizontalAlignment,
    v: VerticalAlignment,
    frame: Dimensions,
    child: Dimensions,
) -> (r: Point)
    ensures
        r == aligned_offset(h, v, frame, child),
{
    Point {
        x: h.align(dimension_to_i32(frame.width), dimension_to_i32(child.width)),
        y: v.align(dimension_to_i32(frame.height), dimension_to_i32(child.height)),
    }
}

} // verus!
