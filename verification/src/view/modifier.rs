//! View modifiers, which alter the layout and rendering of a child view.

pub mod animated;
pub mod aspect_ratio;
pub mod background;
pub mod background_color;
pub mod content_shape;
pub mod custom_layout;
pub mod erase_captures;
pub mod fixed_frame;
pub mod fixed_size;
pub mod foreground_style;
pub mod flex_frame;
pub mod focus_touches;
pub mod foreground_color;
pub mod geometry_group;
pub mod hidden;
pub mod hint_background;
pub mod map_event;
pub mod offset;
pub mod on_cancel;
pub mod opacity;
pub mod overlay;
pub mod padding;
pub mod popover;
pub mod priority;
pub mod scale_effect;
pub mod transition;

use vstd::prelude::*;
use crate::layout::{Alignment, HorizontalAlignment, VerticalAlignment};
use crate::primitives::{Dimension, Point, UnitPoint, INFINITE_LENGTH};
use crate::render::{Animation, ScaleFactor};
use crate::view::ViewLayout;
use self::animated::Animated;
use self::aspect_ratio::{AspectRatio, ContentMode, Ratio};
use self::background::BackgroundView;
use self::background_color::BackgroundColor;
use self::erase_captures::EraseCaptures;
use self::fixed_frame::FixedFrame;
use self::fixed_size::FixedSize;
use self::flex_frame::FlexFrame;
use self::foreground_color::ForegroundStyle;
use self::geometry_group::GeometryGroup;
use self::hidden::Hidden;
use self::hint_background::HintBackground;
use self::offset::Offset;
use self::overlay::OverlayView;
use self::padding::{Edges, Padding};
use self::priority::Priority;
use self::scale_effect::ScaleEffect;
use self::transition::Transition;

verus! {

/// Modifiers that wrap a view in another view, written as methods on the view.
pub trait ViewModifier: Sized {
    /// Animates the view tree whenever `value` changes.
    fn animated<T>(self, animation: Animation, value: T) -> (r: Animated<Self, T>)
        ensures
            r == (Animated { inner: self, animation, value }),
    {
        Animated::new(self, animation, value)
    }

    /// Constrains the view to an aspect ratio.
    fn aspect_ratio(self, aspect_ratio: Ratio, content_mode: ContentMode) -> (r: AspectRatio<Self>)
        ensures
            r == (AspectRatio { aspect_ratio, content_mode, child: self }),
    {
        AspectRatio::new(self, aspect_ratio, content_mode)
    }

    /// Adds content behind the view, laid out within the view's bounds.
    fn background<U>(self, alignment: Alignment, background: U) -> (r: BackgroundView<Self, U>)
        ensures
            r == (BackgroundView { foreground: self, background, alignment }),
    {
        BackgroundView::new(self, background, alignment)
    }

    /// Adds a shape filled with a color behind the view.
    fn background_color<C, S>(self, color: C, in_shape: S) -> (r: BackgroundColor<Self, C, S>)
        ensures
            r == (BackgroundColor { foreground: self, color, background_shape: in_shape }),
    {
        BackgroundColor::new(self, color, in_shape)
    }

    /// Hides the captures of the surrounding view from this view tree.
    fn erase_captures(self) -> (r: EraseCaptures<Self>)
        ensures
            r == (EraseCaptures { inner: self }),
    {
        EraseCaptures::new(self)
    }

    /// Proposes a compact size to the view along the chosen axes.
    fn fixed_size(self, horizontal: bool, vertical: bool) -> (r: FixedSize<Self>)
        ensures
            r == (FixedSize { horizontal, vertical, child: self }),
    {
        FixedSize::new(horizontal, vertical, self)
    }

    /// A virtual frame with flexible dimensions, unconstrained until configured.
    fn flex_frame(self) -> (r: FlexFrame<Self>)
        ensures
            r == FlexFrame::unconstrained(self),
    {
        FlexFrame::new(self)
    }

    /// A virtual frame that takes as much height as is offered.
    fn flex_infinite_height(self, alignment: VerticalAlignment) -> (r: FlexFrame<Self>)
        ensures
            r == (FlexFrame {
                max_height: Some(Dimension(INFINITE_LENGTH)),
                vertical_alignment: alignment,
                ..FlexFrame::unconstrained(self)
            }),
    {
        FlexFrame::new(self).with_infinite_max_height().with_vertical_alignment(alignment)
    }

    /// A virtual frame that takes as much width as is offered.
    fn flex_infinite_width(self, alignment: HorizontalAlignment) -> (r: FlexFrame<Self>)
        ensures
            r == (FlexFrame {
                max_width: Some(Dimension(INFINITE_LENGTH)),
                horizontal_alignment: alignment,
                ..FlexFrame::unconstrained(self)
            }),
    {
        FlexFrame::new(self).with_infinite_max_width().with_horizontal_alignment(alignment)
    }

    /// Sets the foreground color of the view tree.
    fn foreground_color<C>(self, color: C) -> (r: ForegroundStyle<Self, C>)
        ensures
            r == (ForegroundStyle { style: color, inner: self }),
    {
        ForegroundStyle::new(color, self)
    }

    /// A virtual frame of fixed dimensions, unset until configured.
    fn frame(self) -> (r: FixedFrame<Self>)
        ensures
            r == (FixedFrame {
                width: None,
                height: None,
                horizontal_alignment: HorizontalAlignment::Center,
                vertical_alignment: VerticalAlignment::Center,
                child: self,
            }),
    {
        FixedFrame::new(self)
    }

    /// A virtual frame of the given width and height, centering the view.
    fn frame_sized(self, width: u16, height: u16) -> (r: FixedFrame<Self>)
        ensures
            r == (FixedFrame {
                width: Some(width),
                height: Some(height),
                horizontal_alignment: HorizontalAlignment::Center,
                vertical_alignment: VerticalAlignment::Center,
                child: self,
            }),
    {
        FixedFrame::new(self).with_width(width).with_height(height)
    }

    /// Animates the view tree as one geometry.
    fn geometry_group(self) -> (r: GeometryGroup<Self>)
        ensures
            r == (GeometryGroup { inner: self }),
    {
        GeometryGroup::new(self)
    }

    /// Lays the view out but draws nothing.
    fn hidden(self) -> (r: Hidden<Self>)
        ensures
            r == (Hidden { child: self }),
    {
        Hidden::new(self)
    }

    /// Hints the color behind the view to the renderer.
    fn hint_background_color<C>(self, color: C) -> (r: HintBackground<Self, C>)
        ensures
            r == (HintBackground { inner: self, hint_color: color }),
    {
        HintBackground::new(self, color)
    }

    /// Draws the view moved by `(x, y)` without changing its layout.
    fn offset(self, x: i32, y: i32) -> (r: Offset<Self>)
        ensures
            r == (Offset { child: self, offset: Point { x, y } }),
    {
        Offset::new(self, Point::new(x, y))
    }

    /// Adds content in front of the view, laid out within the view's bounds.
    fn overlay<U>(self, alignment: Alignment, overlay: U) -> (r: OverlayView<Self, U>)
        ensures
            r == (OverlayView { foreground: self, overlay, alignment }),
    {
        OverlayView::new(self, overlay, alignment)
    }

    /// Pads the chosen edges of the view by `amount`.
    fn padding(self, edges: Edges, amount: u32) -> (r: Padding<Self>)
        ensures
            r == (Padding { edges, padding: amount, inner: self }),
    {
        Padding::new(edges, amount, self)
    }

    /// Sets the layout priority of the view within stacks.
    fn priority(self, priority: i8) -> (r: Priority<Self>)
        ensures
            r == (Priority { priority, child: self }),
    {
        Priority::new(priority, self)
    }

    /// Draws the view scaled about an anchor without changing its layout.
    fn scale_effect(self, scale: ScaleFactor, anchor: UnitPoint) -> (r: ScaleEffect<Self>)
        ensures
            r == (ScaleEffect { inner: self, scale, anchor }),
    {
        ScaleEffect::new(self, scale, anchor)
    }

    /// Sets the transition used when the view appears or disappears.
    fn transition<T>(self, transition: T) -> (r: Transition<Self, T>)
        ensures
            r == (Transition { transition, child: self }),
    {
        Transition::new(transition, self)
    }
}

impl<T: ViewLayout> ViewModifier for T {}

} // verus!
