//! Render-tree nodes produced by views once their layout is known.

use vstd::prelude::*;
use crate::primitives::{Dimensions, Point, Size};

verus! {

/// The size that a resolved layout covers on screen.
pub open spec fn size_of(d: Dimensions) -> Size {
    Size { width: d.width.0, height: d.height.0 }
}

/// The size that a resolved layout covers on screen.
pub fn dimensions_to_size(d: Dimensions) -> (r: Size)
    ensures
        r == size_of(d),
{
    Size { width: d.width.0, height: d.height.0 }
}

/// A filled rectangle.
#[derive(Debug, Clone, Copy, PartialEq, Eq, Structural)]
pub struct Rect {
    pub origin: Point,
    pub size: Size,
}

/// A filled rectangle with rounded corners.
#[derive(Debug, Clone, Copy, PartialEq, Eq, Structural)]
pub struct RoundedRect {
    pub origin: Point,
    pub size: Size,
    pub corner_radius: u16,
}

/// A filled circle.
#[derive(Debug, Clone, Copy, PartialEq, Eq, Structural)]
pub struct Circle {
    pub origin: Point,
    pub diameter: u32,
}

/// A filled capsule, oriented along its longer axis.
#[derive(Debug, Clone, Copy, PartialEq, Eq, Structural)]
pub struct Capsule {
    pub origin: Point,
    pub size: Size,
}

/// A subtree drawn shifted by an offset.
#[derive(Debug, Clone)]
pub struct Offset<T> {
    pub offset: Point,
    pub subtree: T,
}

/// A subtree drawn at a given opacity.
#[derive(Debug, Clone)]
pub struct Opacity<T> {
    pub subtree: T,
    pub opacity: u8,
}

/// A subtree together with the frame it was laid out in.
#[derive(Debug, Clone)]
pub struct Container<T> {
    pub origin: Point,
    pub size: Size,
    pub child: T,
}

} // verus!

verus! {

/// The timing curve of an animation.
#[derive(Debug, Clone, Copy, PartialEq, Eq, Structural)]
pub enum AnimationCurve {
    Linear,
    EaseIn,
    EaseOut,
    EaseInOut,
    EaseOutCubic,
}

/// An animation: a duration and a timing curve.
#[derive(Debug, Clone, Copy, PartialEq, Eq, Structural)]
pub struct Animation {
    pub duration_ms: u64,
    pub curve: AnimationCurve,
}

impl Animation {
    /// A linear animation of the given duration.
    pub fn linear(duration_ms: u64) -> (r: Animation)
        ensures
            r == (Animation { duration_ms, curve: AnimationCurve::Linear }),
    {
        Animation { duration_ms, curve: AnimationCurve::Linear }
    }

    /// An ease-in-out animation of the given duration.
    pub fn ease_in_out(duration_ms: u64) -> (r: Animation)
        ensures
            r == (Animation { duration_ms, curve: AnimationCurve::EaseInOut }),
    {
        Animation { duration_ms, curve: AnimationCurve::EaseInOut }
    }

    /// An ease-out animation of the given duration.
    pub fn ease_out(duration_ms: u64) -> (r: Animation)
        ensures
            r == (Animation { duration_ms, curve: AnimationCurve::EaseOut }),
    {
        Animation { duration_ms, curve: AnimationCurve::EaseOut }
    }

    /// A cubic ease-out animation of the given duration.
    pub fn ease_out_cubic(duration_ms: u64) -> (r: Animation)
        ensures
            r == (Animation { duration_ms, curve: AnimationCurve::EaseOutCubic }),
    {
        Animation { duration_ms, curve: AnimationCurve::EaseOutCubic }
    }
}

/// A subtree that animates whenever `value` changes.
#[derive(Debug, Clone)]
pub struct Animate<T, V> {
    pub subtree: T,
    pub animation: Animation,
    pub frame_time_ms: u64,
    pub value: V,
}

/// A subtree drawn with a foreground style.
#[derive(Debug, Clone)]
pub struct ShadeSubtree<C, T> {
    pub style: C,
    pub subtree: T,
}

/// A subtree drawn over a hinted background color.
#[derive(Debug, Clone)]
pub struct HintBackground<T, C> {
    pub subtree: T,
    pub color: C,
}

/// A subtree whose hit-testing shape is overridden.
#[derive(Debug, Clone)]
pub struct ContentShapeOverride<T, S> {
    pub subtree: T,
    pub shape: S,
}

/// A shape drawn as a stroke: the shape, inset by `inset` pixels, outlined with a line
/// of `line_width` pixels.
#[derive(Debug, Clone)]
pub struct StrokedShape<T> {
    pub shape: T,
    pub inset: i32,
    pub line_width: u32,
}

/// A fixed-point scale factor with 16 fractional bits (`1 << 16` is a scale of one).
#[derive(Debug, Clone, Copy, PartialEq, Eq, Structural)]
pub struct ScaleFactor(pub i32);

/// A subtree drawn scaled about an anchor.
#[derive(Debug, Clone)]
pub struct Transform<T> {
    pub subtree: T,
    /// The point, in screen coordinates, the subtree is scaled about.
    pub anchor: Point,
    pub scale: ScaleFactor,
}

/// An optional subtree that fades in and out.
#[derive(Debug, Clone)]
pub enum TransitionOption<T> {
    Present { subtree: T, size: Size },
    Absent,
}

} // verus!

verus! {

/// The rendered branch of a conditional view.
#[derive(Debug, Clone)]
pub enum Subtree<U, V> {
    True(U),
    False(V),
}

/// A rendered conditional view: the branch that was laid out and the size it resolved to.
#[derive(Debug, Clone)]
pub struct ConditionalTree<U, V> {
    pub subtree: Subtree<U, V>,
    pub size: Size,
}

/// The rendered branch of a 1-way choice.
#[derive(Debug, Clone)]
pub enum OneOf1<V0> {
    V0(V0),
}

/// The rendered branch of a 2-way choice.
#[derive(Debug, Clone)]
pub enum OneOf2<V0, V1> {
    V0(V0),
    V1(V1),
}

/// The rendered branch of a 3-way choice.
#[derive(Debug, Clone)]
pub enum OneOf3<V0, V1, V2> {
    V0(V0),
    V1(V1),
    V2(V2),
}

/// The rendered branch of a 4-way choice.
#[derive(Debug, Clone)]
pub enum OneOf4<V0, V1, V2, V3> {
    V0(V0),
    V1(V1),
    V2(V2),
    V3(V3),
}

/// The rendered branch of a 5-way choice.
#[derive(Debug, Clone)]
pub enum OneOf5<V0, V1, V2, V3, V4> {
    V0(V0),
    V1(V1),
    V2(V2),
    V3(V3),
    V4(V4),
}

/// The rendered branch of a 6-way choice.
#[derive(Debug, Clone)]
pub enum OneOf6<V0, V1, V2, V3, V4, V5> {
    V0(V0),
    V1(V1),
    V2(V2),
    V3(V3),
    V4(V4),
    V5(V5),
}

/// The rendered branch of a 7-way choice.
#[derive(Debug, Clone)]
pub enum OneOf7<V0, V1, V2, V3, V4, V5, V6> {
    V0(V0),
    V1(V1),
    V2(V2),
    V3(V3),
    V4(V4),
    V5(V5),
    V6(V6),
}

} // verus!
