//! Geometry values used by the layout engine: sizes, offers and points.

use vstd::prelude::*;

verus! {

/// The largest value a [`Dimension`] can hold; it stands for an unbounded length.
pub const INFINITE_LENGTH: u32 = 0xffff_ffffu32;

/// A resolved length along one axis. The largest value of `u32` stands for an
/// infinite length, and arithmetic saturates at it.
#[derive(Debug, Clone, Copy, PartialEq, Eq, Structural)]
pub struct Dimension(pub u32);

impl Dimension {
    /// An infinite length.
    pub fn infinite() -> (r: Dimension)
        ensures
            r.0 == INFINITE_LENGTH,
    {
        Dimension(INFINITE_LENGTH)
    }

    /// Whether this length stands for an infinite length.
    pub fn is_infinite(self) -> (r: bool)
        ensures
            r == (self.0 == INFINITE_LENGTH),
    {
        self.0 == INFINITE_LENGTH
    }

    /// Adds two lengths, saturating at the infinite length.
    pub fn saturating_add(self, rhs: Dimension) -> (r: Dimension)
        ensures
            r.0 == sat_add(self.0 as int, rhs.0 as int),
    {
        Dimension(self.0.saturating_add(rhs.0))
    }

    /// Subtracts a length, saturating at zero.
    pub fn saturating_sub(self, rhs: Dimension) -> (r: Dimension)
        ensures
            r.0 == sat_sub(self.0 as int, rhs.0 as int),
    {
        Dimension(self.0.saturating_sub(rhs.0))
    }

    /// The smaller of two lengths.
    pub fn min(self, other: Dimension) -> (r: Dimension)
        ensures
            r.0 == min_u32(self.0, other.0),
    {
        if self.0 <= other.0 { self } else { other }
    }

    /// The larger of two lengths.
    pub fn max(self, other: Dimension) -> (r: Dimension)
        ensures
            r.0 == max_u32(self.0, other.0),
    {
        if self.0 >= other.0 { self } else { other }
    }
}

/// Saturating addition of two `u32` values, as a mathematical statement.
pub open spec fn sat_add(a: int, b: int) -> u32 {
    if a + b > u32::MAX { u32::MAX } else { (a + b) as u32 }
}

/// Saturating subtraction of two `u32` values, as a mathematical statement.
pub open spec fn sat_sub(a: int, b: int) -> u32 {
    if a - b < 0 { 0u32 } else { (a - b) as u32 }
}

/// The smaller of two `u32` values.
pub open spec fn min_u32(a: u32, b: u32) -> u32 {
    if a <= b { a } else { b }
}

/// The larger of two `u32` values.
pub open spec fn max_u32(a: u32, b: u32) -> u32 {
    if a >= b { a } else { b }
}

} // verus!

verus! {

/// The resolved size of a view.
#[derive(Debug, Clone, Copy, PartialEq, Eq, Structural)]
pub struct Dimensions {
    pub width: Dimension,
    pub height: Dimension,
}

impl Dimensions {
    /// Dimensions with the given width and height.
    pub fn new(width: u32, height: u32) -> (r: Dimensions)
        ensures
            r.width.0 == width,
            r.height.0 == height,
    {
        Dimensions { width: Dimension(width), height: Dimension(height) }
    }

    /// Zero-sized dimensions.
    pub fn zero() -> (r: Dimensions)
        ensures
            r.width.0 == 0,
            r.height.0 == 0,
    {
        Dimensions { width: Dimension(0), height: Dimension(0) }
    }

    /// Infinite dimensions along both axes.
    pub fn infinite() -> (r: Dimensions)
        ensures
            r.width.0 == INFINITE_LENGTH,
            r.height.0 == INFINITE_LENGTH,
    {
        Dimensions { width: Dimension::infinite(), height: Dimension::infinite() }
    }

    /// Grows the dimensions by a size, saturating at the infinite length.
    pub fn grow(self, size: Size) -> (r: Dimensions)
        ensures
            r.width.0 == sat_add(self.width.0 as int, size.width as int),
            r.height.0 == sat_add(self.height.0 as int, size.height as int),
    {
        Dimensions {
            width: Dimension(self.width.0.saturating_add(size.width)),
            height: Dimension(self.height.0.saturating_add(size.height)),
        }
    }
}

/// A size along both axes, in pixels.
#[derive(Debug, Clone, Copy, PartialEq, Eq, Structural)]
pub struct Size {
    pub width: u32,
    pub height: u32,
}

impl Size {
    /// A size with the given width and height.
    pub fn new(width: u32, height: u32) -> (r: Size)
        ensures
            r.width == width,
            r.height == height,
    {
        Size { width, height }
    }

    /// The zero size.
    pub fn zero() -> (r: Size)
        ensures
            r.width == 0,
            r.height == 0,
    {
        Size { width: 0, height: 0 }
    }
}

/// A point in screen coordinates.
#[derive(Debug, Clone, Copy, PartialEq, Eq, Structural)]
pub struct Point {
    pub x: i32,
    pub y: i32,
}

/// Whether the sum of two points has both coordinates in range.
pub open spec fn point_add_fits(a: Point, b: Point) -> bool {
    &&& i32::MIN <= a.x + b.x <= i32::MAX
    &&& i32::MIN <= a.y + b.y <= i32::MAX
}

impl Point {
    /// Coordinate-wise sum of two points, as a mathematical statement.
    pub open spec fn spec_add(self, other: Point) -> Point {
        Point { x: (self.x + other.x) as i32, y: (self.y + other.y) as i32 }
    }

    /// A point with the given coordinates.
    pub fn new(x: i32, y: i32) -> (r: Point)
        ensures
            r.x == x,
            r.y == y,
    {
        Point { x, y }
    }

    /// The origin.
    pub fn zero() -> (r: Point)
        ensures
            r.x == 0,
            r.y == 0,
    {
        Point { x: 0, y: 0 }
    }

    /// Coordinate-wise sum of two points.
    pub fn add(self, other: Point) -> (r: Point)
        requires
            point_add_fits(self, other),
        ensures
            r.x == self.x + other.x,
            r.y == self.y + other.y,
    {
        Point { x: self.x + other.x, y: self.y + other.y }
    }
}

/// A proposed length along one axis, offered by a parent view to a child.
#[derive(Debug, Clone, Copy, PartialEq, Eq, Structural)]
pub enum ProposedDimension {
    /// An exact length the child is encouraged to fill.
    Exact(u32),
    /// The child should take its ideal, most compact length.
    Compact,
    /// The child may take as much length as it likes.
    Infinite,
}

/// The rank of a proposal in the order `Exact(_) < Compact < Infinite`.
pub open spec fn proposal_rank(p: ProposedDimension) -> int {
    match p {
        ProposedDimension::Exact(_) => 0,
        ProposedDimension::Compact => 1,
        ProposedDimension::Infinite => 2,
    }
}

/// `a <= b` in the order `Exact(_) < Compact < Infinite`, exact lengths ordered by value.
pub open spec fn proposal_le(a: ProposedDimension, b: ProposedDimension) -> bool {
    match (a, b) {
        (ProposedDimension::Exact(x), ProposedDimension::Exact(y)) => x <= y,
        _ => proposal_rank(a) <= proposal_rank(b),
    }
}

/// The most flexible dimension a view resolves to for a proposal, given its minimum
/// and ideal lengths.
pub open spec fn resolve_flexible(p: ProposedDimension, minimum: u32, ideal: u32) -> Dimension {
    match p {
        ProposedDimension::Exact(d) => Dimension(max_u32(d, minimum)),
        ProposedDimension::Compact => Dimension(ideal),
        ProposedDimension::Infinite => Dimension(INFINITE_LENGTH),
    }
}

/// A proposal shrunk by a length: exact proposals shrink, saturating at zero.
pub open spec fn proposal_shrunk(p: ProposedDimension, amount: u32) -> ProposedDimension {
    match p {
        ProposedDimension::Exact(d) => ProposedDimension::Exact(sat_sub(d as int, amount as int)),
        _ => p,
    }
}

impl ProposedDimension {
    /// Resolves the proposal for a view that takes all the space it is offered,
    /// with the given minimum and ideal lengths.
    pub fn resolve_most_flexible(self, minimum: u32, ideal: u32) -> (r: Dimension)
        ensures
            r == resolve_flexible(self, minimum, ideal),
    {
        match self {
            ProposedDimension::Exact(d) => Dimension(if d >= minimum { d } else { minimum }),
            ProposedDimension::Compact => Dimension(ideal),
            ProposedDimension::Infinite => Dimension::infinite(),
        }
    }

    /// Shrinks an exact proposal by `amount`, saturating at zero. Compact and infinite
    /// proposals are unchanged.
    pub fn shrink(self, amount: u32) -> (r: ProposedDimension)
        ensures
            r == proposal_shrunk(self, amount),
    {
        match self {
            ProposedDimension::Exact(d) => ProposedDimension::Exact(d.saturating_sub(amount)),
            _ => self,
        }
    }

    /// The smaller of two proposals in the order `Exact(_) < Compact < Infinite`.
    pub fn min(self, other: ProposedDimension) -> (r: ProposedDimension)
        ensures
            r == (if proposal_le(self, other) { self } else { other }),
    {
        if self.le(other) { self } else { other }
    }

    /// `self <= other` in the order `Exact(_) < Compact < Infinite`.
    pub fn le(self, other: ProposedDimension) -> (r: bool)
        ensures
            r == proposal_le(self, other),
    {
        match (self, other) {
            (ProposedDimension::Exact(x), ProposedDimension::Exact(y)) => x <= y,
            (ProposedDimension::Exact(_), _) => true,
            (ProposedDimension::Compact, ProposedDimension::Exact(_)) => false,
            (ProposedDimension::Compact, _) => true,
            (ProposedDimension::Infinite, ProposedDimension::Infinite) => true,
            (ProposedDimension::Infinite, _) => false,
        }
    }
}

impl From<u32> for ProposedDimension {
    fn from(value: u32) -> (r: ProposedDimension) {
        ProposedDimension::Exact(value)
    }
}

impl vstd::std_specs::convert::FromSpecImpl<u32> for ProposedDimension {
    open spec fn obeys_from_spec() -> bool {
        true
    }

    open spec fn from_spec(value: u32) -> ProposedDimension {
        ProposedDimension::Exact(value)
    }
}

/// The proposal offered by a parent view to a child along both axes.
#[derive(Debug, Clone, Copy, PartialEq, Eq, Structural)]
pub struct ProposedDimensions {
    pub width: ProposedDimension,
    pub height: ProposedDimension,
}

/// The proposal that offers a resolved size exactly; an infinite length stays infinite.
pub open spec fn exact_dimension(d: Dimension) -> ProposedDimension {
    if d.0 == INFINITE_LENGTH { ProposedDimension::Infinite } else { ProposedDimension::Exact(d.0) }
}

impl ProposedDimensions {
    /// A proposal with the given width and height.
    pub fn new(width: ProposedDimension, height: ProposedDimension) -> (r: ProposedDimensions)
        ensures
            r.width == width,
            r.height == height,
    {
        ProposedDimensions { width, height }
    }

    /// A proposal that is compact along both axes.
    pub fn compact() -> (r: ProposedDimensions)
        ensures
            r.width == ProposedDimension::Compact,
            r.height == ProposedDimension::Compact,
    {
        ProposedDimensions { width: ProposedDimension::Compact, height: ProposedDimension::Compact }
    }

    /// A proposal that is infinite along both axes.
    pub fn infinite() -> (r: ProposedDimensions)
        ensures
            r.width == ProposedDimension::Infinite,
            r.height == ProposedDimension::Infinite,
    {
        ProposedDimensions {
            width: ProposedDimension::Infinite,
            height: ProposedDimension::Infinite,
        }
    }

    /// Resolves both axes with [`ProposedDimension::resolve_most_flexible`].
    pub fn resolve_most_flexible(self, minimum: u32, ideal: u32) -> (r: Dimensions)
        ensures
            r.width == resolve_flexible(self.width, minimum, ideal),
            r.height == resolve_flexible(self.height, minimum, ideal),
    {
        Dimensions {
            width: self.width.resolve_most_flexible(minimum, ideal),
            height: self.height.resolve_most_flexible(minimum, ideal),
        }
    }

    /// Proposes a resolved size exactly.
    pub fn from_dimensions(size: Dimensions) -> (r: ProposedDimensions)
        ensures
            r.width == exact_dimension(size.width),
            r.height == exact_dimension(size.height),
    {
        ProposedDimensions {
            width: if size.width.is_infinite() {
                ProposedDimension::Infinite
            } else {
                ProposedDimension::Exact(size.width.0)
            },
            height: if size.height.is_infinite() {
                ProposedDimension::Infinite
            } else {
                ProposedDimension::Exact(size.height.0)
            },
        }
    }
}

} // verus!

verus! {

/// A point relative to the bounds of a view, each coordinate a fraction of the view's
/// size in 256ths: `(0, 0)` is the top leading corner, `(256, 256)` the bottom trailing
/// one. Larger values count as 256.
#[derive(Debug, Clone, Copy, PartialEq, Eq, Structural)]
pub struct UnitPoint {
    pub x: u16,
    pub y: u16,
}

/// A fraction in 256ths, at most one.
pub open spec fn unit_fraction(v: u16) -> int {
    if v > 256 { 256 } else { v as int }
}

/// The position of a unit coordinate along a length, in pixels.
pub open spec fn unit_offset(v: u16, length: Dimension) -> i32 {
    let len = if length.0 > i32::MAX { i32::MAX as int } else { length.0 as int };
    ((len * unit_fraction(v)) / 256) as i32
}

impl UnitPoint {
    /// The center of a view.
    pub fn center() -> (r: UnitPoint)
        ensures
            r == (UnitPoint { x: 128, y: 128 }),
    {
        UnitPoint { x: 128, y: 128 }
    }

    /// The top leading corner of a view.
    pub fn top_leading() -> (r: UnitPoint)
        ensures
            r == (UnitPoint { x: 0, y: 0 }),
    {
        UnitPoint { x: 0, y: 0 }
    }

    /// The point, relative to the view's origin, that this unit point denotes within a
    /// view of the given size.
    pub fn in_view_bounds(self, size: Dimensions) -> (r: Point)
        ensures
            r == (Point { x: unit_offset(self.x, size.width), y: unit_offset(self.y, size.height) }),
            r.x >= 0,
            r.y >= 0,
    {
        Point { x: scaled_coordinate(self.x, size.width), y: scaled_coordinate(self.y, size.height) }
    }
}

/// The position of a unit coordinate along a length, in pixels.
fn scaled_coordinate(v: u16, length: Dimension) -> (r: i32)
    ensures
        r == unit_offset(v, length),
        r >= 0,
{
    let len: u64 = if length.0 > 0x7fff_ffffu32 { 0x7fff_ffffu64 } else { length.0 as u64 };
    let frac: u64 = if v > 256 { 256 } else { v as u64 };
    assert(len * frac <= 0x7fff_ffffu64 * 256) by (nonlinear_arith)
        requires
            len <= 0x7fff_ffffu64,
            frac <= 256,
    ;
    assert((len * frac) / 256 <= len) by (nonlinear_arith)
        requires
            frac <= 256,
    ;
    ((len * frac) / 256) as i32
}

} // verus!
