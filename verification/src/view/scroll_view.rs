//! A view that scrolls its content, with scroll bars that show where the content is.

use vstd::prelude::*;
use crate::event::{event_offset, event_offset_fits, point_sub, point_sub_fits, sub_point, Event, EventResult};
use crate::layout::{half_toward_zero, DefaultEnvironment, ResolvedLayout};
use crate::primitives::{
    max_u32, point_add_fits, proposal_shrunk, resolve_flexible, sat_sub, Dimension, Dimensions, Point,
    ProposedDimension, ProposedDimensions, Size,
};
use crate::render::{dimensions_to_size, size_of, Animate, Animation, AnimationCurve, Capsule, Offset};
use crate::view::ViewLayout;

verus! {

/// The axes along which a scroll view scrolls.
#[derive(Debug, Clone, Copy, PartialEq, Eq, Structural)]
pub enum ScrollDirection {
    /// Scroll vertically only.
    Vertical,
    /// Scroll horizontally only.
    Horizontal,
    /// Scroll along both axes.
    Both,
}

impl ScrollDirection {
    /// The default direction, [`ScrollDirection::Vertical`].
    pub fn default() -> (r: ScrollDirection)
        ensures
            r == ScrollDirection::Vertical,
    {
        ScrollDirection::Vertical
    }
}

/// When scroll bars are shown.
#[derive(Debug, Clone, Copy, PartialEq, Eq, Structural)]
pub enum ScrollBarVisibility {
    /// Always show the scroll bars.
    Always,
    /// Never show the scroll bars.
    Never,
}

impl ScrollBarVisibility {
    /// The default visibility, [`ScrollBarVisibility::Always`].
    pub fn default() -> (r: ScrollBarVisibility)
        ensures
            r == ScrollBarVisibility::Always,
    {
        ScrollBarVisibility::Always
    }
}

/// The appearance and behaviour of the scroll bars.
#[derive(Debug, Clone, Copy, PartialEq, Eq, Structural)]
pub struct ScrollBarConfig {
    /// When to show the bars.
    pub visibility: ScrollBarVisibility,
    /// Padding around each edge of a bar.
    pub padding: u32,
    /// The thickness of a bar.
    pub width: u32,
    /// Whether the bars are drawn over the content rather than beside it.
    pub overlaps_content: bool,
    /// The shortest a bar gets.
    pub minimum_bar_length: u32,
}

impl ScrollBarConfig {
    /// Bars always shown, 6 wide with 5 of padding, beside the content, at least 12 long.
    pub fn default() -> (r: ScrollBarConfig)
        ensures
            r == (ScrollBarConfig {
                visibility: ScrollBarVisibility::Always,
                padding: 5,
                width: 6,
                overlaps_content: false,
                minimum_bar_length: 12,
            }),
    {
        ScrollBarConfig {
            visibility: ScrollBarVisibility::default(),
            padding: 5,
            width: 6,
            overlaps_content: false,
            minimum_bar_length: 12,
        }
    }
}

/// A view that scrolls its content, which is laid out at its ideal size along the
/// scrolling axes.
#[derive(Debug, Clone)]
pub struct ScrollView<Inner> {
    pub inner: Inner,
    pub bar_config: ScrollBarConfig,
    pub direction: ScrollDirection,
}

impl<Inner> ScrollView<Inner> {
    /// The state of the scroll view before any event: not scrolled and idle.
    pub fn build_state(&self) -> (r: ScrollViewState)
        ensures
            r == (ScrollViewState { scroll_offset: Point { x: 0, y: 0 }, interaction: ScrollInteraction::Idle }),
    {
        ScrollViewState::new()
    }

    /// A vertical scroll view of `inner` with the default scroll bars.
    pub fn new(inner: Inner) -> (r: Self)
        ensures
            r.inner == inner,
            r.direction == ScrollDirection::Vertical,
            r.bar_config == (ScrollBarConfig {
                visibility: ScrollBarVisibility::Always,
                padding: 5,
                width: 6,
                overlaps_content: false,
                minimum_bar_length: 12,
            }),
    {
        ScrollView { inner, bar_config: ScrollBarConfig::default(), direction: ScrollDirection::default() }
    }

    /// The same scroll view, scrolling along `direction`.
    pub fn with_direction(self, direction: ScrollDirection) -> (r: Self)
        ensures
            r == (ScrollView { direction, ..self }),
    {
        ScrollView { direction, ..self }
    }

    /// The same scroll view, with bars drawn over the content when `overlaps` holds and
    /// beside it otherwise.
    pub fn with_overlapping_bar(self, overlaps: bool) -> (r: Self)
        ensures
            r == (ScrollView { bar_config: ScrollBarConfig { overlaps_content: overlaps, ..self.bar_config }, ..self }),
    {
        let mut s = self;
        s.bar_config.overlaps_content = overlaps;
        s
    }

    /// The same scroll view, with bars at least `length` long.
    pub fn with_minimum_bar_length(self, length: u32) -> (r: Self)
        ensures
            r == (ScrollView { bar_config: ScrollBarConfig { minimum_bar_length: length, ..self.bar_config }, ..self }),
    {
        let mut s = self;
        s.bar_config.minimum_bar_length = length;
        s
    }

    /// The same scroll view, with `padding` around each edge of the bars.
    pub fn with_bar_padding(self, padding: u32) -> (r: Self)
        ensures
            r == (ScrollView { bar_config: ScrollBarConfig { padding, ..self.bar_config }, ..self }),
    {
        let mut s = self;
        s.bar_config.padding = padding;
        s
    }

    /// The same scroll view, with bars `width` thick.
    pub fn with_bar_width(self, width: u32) -> (r: Self)
        ensures
            r == (ScrollView { bar_config: ScrollBarConfig { width, ..self.bar_config }, ..self }),
    {
        let mut s = self;
        s.bar_config.width = width;
        s
    }

    /// The same scroll view, showing the bars as `visibility` says.
    pub fn with_bar_visibility(self, visibility: ScrollBarVisibility) -> (r: Self)
        ensures
            r == (ScrollView { bar_config: ScrollBarConfig { visibility, ..self.bar_config }, ..self }),
    {
        let mut s = self;
        s.bar_config.visibility = visibility;
        s
    }
}

/// How far the content is pulled beyond its scrollable range.
pub open spec fn overscroll_amount(scroll: u32, inner: u32, offset: i32) -> u32 {
    if offset > 0 {
        offset as u32
    } else {
        sat_sub(-offset, sat_sub(inner as int, scroll as int) as int)
    }
}

/// The length a bar can travel along, inside its padding.
pub open spec fn bar_available(scroll: u32, leading: u32, trailing: u32) -> u32 {
    sat_sub(scroll as int, leading + trailing)
}

/// The visible share of the scroll length, shrunk by overscrolling.
pub open spec fn perceived_length(scroll: u32, inner: u32, offset: i32) -> u32 {
    sat_sub(scroll as int, overscroll_amount(scroll, inner, offset) as int)
}

/// The length of a scroll bar: its share of the available space in proportion to the
/// visible part of the content, but no shorter than `min_length`.
pub open spec fn spec_bar_length(scroll: u32, inner: u32, offset: i32, min_length: u32, leading: u32, trailing: u32) -> u32 {
    let available = bar_available(scroll, leading, trailing);
    let perceived = perceived_length(scroll, inner, offset);
    max_u32(((available * perceived) / (max_u32(inner, scroll) as int)) as u32, min_length)
}

/// How far the content is scrolled, within its scrollable range.
pub open spec fn bar_progress(scroll: u32, inner: u32, offset: i32) -> int {
    let permitted = inner - scroll;
    let pulled = if -offset > 0 { -offset } else { 0 };
    if pulled < permitted { pulled } else { permitted }
}

/// The length a bar moves from one end of its track to the other.
pub open spec fn bar_travel(scroll: u32, inner: u32, offset: i32, min_length: u32, leading: u32, trailing: u32) -> u32 {
    sat_sub(
        bar_available(scroll, leading, trailing) as int,
        spec_bar_length(scroll, inner, offset, min_length, leading, trailing) as int,
    )
}

/// The position of a scroll bar along its axis. Content shorter than the scroll view
/// puts the bar at the leading end, or the trailing end while pulled back; longer content
/// puts it in proportion to how far the content is scrolled.
pub open spec fn spec_bar_position(scroll: u32, inner: u32, offset: i32, min_length: u32, leading: u32, trailing: u32) -> i32 {
    let travel = bar_travel(scroll, inner, offset, min_length, leading, trailing);
    if inner <= scroll {
        if offset < 0 {
            (leading + travel) as i32
        } else {
            leading as i32
        }
    } else {
        (leading + (bar_progress(scroll, inner, offset) * travel) / ((inner - scroll) as int)) as i32
    }
}

/// Whether [`bar_size`] stays within machine arithmetic for these arguments.
pub open spec fn bar_size_admits(scroll: u32, inner: u32, offset: i32, min_length: u32, leading: u32, trailing: u32) -> bool {
    let available = bar_available(scroll, leading, trailing);
    let perceived = perceived_length(scroll, inner, offset);
    let travel = bar_travel(scroll, inner, offset, min_length, leading, trailing);
    &&& offset != i32::MIN
    &&& leading + trailing <= u32::MAX
    &&& available * perceived <= u32::MAX
    &&& (inner > 0 || scroll > 0)
    &&& inner > scroll ==> {
        &&& inner - scroll <= i32::MAX
        &&& travel <= i32::MAX
        &&& leading <= i32::MAX
        &&& bar_progress(scroll, inner, offset) * travel <= i32::MAX
        &&& leading + (bar_progress(scroll, inner, offset) * travel) / ((inner - scroll) as int) <= i32::MAX
    }
}

/// The position and length of a scroll bar for a scroll view of length `scroll_view_length`
/// showing content of length `inner_view_length` scrolled by `scroll_offset`, with the
/// given minimum length and padding before and after the bar.
pub fn bar_size(
    scroll_view_length: u32,
    inner_view_length: u32,
    scroll_offset: i32,
    min_length: u32,
    leading_padding: u32,
    trailing_padding: u32,
) -> (r: (i32, u32))
    requires
        bar_size_admits(scroll_view_length, inner_view_length, scroll_offset, min_length, leading_padding, trailing_padding),
    ensures
        r.0 == spec_bar_position(scroll_view_length, inner_view_length, scroll_offset, min_length, leading_padding, trailing_padding),
        r.1 == spec_bar_length(scroll_view_length, inner_view_length, scroll_offset, min_length, leading_padding, trailing_padding),
        r.1 >= min_length,
        inner_view_length > scroll_view_length ==> leading_padding <= r.0 <= leading_padding
            + bar_travel(scroll_view_length, inner_view_length, scroll_offset, min_length, leading_padding, trailing_padding),
{
    let scroll = scroll_view_length;
    let inner = inner_view_length;
    let overscroll: u32 = if scroll_offset > 0 {
        scroll_offset as u32
    } else {
        let max_offset = inner.saturating_sub(scroll);
        ((-scroll_offset) as u32).saturating_sub(max_offset)
    };
    let available = scroll.saturating_sub(leading_padding + trailing_padding);
    let perceived = scroll.saturating_sub(overscroll);
    let larger = if inner >= scroll { inner } else { scroll };
    let ratio = (available * perceived) / larger;
    let bar_length = if ratio >= min_length { ratio } else { min_length };
    let travel = available.saturating_sub(bar_length);
    let bar_position: i32 = if inner <= scroll {
        if scroll_offset < 0 {
            #[verifier::truncate]
            ((leading_padding + travel) as i32)
        } else {
            #[verifier::truncate]
            (leading_padding as i32)
        }
    } else {
        let max_travel = travel as i32;
        let permitted = (inner - scroll) as i32;
        let pulled = -scroll_offset;
        let floor = if pulled > 0 { pulled } else { 0 };
        let progress = if floor < permitted { floor } else { permitted };
        assert(progress * max_travel >= 0) by (nonlinear_arith)
            requires
                progress >= 0,
                max_travel >= 0,
        ;
        assert((progress * max_travel) / (permitted as int) <= max_travel) by (nonlinear_arith)
            requires
                0 <= progress <= permitted,
                permitted > 0,
                max_travel >= 0,
        ;
        leading_padding as i32 + (progress * max_travel) / permitted
    };
    (bar_position, bar_length)
}

/// How the content of a scroll view is being interacted with.
#[derive(Debug, Clone, Copy, PartialEq, Eq, Structural)]
pub enum ScrollInteraction {
    /// Nothing is touching the scroll view.
    Idle,
    /// A touch is dragging the content.
    Dragging {
        /// Where the touch began.
        drag_start: Point,
        /// Where the touch was last seen.
        last_point: Point,
        /// Whether the drag has taken the touch from the content.
        is_exclusive: bool,
    },
}

/// The state a scroll view keeps between frames.
#[derive(Debug, Clone, Copy, PartialEq, Eq, Structural)]
pub struct ScrollViewState {
    /// How far the content is moved from its resting place.
    pub scroll_offset: Point,
    /// The current interaction.
    pub interaction: ScrollInteraction,
}

impl ScrollViewState {
    /// The state of a scroll view that has not been touched.
    pub fn new() -> (r: ScrollViewState)
        ensures
            r == (ScrollViewState { scroll_offset: Point { x: 0, y: 0 }, interaction: ScrollInteraction::Idle }),
    {
        ScrollViewState { scroll_offset: Point::zero(), interaction: ScrollInteraction::Idle }
    }
}

/// The render tree of a scroll view: its size, the size of its content, and the content
/// moved by the scroll offset together with the bars.
#[derive(Debug, Clone)]
pub struct ScrollMetadata<T> {
    pub scroll_size: Size,
    pub inner_size: Size,
    pub inner: Offset<Animate<(Offset<T>, Option<Capsule>, Option<Capsule>), bool>>,
}

/// How far the content can be scrolled along an axis.
pub open spec fn permitted_offset(inner: u32, scroll: u32) -> i32 {
    sat_sub(inner as int, scroll as int) as i32
}

/// An offset while dragging: movement beyond the scrollable range counts for half.
pub open spec fn damped(x: i32, permitted: i32) -> i32 {
    if x > 0 {
        (x / 2) as i32
    } else if -x > permitted {
        (half_toward_zero(x + permitted) - permitted) as i32
    } else {
        x
    }
}

/// An offset at rest: kept within the scrollable range.
pub open spec fn clamped(x: i32, permitted: i32) -> i32 {
    if x < -permitted {
        (-permitted) as i32
    } else if x > 0 {
        0
    } else {
        x
    }
}

/// The offset of the content while dragging, for the given sizes.
pub open spec fn dragged_offset(offset: Point, scroll: Size, inner: Size) -> Point {
    Point {
        x: damped(offset.x, permitted_offset(inner.width, scroll.width)),
        y: damped(offset.y, permitted_offset(inner.height, scroll.height)),
    }
}

/// The offset of the content at rest, for the given sizes.
pub open spec fn resting_offset(offset: Point, scroll: Size, inner: Size) -> Point {
    Point {
        x: clamped(offset.x, permitted_offset(inner.width, scroll.width)),
        y: clamped(offset.y, permitted_offset(inner.height, scroll.height)),
    }
}

/// Whether the content of these sizes can be scrolled within the coordinate range.
pub open spec fn scroll_range_fits(scroll: Size, inner: Size) -> bool {
    &&& inner.width - scroll.width <= i32::MAX
    &&& inner.height - scroll.height <= i32::MAX
}

/// At rest, rendering brings the scroll offset within the scrollable range: between the
/// content's overhang, negated, and zero.
pub proof fn lemma_resting_offset_in_range(offset: Point, scroll: Size, inner: Size)
    requires
        scroll_range_fits(scroll, inner),
    ensures
        -permitted_offset(inner.width, scroll.width) <= resting_offset(offset, scroll, inner).x <= 0,
        -permitted_offset(inner.height, scroll.height) <= resting_offset(offset, scroll, inner).y <= 0,
        resting_offset(resting_offset(offset, scroll, inner), scroll, inner) == resting_offset(offset, scroll, inner),
{
}

/// An offset while dragging: movement beyond the scrollable range counts for half.
fn damp(x: i32, permitted: i32) -> (r: i32)
    requires
        x != i32::MIN,
        permitted >= 0,
    ensures
        r == damped(x, permitted),
{
    if x > 0 {
        x / 2
    } else if -x > permitted {
        let mid: i64 = (x as i64 + permitted as i64) / 2;
        (mid - permitted as i64) as i32
    } else {
        x
    }
}

/// An offset at rest: kept within the scrollable range.
fn clamp_offset(x: i32, permitted: i32) -> (r: i32)
    requires
        permitted >= 0,
    ensures
        r == clamped(x, permitted),
{
    if x < -permitted {
        -permitted
    } else if x > 0 {
        0
    } else {
        x
    }
}

/// How far the content can be scrolled along an axis.
fn permitted_for(inner: u32, scroll: u32) -> (r: i32)
    requires
        inner - scroll <= i32::MAX,
    ensures
        r == permitted_offset(inner, scroll),
        r >= 0,
{
    inner.saturating_sub(scroll) as i32
}

impl<Inner> ScrollView<Inner> {
    /// The extra room the two bars need where they would cross.
    pub open spec fn overlap_padding(&self) -> int {
        match self.direction {
            ScrollDirection::Both => self.bar_config.width + self.bar_config.padding,
            _ => 0,
        }
    }

    /// The padding after each bar.
    pub open spec fn trailing_padding(&self) -> u32 {
        (self.bar_config.padding + self.overlap_padding()) as u32
    }

    /// Whether a vertical bar is drawn.
    pub open spec fn shows_vertical_bar(&self) -> bool {
        self.bar_config.visibility == ScrollBarVisibility::Always && self.direction != ScrollDirection::Horizontal
    }

    /// Whether a horizontal bar is drawn.
    pub open spec fn shows_horizontal_bar(&self) -> bool {
        self.bar_config.visibility == ScrollBarVisibility::Always && self.direction != ScrollDirection::Vertical
    }

    /// The vertical bar for the given sizes and content offset, placed from `origin`.
    pub open spec fn vertical_bar(&self, origin: Point, scroll: Size, inner: Size, offset: Point) -> Option<Capsule> {
        let c = self.bar_config;
        if self.shows_vertical_bar() {
            let y = spec_bar_position(scroll.height, inner.height, offset.y, c.minimum_bar_length, c.padding, self.trailing_padding());
            let h = spec_bar_length(scroll.height, inner.height, offset.y, c.minimum_bar_length, c.padding, self.trailing_padding());
            let x = sat_sub(sat_sub(scroll.width as int, c.padding as int) as int, c.width as int);
            Some(Capsule { origin: Point { x: (origin.x + (x as i32)) as i32, y: (origin.y + y) as i32 }, size: Size { width: c.width, height: h } })
        } else {
            None
        }
    }

    /// The horizontal bar for the given sizes and content offset, placed from `origin`.
    pub open spec fn horizontal_bar(&self, origin: Point, scroll: Size, inner: Size, offset: Point) -> Option<Capsule> {
        let c = self.bar_config;
        if self.shows_horizontal_bar() {
            let x = spec_bar_position(scroll.width, inner.width, offset.x, c.minimum_bar_length, c.padding, self.trailing_padding());
            let w = spec_bar_length(scroll.width, inner.width, offset.x, c.minimum_bar_length, c.padding, self.trailing_padding());
            let y = sat_sub(sat_sub(scroll.height as int, c.padding as int) as int, c.width as int);
            Some(Capsule { origin: Point { x: (origin.x + x) as i32, y: (origin.y + (y as i32)) as i32 }, size: Size { width: w, height: c.width } })
        } else {
            None
        }
    }

    /// Whether the bars can be computed within machine arithmetic.
    pub open spec fn bars_admit(&self, origin: Point, scroll: Size, inner: Size, offset: Point) -> bool {
        let c = self.bar_config;
        &&& c.width + c.padding <= u32::MAX
        &&& c.padding + self.overlap_padding() <= u32::MAX
        &&& self.shows_vertical_bar() ==> {
            let x = sat_sub(sat_sub(scroll.width as int, c.padding as int) as int, c.width as int);
            &&& bar_size_admits(scroll.height, inner.height, offset.y, c.minimum_bar_length, c.padding, self.trailing_padding())
            &&& point_add_fits(origin, Point { x: x as i32, y: spec_bar_position(scroll.height, inner.height, offset.y, c.minimum_bar_length, c.padding, self.trailing_padding()) })
        }
        &&& self.shows_horizontal_bar() ==> {
            let y = sat_sub(sat_sub(scroll.height as int, c.padding as int) as int, c.width as int);
            &&& bar_size_admits(scroll.width, inner.width, offset.x, c.minimum_bar_length, c.padding, self.trailing_padding())
            &&& point_add_fits(origin, Point { x: spec_bar_position(scroll.width, inner.width, offset.x, c.minimum_bar_length, c.padding, self.trailing_padding()), y: y as i32 })
        }
    }

    /// The vertical and horizontal scroll bars for a scroll view of size `scroll_size`
    /// showing content of size `inner_size` moved by `subview_offset`, placed from `origin`.
    pub fn scroll_bars(&self, origin: Point, scroll_size: Size, inner_size: Size, subview_offset: Point) -> (r: (
        Option<Capsule>,
        Option<Capsule>,
    ))
        requires
            self.bars_admit(origin, scroll_size, inner_size, subview_offset),
        ensures
            r.0 == self.vertical_bar(origin, scroll_size, inner_size, subview_offset),
            r.1 == self.horizontal_bar(origin, scroll_size, inner_size, subview_offset),
    {
        let c = self.bar_config;
        let overlap_padding: u32 = match self.direction {
            ScrollDirection::Vertical | ScrollDirection::Horizontal => 0,
            ScrollDirection::Both => c.width + c.padding,
        };
        let trailing = c.padding + overlap_padding;
        let show = match c.visibility {
            ScrollBarVisibility::Always => true,
            ScrollBarVisibility::Never => false,
        };
        let vertical_bar = if show && !matches!(self.direction, ScrollDirection::Horizontal) {
            let (bar_y, bar_height) = bar_size(
                scroll_size.height,
                inner_size.height,
                subview_offset.y,
                c.minimum_bar_length,
                c.padding,
                trailing,
            );
            let bar_x = scroll_size.width.saturating_sub(c.padding).saturating_sub(c.width);
            let x = #[verifier::truncate] (bar_x as i32);
            Some(Capsule { origin: origin.add(Point::new(x, bar_y)), size: Size::new(c.width, bar_height) })
        } else {
            None
        };
        let horizontal_bar = if show && !matches!(self.direction, ScrollDirection::Vertical) {
            let (bar_x, bar_width) = bar_size(
                scroll_size.width,
                inner_size.width,
                subview_offset.x,
                c.minimum_bar_length,
                c.padding,
                trailing,
            );
            let bar_y = scroll_size.height.saturating_sub(c.padding).saturating_sub(c.width);
            let y = #[verifier::truncate] (bar_y as i32);
            Some(Capsule { origin: origin.add(Point::new(bar_x, y)), size: Size::new(bar_width, c.width) })
        } else {
            None
        };
        (vertical_bar, horizontal_bar)
    }
}

/// The content of a render tree: where the content is placed relative to the scroll view.
pub open spec fn content_offset<T>(tree: ScrollMetadata<T>) -> Point {
    tree.inner.subtree.subtree.0.offset
}

/// An absolute value.
pub open spec fn abs_i32(v: i32) -> int {
    if v < 0 { -v } else { v as int }
}

impl<Inner: ViewLayout> ScrollView<Inner> {
    /// The room reserved beside the content for the bars, horizontally and vertically.
    pub open spec fn bar_space(&self) -> (u32, u32) {
        let c = self.bar_config;
        if !c.overlaps_content && c.visibility == ScrollBarVisibility::Always {
            let space = (c.padding * 2 + c.width) as u32;
            match self.direction {
                ScrollDirection::Vertical => (space, 0u32),
                ScrollDirection::Horizontal => (0u32, space),
                ScrollDirection::Both => (space, space),
            }
        } else {
            (0u32, 0u32)
        }
    }

    /// The proposal made to the content: compact along the scrolling axes, and the
    /// offer less the room for the bars across them.
    pub open spec fn inner_offer(&self, offer: ProposedDimensions) -> ProposedDimensions {
        let (h, v) = self.bar_space();
        match self.direction {
            ScrollDirection::Vertical => ProposedDimensions { width: proposal_shrunk(offer.width, h), height: ProposedDimension::Compact },
            ScrollDirection::Horizontal => ProposedDimensions { width: ProposedDimension::Compact, height: proposal_shrunk(offer.height, v) },
            ScrollDirection::Both => ProposedDimensions { width: ProposedDimension::Compact, height: ProposedDimension::Compact },
        }
    }

    /// Where the content is drawn for a layout and state.
    pub open spec fn subview_offset(&self, layout: ResolvedLayout<ResolvedLayout<Inner::Sublayout>>, state: ScrollViewState) -> Point {
        let scroll = size_of(layout.resolved_size);
        let inner = size_of(layout.sublayouts.resolved_size);
        if state.interaction is Dragging {
            dragged_offset(state.scroll_offset, scroll, inner)
        } else {
            resting_offset(state.scroll_offset, scroll, inner)
        }
    }

    /// Whether rendering with a state stays within machine arithmetic.
    pub open spec fn render_with_state_admits(
        &self,
        layout: ResolvedLayout<ResolvedLayout<Inner::Sublayout>>,
        env: DefaultEnvironment,
        state: ScrollViewState,
    ) -> bool {
        let scroll = size_of(layout.resolved_size);
        let inner = size_of(layout.sublayouts.resolved_size);
        &&& scroll_range_fits(scroll, inner)
        &&& state.interaction is Dragging ==> state.scroll_offset.x != i32::MIN && state.scroll_offset.y != i32::MIN
        &&& self.bars_admit(Point { x: 0, y: 0 }, scroll, inner, self.subview_offset(layout, state))
        &&& self.inner.render_admits(layout.sublayouts, Point { x: 0, y: 0 }, env)
    }

    /// The render tree for a layout and state, and the state afterwards: at rest the
    /// scroll offset is brought back within the scrollable range.
    pub open spec fn spec_render_with_state(
        &self,
        layout: ResolvedLayout<ResolvedLayout<Inner::Sublayout>>,
        origin: Point,
        env: DefaultEnvironment,
        state: ScrollViewState,
    ) -> (ScrollMetadata<Inner::Renderables>, ScrollViewState) {
        let scroll = size_of(layout.resolved_size);
        let inner = size_of(layout.sublayouts.resolved_size);
        let dragging = state.interaction is Dragging;
        let offset = self.subview_offset(layout, state);
        let zero = Point { x: 0, y: 0 };
        let content = Offset { offset, subtree: self.inner.spec_render_tree(layout.sublayouts, zero, env) };
        let tree = ScrollMetadata {
            scroll_size: scroll,
            inner_size: inner,
            inner: Offset {
                offset: origin,
                subtree: Animate {
                    subtree: (content, self.vertical_bar(zero, scroll, inner, offset), self.horizontal_bar(zero, scroll, inner, offset)),
                    animation: Animation { duration_ms: if dragging { 0 } else { 300 }, curve: AnimationCurve::EaseOutCubic },
                    frame_time_ms: env.app_time_ms,
                    value: dragging,
                },
            },
        };
        let new_state = if dragging { state } else { ScrollViewState { scroll_offset: offset, ..state } };
        (tree, new_state)
    }

    /// Builds the render tree for a layout placed at `origin`, given the scroll state.
    pub fn render_with_state(
        &self,
        layout: &ResolvedLayout<ResolvedLayout<Inner::Sublayout>>,
        origin: Point,
        env: &DefaultEnvironment,
        state: &mut ScrollViewState,
    ) -> (r: ScrollMetadata<Inner::Renderables>)
        requires
            self.render_with_state_admits(*layout, *env, *old(state)),
        ensures
            (r, *final(state)) == self.spec_render_with_state(*layout, origin, *env, *old(state)),
    {
        let scroll = dimensions_to_size(layout.resolved_size);
        let inner = dimensions_to_size(layout.sublayouts.resolved_size);
        let permitted_x = permitted_for(inner.width, scroll.width);
        let permitted_y = permitted_for(inner.height, scroll.height);
        let dragging = matches!(state.interaction, ScrollInteraction::Dragging { .. });
        let offset = if dragging {
            Point::new(damp(state.scroll_offset.x, permitted_x), damp(state.scroll_offset.y, permitted_y))
        } else {
            state.scroll_offset.x = clamp_offset(state.scroll_offset.x, permitted_x);
            state.scroll_offset.y = clamp_offset(state.scroll_offset.y, permitted_y);
            state.scroll_offset
        };
        let (vertical_bar, horizontal_bar) = self.scroll_bars(Point::zero(), scroll, inner, offset);
        let inner_tree = self.inner.render_tree(&layout.sublayouts, Point::zero(), env);
        let duration: u64 = if dragging { 0 } else { 300 };
        ScrollMetadata {
            scroll_size: scroll,
            inner_size: inner,
            inner: Offset {
                offset: origin,
                subtree: Animate {
                    subtree: (Offset { offset, subtree: inner_tree }, vertical_bar, horizontal_bar),
                    animation: Animation::ease_out_cubic(duration),
                    frame_time_ms: env.app_time_ms,
                    value: dragging,
                },
            },
        }
    }

    /// The outcome of an event before the scroll offset moves: the view's own result,
    /// the event passed on to the content, the new state and render tree, and how far
    /// the content moves.
    pub open spec fn event_step(
        &self,
        event: Event,
        state: ScrollViewState,
        tree: ScrollMetadata<Inner::Renderables>,
        app_time_ms: u64,
    ) -> (EventResult, Option<Event>, ScrollViewState, ScrollMetadata<Inner::Renderables>, Point) {
        let zero = Point { x: 0, y: 0 };
        let taken = EventResult { handled: true, recompute_view: true };
        let ignored = EventResult { handled: false, recompute_view: false };
        let a = content_offset(tree);
        let b = tree.inner.offset;
        match event {
            Event::Scroll(delta) => (taken, None, state, tree, delta),
            Event::TouchDown(p) => (
                taken,
                Some(event_offset(event, Point { x: (a.x + b.x) as i32, y: (a.y + b.y) as i32 })),
                ScrollViewState { interaction: ScrollInteraction::Dragging { drag_start: p, last_point: p, is_exclusive: false }, ..state },
                tree,
                zero,
            ),
            Event::TouchMoved(p) => match state.interaction {
                ScrollInteraction::Dragging { drag_start, last_point, is_exclusive } => {
                    let total = point_sub(p, drag_start);
                    let takes_over = !is_exclusive && (abs_i32(total.x) >= 3 || abs_i32(total.y) >= 3);
                    (
                        taken,
                        if takes_over { Some(Event::TouchCancelled) } else { None },
                        ScrollViewState {
                            interaction: ScrollInteraction::Dragging { drag_start, last_point: p, is_exclusive: is_exclusive || takes_over },
                            ..state
                        },
                        tree,
                        point_sub(p, last_point),
                    )
                },
                ScrollInteraction::Idle => (ignored, None, state, tree, zero),
            },
            Event::TouchUp(p) => match state.interaction {
                ScrollInteraction::Dragging { drag_start, last_point, is_exclusive } => {
                    let idle = ScrollViewState { interaction: ScrollInteraction::Idle, ..state };
                    if is_exclusive {
                        let animate = Animate { frame_time_ms: app_time_ms, value: true, ..tree.inner.subtree };
                        let t = ScrollMetadata { inner: Offset { subtree: animate, ..tree.inner }, ..tree };
                        (taken, None, idle, t, point_sub(p, last_point))
                    } else {
                        (taken, Some(Event::TouchUp(point_sub(point_sub(p, a), b))), idle, tree, point_sub(p, last_point))
                    }
                },
                ScrollInteraction::Idle => (ignored, None, state, tree, zero),
            },
            Event::TouchCancelled => (
                taken,
                Some(Event::TouchCancelled),
                ScrollViewState { interaction: ScrollInteraction::Idle, ..state },
                tree,
                zero,
            ),
            _ => (ignored, None, state, tree, zero),
        }
    }

    /// The scroll offset moved by `delta` along the scrolling axes.
    pub open spec fn moved_offset(&self, offset: Point, delta: Point) -> Point {
        match self.direction {
            ScrollDirection::Vertical => Point { x: offset.x, y: (offset.y + delta.y) as i32 },
            ScrollDirection::Horizontal => Point { x: (offset.x + delta.x) as i32, y: offset.y },
            ScrollDirection::Both => Point { x: (offset.x + delta.x) as i32, y: (offset.y + delta.y) as i32 },
        }
    }

    /// Whether handling the event stays within machine arithmetic.
    pub open spec fn event_admits(&self, event: Event, state: ScrollViewState, tree: ScrollMetadata<Inner::Renderables>) -> bool {
        let a = content_offset(tree);
        let b = tree.inner.offset;
        let step = self.event_step(event, state, tree, 0);
        let delta = step.4;
        let moved = self.moved_offset(step.2.scroll_offset, delta);
        &&& match event {
            Event::TouchDown(p) => point_add_fits(a, b) && event_offset_fits(event, Point { x: (a.x + b.x) as i32, y: (a.y + b.y) as i32 }),
            Event::TouchMoved(p) => match state.interaction {
                ScrollInteraction::Dragging { drag_start, last_point, is_exclusive } => {
                    &&& point_sub_fits(p, last_point)
                    &&& point_sub_fits(p, drag_start)
                    &&& point_sub(p, drag_start).x != i32::MIN
                    &&& point_sub(p, drag_start).y != i32::MIN
                },
                ScrollInteraction::Idle => true,
            },
            Event::TouchUp(p) => match state.interaction {
                ScrollInteraction::Dragging { drag_start, last_point, is_exclusive } => {
                    &&& point_sub_fits(p, last_point)
                    &&& !is_exclusive ==> point_sub_fits(p, a) && point_sub_fits(point_sub(p, a), b)
                },
                ScrollInteraction::Idle => true,
            },
            _ => true,
        }
        &&& !(self.direction is Vertical) ==> i32::MIN <= step.2.scroll_offset.x + delta.x <= i32::MAX
        &&& !(self.direction is Horizontal) ==> i32::MIN <= step.2.scroll_offset.y + delta.y <= i32::MAX
        &&& delta != Point { x: 0, y: 0 } ==> {
            &&& moved.x != i32::MIN
            &&& moved.y != i32::MIN
            &&& scroll_range_fits(tree.scroll_size, tree.inner_size)
            &&& self.bars_admit(Point { x: 0, y: 0 }, tree.scroll_size, tree.inner_size, dragged_offset(moved, tree.scroll_size, tree.inner_size))
        }
    }

    /// The outcome of an event: the view's own result, the event passed on to the
    /// content (whose result the caller merges in), the new state and the new render tree.
    pub open spec fn spec_handle_event(
        &self,
        event: Event,
        state: ScrollViewState,
        tree: ScrollMetadata<Inner::Renderables>,
        app_time_ms: u64,
    ) -> (EventResult, Option<Event>, ScrollViewState, ScrollMetadata<Inner::Renderables>) {
        let step = self.event_step(event, state, tree, app_time_ms);
        let delta = step.4;
        let moved = self.moved_offset(step.2.scroll_offset, delta);
        let st = ScrollViewState { scroll_offset: moved, ..step.2 };
        let t = step.3;
        if delta == (Point { x: 0, y: 0 }) {
            (step.0, step.1, st, t)
        } else {
            let zero = Point { x: 0, y: 0 };
            let sub = dragged_offset(moved, t.scroll_size, t.inner_size);
            let bars = (self.vertical_bar(zero, t.scroll_size, t.inner_size, sub), self.horizontal_bar(zero, t.scroll_size, t.inner_size, sub));
            let content = Offset { offset: sub, ..t.inner.subtree.subtree.0 };
            let animate = Animate { subtree: (content, bars.0, bars.1), ..t.inner.subtree };
            (step.0, step.1, st, ScrollMetadata { inner: Offset { subtree: animate, ..t.inner }, ..t })
        }
    }

    /// Handles an event: drags and scrolls move the content, and touches are passed on to
    /// the content until a drag takes them over. Returns the view's own result and the
    /// event, if any, to pass on to the content.
    pub fn handle_event(
        &self,
        event: &Event,
        app_time_ms: u64,
        render_tree: &mut ScrollMetadata<Inner::Renderables>,
        state: &mut ScrollViewState,
    ) -> (r: (EventResult, Option<Event>))
        requires
            self.event_admits(*event, *old(state), *old(render_tree)),
        ensures
            (r.0, r.1, *final(state), *final(render_tree))
                == self.spec_handle_event(*event, *old(state), *old(render_tree), app_time_ms),
    {
        let ghost step = self.event_step(*event, *state, *render_tree, app_time_ms);
        let zero = Point::zero();
        let (result, forward, delta): (EventResult, Option<Event>, Point) = match *event {
            Event::Scroll(delta) => (EventResult::new(true, true), None, delta),
            Event::TouchDown(point) => {
                state.interaction = ScrollInteraction::Dragging { drag_start: point, last_point: point, is_exclusive: false };
                let content = render_tree.inner.subtree.subtree.0.offset.add(render_tree.inner.offset);
                (EventResult::new(true, true), Some(event.offset(content)), zero)
            },
            Event::TouchMoved(point) => match state.interaction {
                ScrollInteraction::Dragging { drag_start, last_point, is_exclusive } => {
                    let delta = sub_point(point, last_point);
                    let total = sub_point(point, drag_start);
                    let ax = if total.x < 0 { -total.x } else { total.x };
                    let ay = if total.y < 0 { -total.y } else { total.y };
                    let takes_over = !is_exclusive && (ax >= 3 || ay >= 3);
                    state.interaction = ScrollInteraction::Dragging {
                        drag_start,
                        last_point: point,
                        is_exclusive: is_exclusive || takes_over,
                    };
                    let forward = if takes_over { Some(Event::TouchCancelled) } else { None };
                    (EventResult::new(true, true), forward, delta)
                },
                ScrollInteraction::Idle => (EventResult::default(), None, zero),
            },
            Event::TouchUp(point) => match state.interaction {
                ScrollInteraction::Dragging { drag_start: _, last_point, is_exclusive } => {
                    state.interaction = ScrollInteraction::Idle;
                    let delta = sub_point(point, last_point);
                    if is_exclusive {
                        render_tree.inner.subtree.frame_time_ms = app_time_ms;
                        render_tree.inner.subtree.value = true;
                        (EventResult::new(true, true), None, delta)
                    } else {
                        let p = sub_point(sub_point(point, render_tree.inner.subtree.subtree.0.offset), render_tree.inner.offset);
                        (EventResult::new(true, true), Some(Event::TouchUp(p)), delta)
                    }
                },
                ScrollInteraction::Idle => (EventResult::default(), None, zero),
            },
            Event::TouchCancelled => {
                state.interaction = ScrollInteraction::Idle;
                (EventResult::new(true, true), Some(Event::TouchCancelled), zero)
            },
            _ => (EventResult::default(), None, zero),
        };
        assert(delta == step.4);
        match self.direction {
            ScrollDirection::Vertical => {
                state.scroll_offset.y = state.scroll_offset.y + delta.y;
            },
            ScrollDirection::Horizontal => {
                state.scroll_offset.x = state.scroll_offset.x + delta.x;
            },
            ScrollDirection::Both => {
                state.scroll_offset.x = state.scroll_offset.x + delta.x;
                state.scroll_offset.y = state.scroll_offset.y + delta.y;
            },
        }
        if delta.x != 0 || delta.y != 0 {
            let permitted_x = permitted_for(render_tree.inner_size.width, render_tree.scroll_size.width);
            let permitted_y = permitted_for(render_tree.inner_size.height, render_tree.scroll_size.height);
            let sub = Point::new(damp(state.scroll_offset.x, permitted_x), damp(state.scroll_offset.y, permitted_y));
            render_tree.inner.subtree.subtree.0.offset = sub;
            let (vertical_bar, horizontal_bar) = self.scroll_bars(Point::zero(), render_tree.scroll_size, render_tree.inner_size, sub);
            render_tree.inner.subtree.subtree.1 = vertical_bar;
            render_tree.inner.subtree.subtree.2 = horizontal_bar;
        }
        (result, forward)
    }
}

impl<Inner: ViewLayout> ViewLayout for ScrollView<Inner> {
    type Sublayout = ResolvedLayout<Inner::Sublayout>;
    type Renderables = ScrollMetadata<Inner::Renderables>;

    open spec fn spec_priority(&self) -> i8 { 0 }
    open spec fn spec_is_empty(&self) -> bool { false }

    open spec fn admits(&self, offer: ProposedDimensions, env: DefaultEnvironment) -> bool {
        let c = self.bar_config;
        &&& (!c.overlaps_content && c.visibility == ScrollBarVisibility::Always) ==> c.padding * 2 + c.width <= u32::MAX
        &&& self.inner.admits(self.inner_offer(offer), env)
    }

    open spec fn spec_layout(&self, offer: ProposedDimensions, env: DefaultEnvironment) -> ResolvedLayout<ResolvedLayout<Inner::Sublayout>> {
        ResolvedLayout {
            sublayouts: self.inner.spec_layout(self.inner_offer(offer), env),
            resolved_size: Dimensions { width: resolve_flexible(offer.width, 0, 1), height: resolve_flexible(offer.height, 0, 1) },
        }
    }

    open spec fn render_admits(&self, layout: ResolvedLayout<ResolvedLayout<Inner::Sublayout>>, origin: Point, env: DefaultEnvironment) -> bool {
        self.render_with_state_admits(layout, env, ScrollViewState { scroll_offset: Point { x: 0, y: 0 }, interaction: ScrollInteraction::Idle })
    }

    open spec fn spec_render_tree(&self, layout: ResolvedLayout<ResolvedLayout<Inner::Sublayout>>, origin: Point, env: DefaultEnvironment) -> ScrollMetadata<Inner::Renderables> {
        self.spec_render_with_state(layout, origin, env, ScrollViewState { scroll_offset: Point { x: 0, y: 0 }, interaction: ScrollInteraction::Idle }).0
    }

    fn priority(&self) -> (r: i8) { 0 }

    fn is_empty(&self) -> (r: bool) { false }

    fn layout(&self, offer: &ProposedDimensions, env: &DefaultEnvironment) -> (r: ResolvedLayout<ResolvedLayout<Inner::Sublayout>>) {
        let dimensions = offer.resolve_most_flexible(0, 1);
        let c = self.bar_config;
        let (horizontal_padding, vertical_padding): (u32, u32) = if !c.overlaps_content
            && matches!(c.visibility, ScrollBarVisibility::Always)
        {
            let bar_space = c.padding * 2 + c.width;
            match self.direction {
                ScrollDirection::Vertical => (bar_space, 0),
                ScrollDirection::Horizontal => (0, bar_space),
                ScrollDirection::Both => (bar_space, bar_space),
            }
        } else {
            (0, 0)
        };
        let inner_offer = match self.direction {
            ScrollDirection::Vertical => ProposedDimensions::new(offer.width.shrink(horizontal_padding), ProposedDimension::Compact),
            ScrollDirection::Horizontal => ProposedDimensions::new(ProposedDimension::Compact, offer.height.shrink(vertical_padding)),
            ScrollDirection::Both => ProposedDimensions::compact(),
        };
        let inner_layout = self.inner.layout(&inner_offer, env);
        ResolvedLayout { sublayouts: inner_layout, resolved_size: dimensions }
    }

    fn render_tree(&self, layout: &ResolvedLayout<ResolvedLayout<Inner::Sublayout>>, origin: Point, env: &DefaultEnvironment) -> (r: ScrollMetadata<Inner::Renderables>) {
        let mut state = ScrollViewState::new();
        self.render_with_state(layout, origin, env, &mut state)
    }
}

/// A vertical scroll view never moves its content sideways, and a scroll event moves it
/// down by the scroll's vertical distance, leaves the interaction as it was, and is taken
/// by the view without being passed on.
pub proof fn lemma_vertical_scroll<Inner: ViewLayout>(
    view: ScrollView<Inner>,
    event: Event,
    state: ScrollViewState,
    tree: ScrollMetadata<Inner::Renderables>,
    app_time_ms: u64,
)
    requires
        view.direction == ScrollDirection::Vertical,
        event matches Event::Scroll(d) ==> i32::MIN <= state.scroll_offset.y + d.y <= i32::MAX,
    ensures
        ({
            let out = view.spec_handle_event(event, state, tree, app_time_ms);
            &&& out.2.scroll_offset.x == state.scroll_offset.x
            &&& event matches Event::Scroll(d) ==> {
                &&& out.2.scroll_offset.y == state.scroll_offset.y + d.y
                &&& out.2.interaction == state.interaction
                &&& out.0 == (EventResult { handled: true, recompute_view: true })
                &&& out.1 is None
            }
        }),
{
}

} // verus!
