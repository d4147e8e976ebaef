//! A stack that arranges its children side by side.

use vstd::prelude::*;
use crate::layout::{
    align_offset_v, dimension_to_i32, length_i32, DefaultEnvironment, LayoutDirection, ResolvedLayout,
    VerticalAlignment,
};
use crate::primitives::{point_add_fits, Dimensions, Point, ProposedDimensions};
use crate::view::stack::{
    layout_n, stack_admits, stack_offers, stack_size, with_main, StackChildren, StackParams,
};
use crate::view::ViewLayout;

verus! {

/// A view that arranges its children horizontally, side by side, with a fixed spacing
/// between the non-empty ones.
///
/// The width offered to the stack is shared out among the children: those with a
/// higher layout priority first, and among equals the least flexible first.
#[derive(Debug, Clone)]
pub struct HStack<T> {
    pub items: T,
    pub alignment: VerticalAlignment,
    pub spacing: u16,
}

impl<T> HStack<T> {
    /// A stack of `items`, centered vertically, without spacing.
    pub fn new(items: T) -> (r: Self)
        ensures
            r == (HStack { items, alignment: VerticalAlignment::Center, spacing: 0 }),
    {
        HStack { items, alignment: VerticalAlignment::default(), spacing: 0 }
    }

    /// The same stack with `spacing` between non-empty children.
    pub fn with_spacing(self, spacing: u16) -> (r: Self)
        ensures
            r == (HStack { spacing, ..self }),
    {
        HStack { spacing, ..self }
    }

    /// The same stack with its children aligned vertically by `alignment`.
    pub fn with_alignment(self, alignment: VerticalAlignment) -> (r: Self)
        ensures
            r == (HStack { alignment, ..self }),
    {
        HStack { alignment, ..self }
    }

    /// How the stack lays out its children.
    pub open spec fn params(&self, n: usize) -> StackParams {
        StackParams { direction: LayoutDirection::Horizontal, spacing: self.spacing as u32, slots: n, clamp_cross: true }
    }

    /// The x offset of the child after one of the given width placed at `x`.
    pub open spec fn next_x(&self, x: int, child: Dimensions, empty: bool) -> int {
        if empty { x } else { x + length_i32(child.width) + self.spacing }
    }

    /// The offset of a child at `x` within a stack of the given size.
    pub open spec fn child_offset(&self, x: int, size: Dimensions, child: Dimensions) -> Point {
        Point {
            x: x as i32,
            y: align_offset_v(self.alignment, length_i32(size.height) as int, length_i32(child.height) as int) as i32,
        }
    }

    /// The origin of a child at `x` within a stack of the given size placed at `origin`.
    pub open spec fn child_origin(&self, origin: Point, x: int, size: Dimensions, child: Dimensions) -> Point {
        let offset = self.child_offset(x, size, child);
        Point { x: (origin.x + offset.x) as i32, y: (origin.y + offset.y) as i32 }
    }

    /// Whether a child at `x` can be placed without leaving the coordinate range.
    pub open spec fn placeable(&self, origin: Point, x: int, size: Dimensions, child: Dimensions) -> bool {
        &&& i32::MIN <= x <= i32::MAX
        &&& point_add_fits(origin, self.child_offset(x, size, child))
    }
}

impl<T> PartialEq for HStack<T> {
    fn eq(&self, other: &Self) -> (r: bool) {
        self.spacing == other.spacing && self.alignment == other.alignment
    }
}

impl<T> vstd::std_specs::cmp::PartialEqSpecImpl for HStack<T> {
    open spec fn obeys_eq_spec() -> bool {
        true
    }

    open spec fn eq_spec(&self, other: &Self) -> bool {
        self.spacing == other.spacing && self.alignment == other.alignment
    }
}

/// The environment children of a horizontal stack are laid out in.
pub open spec fn horizontal_env(env: DefaultEnvironment) -> DefaultEnvironment {
    DefaultEnvironment { layout_direction: LayoutDirection::Horizontal, ..env }
}

/// The x offset of the child after one of the given width placed at `x`.
fn advance(x: i32, child: Dimensions, empty: bool, spacing: u16) -> (r: i32)
    requires
        !empty ==> i32::MIN <= x + length_i32(child.width) + spacing <= i32::MAX,
    ensures
        r == (if empty { x as int } else { x + length_i32(child.width) + spacing }),
{
    if empty {
        x
    } else {
        x + dimension_to_i32(child.width) + spacing as i32
    }
}

impl<T0: ViewLayout, T1: ViewLayout> StackChildren for (T0, T1) {
    open spec fn child_count(&self) -> nat { 2 }
    open spec fn children_ready(&self) -> bool { true }
    open spec fn child_priority(&self, i: int) -> i8 { if i == 0 { self.0.spec_priority() } else { self.1.spec_priority() } }
    open spec fn child_is_empty(&self, i: int) -> bool { if i == 0 { self.0.spec_is_empty() } else { self.1.spec_is_empty() } }
    open spec fn child_admits(&self, i: int, offer: ProposedDimensions, env: DefaultEnvironment) -> bool { if i == 0 { self.0.admits(offer, env) } else { self.1.admits(offer, env) } }
    open spec fn child_size(&self, i: int, offer: ProposedDimensions, env: DefaultEnvironment) -> Dimensions { if i == 0 { self.0.spec_layout(offer, env).resolved_size } else { self.1.spec_layout(offer, env).resolved_size } }
    fn count(&self) -> (r: usize) { 2 }
    fn priority_at(&self, i: usize) -> (r: i8) { if i == 0 { self.0.priority() } else { self.1.priority() } }
    fn is_empty_at(&self, i: usize) -> (r: bool) { if i == 0 { self.0.is_empty() } else { self.1.is_empty() } }
    fn size_at(&self, i: usize, offer: &ProposedDimensions, env: &DefaultEnvironment) -> (r: Dimensions) { if i == 0 { self.0.layout(offer, env).resolved_size } else { self.1.layout(offer, env).resolved_size } }
}

impl<T0: ViewLayout, T1: ViewLayout> ViewLayout for HStack<(T0, T1)> {
    type Sublayout = (ResolvedLayout<T0::Sublayout>, ResolvedLayout<T1::Sublayout>);
    type Renderables = (T0::Renderables, T1::Renderables);

    open spec fn spec_priority(&self) -> i8 { 0 }
    open spec fn spec_is_empty(&self) -> bool { false }

    open spec fn admits(&self, offer: ProposedDimensions, env: DefaultEnvironment) -> bool {
        stack_admits(&self.items, offer, horizontal_env(env), LayoutDirection::Horizontal)
    }

    open spec fn spec_layout(&self, offer: ProposedDimensions, env: DefaultEnvironment) -> ResolvedLayout<(ResolvedLayout<T0::Sublayout>, ResolvedLayout<T1::Sublayout>)> {
        let henv = horizontal_env(env);
        let offers = stack_offers(&self.items, offer, henv, self.params(2));
        ResolvedLayout {
            sublayouts: (self.items.0.spec_layout(offers[0], henv), self.items.1.spec_layout(offers[1], henv)),
            resolved_size: stack_size(&self.items, offer, henv, self.params(2)),
        }
    }

    open spec fn render_admits(&self, layout: ResolvedLayout<(ResolvedLayout<T0::Sublayout>, ResolvedLayout<T1::Sublayout>)>, origin: Point, env: DefaultEnvironment) -> bool {
        let henv = horizontal_env(env);
        let size = layout.resolved_size;
        let x0 = 0int;
        let x1 = self.next_x(x0, layout.sublayouts.0.resolved_size, self.items.0.spec_is_empty());
        &&& self.placeable(origin, x0, size, layout.sublayouts.0.resolved_size)
        &&& self.items.0.render_admits(layout.sublayouts.0, self.child_origin(origin, x0, size, layout.sublayouts.0.resolved_size), henv)
        &&& self.placeable(origin, x1, size, layout.sublayouts.1.resolved_size)
        &&& self.items.1.render_admits(layout.sublayouts.1, self.child_origin(origin, x1, size, layout.sublayouts.1.resolved_size), henv)
    }

    open spec fn spec_render_tree(&self, layout: ResolvedLayout<(ResolvedLayout<T0::Sublayout>, ResolvedLayout<T1::Sublayout>)>, origin: Point, env: DefaultEnvironment) -> (T0::Renderables, T1::Renderables) {
        let henv = horizontal_env(env);
        let size = layout.resolved_size;
        let x0 = 0int;
        let x1 = self.next_x(x0, layout.sublayouts.0.resolved_size, self.items.0.spec_is_empty());
        (self.items.0.spec_render_tree(layout.sublayouts.0, self.child_origin(origin, x0, size, layout.sublayouts.0.resolved_size), henv), self.items.1.spec_render_tree(layout.sublayouts.1, self.child_origin(origin, x1, size, layout.sublayouts.1.resolved_size), henv))
    }

    fn priority(&self) -> (r: i8) { 0 }

    fn is_empty(&self) -> (r: bool) { false }

    fn layout(&self, offer: &ProposedDimensions, env: &DefaultEnvironment) -> (r: ResolvedLayout<(ResolvedLayout<T0::Sublayout>, ResolvedLayout<T1::Sublayout>)>) {
        let henv = env.with_direction(LayoutDirection::Horizontal);
        let params = StackParams { direction: LayoutDirection::Horizontal, spacing: self.spacing as u32, slots: 2, clamp_cross: true };
        let (size, offers) = layout_n(&self.items, offer, &henv, params);
        assert(self.items.child_admits(0, with_main(*offer, LayoutDirection::Horizontal, offers@[0].width), henv));
        assert(with_main(*offer, LayoutDirection::Horizontal, offers@[0].width) == offers@[0]);
        let c0 = self.items.0.layout(&offers[0], &henv);
        assert(self.items.child_admits(1, with_main(*offer, LayoutDirection::Horizontal, offers@[1].width), henv));
        assert(with_main(*offer, LayoutDirection::Horizontal, offers@[1].width) == offers@[1]);
        let c1 = self.items.1.layout(&offers[1], &henv);
        ResolvedLayout { sublayouts: (c0, c1), resolved_size: size }
    }

    fn render_tree(&self, layout: &ResolvedLayout<(ResolvedLayout<T0::Sublayout>, ResolvedLayout<T1::Sublayout>)>, origin: Point, env: &DefaultEnvironment) -> (r: (T0::Renderables, T1::Renderables)) {
        let henv = env.with_direction(LayoutDirection::Horizontal);
        let height = dimension_to_i32(layout.resolved_size.height);
        let mut x: i32 = 0;
        let y0 = self.alignment.align(height, dimension_to_i32(layout.sublayouts.0.resolved_size.height));
        let r0 = self.items.0.render_tree(&layout.sublayouts.0, origin.add(Point::new(x, y0)), &henv);
        x = advance(x, layout.sublayouts.0.resolved_size, self.items.0.is_empty(), self.spacing);
        let y1 = self.alignment.align(height, dimension_to_i32(layout.sublayouts.1.resolved_size.height));
        let r1 = self.items.1.render_tree(&layout.sublayouts.1, origin.add(Point::new(x, y1)), &henv);
        (r0, r1)
    }
}

impl<T0: ViewLayout, T1: ViewLayout, T2: ViewLayout> StackChildren for (T0, T1, T2) {
    open spec fn child_count(&self) -> nat { 3 }
    open spec fn children_ready(&self) -> bool { true }
    open spec fn child_priority(&self, i: int) -> i8 { if i == 0 { self.0.spec_priority() } else { if i == 1 { self.1.spec_priority() } else { self.2.spec_priority() } } }
    open spec fn child_is_empty(&self, i: int) -> bool { if i == 0 { self.0.spec_is_empty() } else { if i == 1 { self.1.spec_is_empty() } else { self.2.spec_is_empty() } } }
    open spec fn child_admits(&self, i: int, offer: ProposedDimensions, env: DefaultEnvironment) -> bool { if i == 0 { self.0.admits(offer, env) } else { if i == 1 { self.1.admits(offer, env) } else { self.2.admits(offer, env) } } }
    open spec fn child_size(&self, i: int, offer: ProposedDimensions, env: DefaultEnvironment) -> Dimensions { if i == 0 { self.0.spec_layout(offer, env).resolved_size } else { if i == 1 { self.1.spec_layout(offer, env).resolved_size } else { self.2.spec_layout(offer, env).resolved_size } } }
    fn count(&self) -> (r: usize) { 3 }
    fn priority_at(&self, i: usize) -> (r: i8) { if i == 0 { self.0.priority() } else { if i == 1 { self.1.priority() } else { self.2.priority() } } }
    fn is_empty_at(&self, i: usize) -> (r: bool) { if i == 0 { self.0.is_empty() } else { if i == 1 { self.1.is_empty() } else { self.2.is_empty() } } }
    fn size_at(&self, i: usize, offer: &ProposedDimensions, env: &DefaultEnvironment) -> (r: Dimensions) { if i == 0 { self.0.layout(offer, env).resolved_size } else { if i == 1 { self.1.layout(offer, env).resolved_size } else { self.2.layout(offer, env).resolved_size } } }
}

impl<T0: ViewLayout, T1: ViewLayout, T2: ViewLayout> ViewLayout for HStack<(T0, T1, T2)> {
    type Sublayout = (ResolvedLayout<T0::Sublayout>, ResolvedLayout<T1::Sublayout>, ResolvedLayout<T2::Sublayout>);
    type Renderables = (T0::Renderables, T1::Renderables, T2::Renderables);

    open spec fn spec_priority(&self) -> i8 { 0 }
    open spec fn spec_is_empty(&self) -> bool { false }

    open spec fn admits(&self, offer: ProposedDimensions, env: DefaultEnvironment) -> bool {
        stack_admits(&self.items, offer, horizontal_env(env), LayoutDirection::Horizontal)
    }

    open spec fn spec_layout(&self, offer: ProposedDimensions, env: DefaultEnvironment) -> ResolvedLayout<(ResolvedLayout<T0::Sublayout>, ResolvedLayout<T1::Sublayout>, ResolvedLayout<T2::Sublayout>)> {
        let henv = horizontal_env(env);
        let offers = stack_offers(&self.items, offer, henv, self.params(3));
        ResolvedLayout {
            sublayouts: (self.items.0.spec_layout(offers[0], henv), self.items.1.spec_layout(offers[1], henv), self.items.2.spec_layout(offers[2], henv)),
            resolved_size: stack_size(&self.items, offer, henv, self.params(3)),
        }
    }

    open spec fn render_admits(&self, layout: ResolvedLayout<(ResolvedLayout<T0::Sublayout>, ResolvedLayout<T1::Sublayout>, ResolvedLayout<T2::Sublayout>)>, origin: Point, env: DefaultEnvironment) -> bool {
        let henv = horizontal_env(env);
        let size = layout.resolved_size;
        let x0 = 0int;
        let x1 = self.next_x(x0, layout.sublayouts.0.resolved_size, self.items.0.spec_is_empty());
        let x2 = self.next_x(x1, layout.sublayouts.1.resolved_size, self.items.1.spec_is_empty());
        &&& self.placeable(origin, x0, size, layout.sublayouts.0.resolved_size)
        &&& self.items.0.render_admits(layout.sublayouts.0, self.child_origin(origin, x0, size, layout.sublayouts.0.resolved_size), henv)
        &&& self.placeable(origin, x1, size, layout.sublayouts.1.resolved_size)
        &&& self.items.1.render_admits(layout.sublayouts.1, self.child_origin(origin, x1, size, layout.sublayouts.1.resolved_size), henv)
        &&& self.placeable(origin, x2, size, layout.sublayouts.2.resolved_size)
        &&& self.items.2.render_admits(layout.sublayouts.2, self.child_origin(origin, x2, size, layout.sublayouts.2.resolved_size), henv)
    }

    open spec fn spec_render_tree(&self, layout: ResolvedLayout<(ResolvedLayout<T0::Sublayout>, ResolvedLayout<T1::Sublayout>, ResolvedLayout<T2::Sublayout>)>, origin: Point, env: DefaultEnvironment) -> (T0::Renderables, T1::Renderables, T2::Renderables) {
        let henv = horizontal_env(env);
        let size = layout.resolved_size;
        let x0 = 0int;
        let x1 = self.next_x(x0, layout.sublayouts.0.resolved_size, self.items.0.spec_is_empty());
        let x2 = self.next_x(x1, layout.sublayouts.1.resolved_size, self.items.1.spec_is_empty());
        (self.items.0.spec_render_tree(layout.sublayouts.0, self.child_origin(origin, x0, size, layout.sublayouts.0.resolved_size), henv), self.items.1.spec_render_tree(layout.sublayouts.1, self.child_origin(origin, x1, size, layout.sublayouts.1.resolved_size), henv), self.items.2.spec_render_tree(layout.sublayouts.2, self.child_origin(origin, x2, size, layout.sublayouts.2.resolved_size), henv))
    }

    fn priority(&self) -> (r: i8) { 0 }

    fn is_empty(&self) -> (r: bool) { false }

    fn layout(&self, offer: &ProposedDimensions, env: &DefaultEnvironment) -> (r: ResolvedLayout<(ResolvedLayout<T0::Sublayout>, ResolvedLayout<T1::Sublayout>, ResolvedLayout<T2::Sublayout>)>) {
        let henv = env.with_direction(LayoutDirection::Horizontal);
        let params = StackParams { direction: LayoutDirection::Horizontal, spacing: self.spacing as u32, slots: 3, clamp_cross: true };
        let (size, offers) = layout_n(&self.items, offer, &henv, params);
        assert(self.items.child_admits(0, with_main(*offer, LayoutDirection::Horizontal, offers@[0].width), henv));
        assert(with_main(*offer, LayoutDirection::Horizontal, offers@[0].width) == offers@[0]);
        let c0 = self.items.0.layout(&offers[0], &henv);
        assert(self.items.child_admits(1, with_main(*offer, LayoutDirection::Horizontal, offers@[1].width), henv));
        assert(with_main(*offer, LayoutDirection::Horizontal, offers@[1].width) == offers@[1]);
        let c1 = self.items.1.layout(&offers[1], &henv);
        assert(self.items.child_admits(2, with_main(*offer, LayoutDirection::Horizontal, offers@[2].width), henv));
        assert(with_main(*offer, LayoutDirection::Horizontal, offers@[2].width) == offers@[2]);
        let c2 = self.items.2.layout(&offers[2], &henv);
        ResolvedLayout { sublayouts: (c0, c1, c2), resolved_size: size }
    }

    fn render_tree(&self, layout: &ResolvedLayout<(ResolvedLayout<T0::Sublayout>, ResolvedLayout<T1::Sublayout>, ResolvedLayout<T2::Sublayout>)>, origin: Point, env: &DefaultEnvironment) -> (r: (T0::Renderables, T1::Renderables, T2::Renderables)) {
        let henv = env.with_direction(LayoutDirection::Horizontal);
        let height = dimension_to_i32(layout.resolved_size.height);
        let mut x: i32 = 0;
        let y0 = self.alignment.align(height, dimension_to_i32(layout.sublayouts.0.resolved_size.height));
        let r0 = self.items.0.render_tree(&layout.sublayouts.0, origin.add(Point::new(x, y0)), &henv);
        x = advance(x, layout.sublayouts.0.resolved_size, self.items.0.is_empty(), self.spacing);
        let y1 = self.alignment.align(height, dimension_to_i32(layout.sublayouts.1.resolved_size.height));
        let r1 = self.items.1.render_tree(&layout.sublayouts.1, origin.add(Point::new(x, y1)), &henv);
        x = advance(x, layout.sublayouts.1.resolved_size, self.items.1.is_empty(), self.spacing);
        let y2 = self.alignment.align(height, dimension_to_i32(layout.sublayouts.2.resolved_size.height));
        let r2 = self.items.2.render_tree(&layout.sublayouts.2, origin.add(Point::new(x, y2)), &henv);
        (r0, r1, r2)
    }
}

impl<T0: ViewLayout, T1: ViewLayout, T2: ViewLayout, T3: ViewLayout> StackChildren for (T0, T1, T2, T3) {
    open spec fn child_count(&self) -> nat { 4 }
    open spec fn children_ready(&self) -> bool { true }
    open spec fn child_priority(&self, i: int) -> i8 { if i == 0 { self.0.spec_priority() } else { if i == 1 { self.1.spec_priority() } else { if i == 2 { self.2.spec_priority() } else { self.3.spec_priority() } } } }
    open spec fn child_is_empty(&self, i: int) -> bool { if i == 0 { self.0.spec_is_empty() } else { if i == 1 { self.1.spec_is_empty() } else { if i == 2 { self.2.spec_is_empty() } else { self.3.spec_is_empty() } } } }
    open spec fn child_admits(&self, i: int, offer: ProposedDimensions, env: DefaultEnvironment) -> bool { if i == 0 { self.0.admits(offer, env) } else { if i == 1 { self.1.admits(offer, env) } else { if i == 2 { self.2.admits(offer, env) } else { self.3.admits(offer, env) } } } }
    open spec fn child_size(&self, i: int, offer: ProposedDimensions, env: DefaultEnvironment) -> Dimensions { if i == 0 { self.0.spec_layout(offer, env).resolved_size } else { if i == 1 { self.1.spec_layout(offer, env).resolved_size } else { if i == 2 { self.2.spec_layout(offer, env).resolved_size } else { self.3.spec_layout(offer, env).resolved_size } } } }
    fn count(&self) -> (r: usize) { 4 }
    fn priority_at(&self, i: usize) -> (r: i8) { if i == 0 { self.0.priority() } else { if i == 1 { self.1.priority() } else { if i == 2 { self.2.priority() } else { self.3.priority() } } } }
    fn is_empty_at(&self, i: usize) -> (r: bool) { if i == 0 { self.0.is_empty() } else { if i == 1 { self.1.is_empty() } else { if i == 2 { self.2.is_empty() } else { self.3.is_empty() } } } }
    fn size_at(&self, i: usize, offer: &ProposedDimensions, env: &DefaultEnvironment) -> (r: Dimensions) { if i == 0 { self.0.layout(offer, env).resolved_size } else { if i == 1 { self.1.layout(offer, env).resolved_size } else { if i == 2 { self.2.layout(offer, env).resolved_size } else { self.3.layout(offer, env).resolved_size } } } }
}

impl<T0: ViewLayout, T1: ViewLayout, T2: ViewLayout, T3: ViewLayout> ViewLayout for HStack<(T0, T1, T2, T3)> {
    type Sublayout = (ResolvedLayout<T0::Sublayout>, ResolvedLayout<T1::Sublayout>, ResolvedLayout<T2::Sublayout>, ResolvedLayout<T3::Sublayout>);
    type Renderables = (T0::Renderables, T1::Renderables, T2::Renderables, T3::Renderables);

    open spec fn spec_priority(&self) -> i8 { 0 }
    open spec fn spec_is_empty(&self) -> bool { false }

    open spec fn admits(&self, offer: ProposedDimensions, env: DefaultEnvironment) -> bool {
        stack_admits(&self.items, offer, horizontal_env(env), LayoutDirection::Horizontal)
    }

    open spec fn spec_layout(&self, offer: ProposedDimensions, env: DefaultEnvironment) -> ResolvedLayout<(ResolvedLayout<T0::Sublayout>, ResolvedLayout<T1::Sublayout>, ResolvedLayout<T2::Sublayout>, ResolvedLayout<T3::Sublayout>)> {
        let henv = horizontal_env(env);
        let offers = stack_offers(&self.items, offer, henv, self.params(4));
        ResolvedLayout {
            sublayouts: (self.items.0.spec_layout(offers[0], henv), self.items.1.spec_layout(offers[1], henv), self.items.2.spec_layout(offers[2], henv), self.items.3.spec_layout(offers[3], henv)),
            resolved_size: stack_size(&self.items, offer, henv, self.params(4)),
        }
    }

    open spec fn render_admits(&self, layout: ResolvedLayout<(ResolvedLayout<T0::Sublayout>, ResolvedLayout<T1::Sublayout>, ResolvedLayout<T2::Sublayout>, ResolvedLayout<T3::Sublayout>)>, origin: Point, env: DefaultEnvironment) -> bool {
        let henv = horizontal_env(env);
        let size = layout.resolved_size;
        let x0 = 0int;
        let x1 = self.next_x(x0, layout.sublayouts.0.resolved_size, self.items.0.spec_is_empty());
        let x2 = self.next_x(x1, layout.sublayouts.1.resolved_size, self.items.1.spec_is_empty());
        let x3 = self.next_x(x2, layout.sublayouts.2.resolved_size, self.items.2.spec_is_empty());
        &&& self.placeable(origin, x0, size, layout.sublayouts.0.resolved_size)
        &&& self.items.0.render_admits(layout.sublayouts.0, self.child_origin(origin, x0, size, layout.sublayouts.0.resolved_size), henv)
        &&& self.placeable(origin, x1, size, layout.sublayouts.1.resolved_size)
        &&& self.items.1.render_admits(layout.sublayouts.1, self.child_origin(origin, x1, size, layout.sublayouts.1.resolved_size), henv)
        &&& self.placeable(origin, x2, size, layout.sublayouts.2.resolved_size)
        &&& self.items.2.render_admits(layout.sublayouts.2, self.child_origin(origin, x2, size, layout.sublayouts.2.resolved_size), henv)
        &&& self.placeable(origin, x3, size, layout.sublayouts.3.resolved_size)
        &&& self.items.3.render_admits(layout.sublayouts.3, self.child_origin(origin, x3, size, layout.sublayouts.3.resolved_size), henv)
    }

    open spec fn spec_render_tree(&self, layout: ResolvedLayout<(ResolvedLayout<T0::Sublayout>, ResolvedLayout<T1::Sublayout>, ResolvedLayout<T2::Sublayout>, ResolvedLayout<T3::Sublayout>)>, origin: Point, env: DefaultEnvironment) -> (T0::Renderables, T1::Renderables, T2::Renderables, T3::Renderables) {
        let henv = horizontal_env(env);
        let size = layout.resolved_size;
        let x0 = 0int;
        let x1 = self.next_x(x0, layout.sublayouts.0.resolved_size, self.items.0.spec_is_empty());
        let x2 = self.next_x(x1, layout.sublayouts.1.resolved_size, self.items.1.spec_is_empty());
        let x3 = self.next_x(x2, layout.sublayouts.2.resolved_size, self.items.2.spec_is_empty());
        (self.items.0.spec_render_tree(layout.sublayouts.0, self.child_origin(origin, x0, size, layout.sublayouts.0.resolved_size), henv), self.items.1.spec_render_tree(layout.sublayouts.1, self.child_origin(origin, x1, size, layout.sublayouts.1.resolved_size), henv), self.items.2.spec_render_tree(layout.sublayouts.2, self.child_origin(origin, x2, size, layout.sublayouts.2.resolved_size), henv), self.items.3.spec_render_tree(layout.sublayouts.3, self.child_origin(origin, x3, size, layout.sublayouts.3.resolved_size), henv))
    }

    fn priority(&self) -> (r: i8) { 0 }

    fn is_empty(&self) -> (r: bool) { false }

    fn layout(&self, offer: &ProposedDimensions, env: &DefaultEnvironment) -> (r: ResolvedLayout<(ResolvedLayout<T0::Sublayout>, ResolvedLayout<T1::Sublayout>, ResolvedLayout<T2::Sublayout>, ResolvedLayout<T3::Sublayout>)>) {
        let henv = env.with_direction(LayoutDirection::Horizontal);
        let params = StackParams { direction: LayoutDirection::Horizontal, spacing: self.spacing as u32, slots: 4, clamp_cross: true };
        let (size, offers) = layout_n(&self.items, offer, &henv, params);
        assert(self.items.child_admits(0, with_main(*offer, LayoutDirection::Horizontal, offers@[0].width), henv));
        assert(with_main(*offer, LayoutDirection::Horizontal, offers@[0].width) == offers@[0]);
        let c0 = self.items.0.layout(&offers[0], &henv);
        assert(self.items.child_admits(1, with_main(*offer, LayoutDirection::Horizontal, offers@[1].width), henv));
        assert(with_main(*offer, LayoutDirection::Horizontal, offers@[1].width) == offers@[1]);
        let c1 = self.items.1.layout(&offers[1], &henv);
        assert(self.items.child_admits(2, with_main(*offer, LayoutDirection::Horizontal, offers@[2].width), henv));
        assert(with_main(*offer, LayoutDirection::Horizontal, offers@[2].width) == offers@[2]);
        let c2 = self.items.2.layout(&offers[2], &henv);
        assert(self.items.child_admits(3, with_main(*offer, LayoutDirection::Horizontal, offers@[3].width), henv));
        assert(with_main(*offer, LayoutDirection::Horizontal, offers@[3].width) == offers@[3]);
        let c3 = self.items.3.layout(&offers[3], &henv);
        ResolvedLayout { sublayouts: (c0, c1, c2, c3), resolved_size: size }
    }

    fn render_tree(&self, layout: &ResolvedLayout<(ResolvedLayout<T0::Sublayout>, ResolvedLayout<T1::Sublayout>, ResolvedLayout<T2::Sublayout>, ResolvedLayout<T3::Sublayout>)>, origin: Point, env: &DefaultEnvironment) -> (r: (T0::Renderables, T1::Renderables, T2::Renderables, T3::Renderables)) {
        let henv = env.with_direction(LayoutDirection::Horizontal);
        let height = dimension_to_i32(layout.resolved_size.height);
        let mut x: i32 = 0;
        let y0 = self.alignment.align(height, dimension_to_i32(layout.sublayouts.0.resolved_size.height));
        let r0 = self.items.0.render_tree(&layout.sublayouts.0, origin.add(Point::new(x, y0)), &henv);
        x = advance(x, layout.sublayouts.0.resolved_size, self.items.0.is_empty(), self.spacing);
        let y1 = self.alignment.align(height, dimension_to_i32(layout.sublayouts.1.resolved_size.height));
        let r1 = self.items.1.render_tree(&layout.sublayouts.1, origin.add(Point::new(x, y1)), &henv);
        x = advance(x, layout.sublayouts.1.resolved_size, self.items.1.is_empty(), self.spacing);
        let y2 = self.alignment.align(height, dimension_to_i32(layout.sublayouts.2.resolved_size.height));
        let r2 = self.items.2.render_tree(&layout.sublayouts.2, origin.add(Point::new(x, y2)), &henv);
        x = advance(x, layout.sublayouts.2.resolved_size, self.items.2.is_empty(), self.spacing);
        let y3 = self.alignment.align(height, dimension_to_i32(layout.sublayouts.3.resolved_size.height));
        let r3 = self.items.3.render_tree(&layout.sublayouts.3, origin.add(Point::new(x, y3)), &henv);
        (r0, r1, r2, r3)
    }
}

impl<T0: ViewLayout, T1: ViewLayout, T2: ViewLayout, T3: ViewLayout, T4: ViewLayout> StackChildren for (T0, T1, T2, T3, T4) {
    open spec fn child_count(&self) -> nat { 5 }
    open spec fn children_ready(&self) -> bool { true }
    open spec fn child_priority(&self, i: int) -> i8 { if i == 0 { self.0.spec_priority() } else { if i == 1 { self.1.spec_priority() } else { if i == 2 { self.2.spec_priority() } else { if i == 3 { self.3.spec_priority() } else { self.4.spec_priority() } } } } }
    open spec fn child_is_empty(&self, i: int) -> bool { if i == 0 { self.0.spec_is_empty() } else { if i == 1 { self.1.spec_is_empty() } else { if i == 2 { self.2.spec_is_empty() } else { if i == 3 { self.3.spec_is_empty() } else { self.4.spec_is_empty() } } } } }
    open spec fn child_admits(&self, i: int, offer: ProposedDimensions, env: DefaultEnvironment) -> bool { if i == 0 { self.0.admits(offer, env) } else { if i == 1 { self.1.admits(offer, env) } else { if i == 2 { self.2.admits(offer, env) } else { if i == 3 { self.3.admits(offer, env) } else { self.4.admits(offer, env) } } } } }
    open spec fn child_size(&self, i: int, offer: ProposedDimensions, env: DefaultEnvironment) -> Dimensions { if i == 0 { self.0.spec_layout(offer, env).resolved_size } else { if i == 1 { self.1.spec_layout(offer, env).resolved_size } else { if i == 2 { self.2.spec_layout(offer, env).resolved_size } else { if i == 3 { self.3.spec_layout(offer, env).resolved_size } else { self.4.spec_layout(offer, env).resolved_size } } } } }
    fn count(&self) -> (r: usize) { 5 }
    fn priority_at(&self, i: usize) -> (r: i8) { if i == 0 { self.0.priority() } else { if i == 1 { self.1.priority() } else { if i == 2 { self.2.priority() } else { if i == 3 { self.3.priority() } else { self.4.priority() } } } } }
    fn is_empty_at(&self, i: usize) -> (r: bool) { if i == 0 { self.0.is_empty() } else { if i == 1 { self.1.is_empty() } else { if i == 2 { self.2.is_empty() } else { if i == 3 { self.3.is_empty() } else { self.4.is_empty() } } } } }
    fn size_at(&self, i: usize, offer: &ProposedDimensions, env: &DefaultEnvironment) -> (r: Dimensions) { if i == 0 { self.0.layout(offer, env).resolved_size } else { if i == 1 { self.1.layout(offer, env).resolved_size } else { if i == 2 { self.2.layout(offer, env).resolved_size } else { if i == 3 { self.3.layout(offer, env).resolved_size } else { self.4.layout(offer, env).resolved_size } } } } }
}

impl<T0: ViewLayout, T1: ViewLayout, T2: ViewLayout, T3: ViewLayout, T4: ViewLayout> ViewLayout for HStack<(T0, T1, T2, T3, T4)> {
    type Sublayout = (ResolvedLayout<T0::Sublayout>, ResolvedLayout<T1::Sublayout>, ResolvedLayout<T2::Sublayout>, ResolvedLayout<T3::Sublayout>, ResolvedLayout<T4::Sublayout>);
    type Renderables = (T0::Renderables, T1::Renderables, T2::Renderables, T3::Renderables, T4::Renderables);

    open spec fn spec_priority(&self) -> i8 { 0 }
    open spec fn spec_is_empty(&self) -> bool { false }

    open spec fn admits(&self, offer: ProposedDimensions, env: DefaultEnvironment) -> bool {
        stack_admits(&self.items, offer, horizontal_env(env), LayoutDirection::Horizontal)
    }

    open spec fn spec_layout(&self, offer: ProposedDimensions, env: DefaultEnvironment) -> ResolvedLayout<(ResolvedLayout<T0::Sublayout>, ResolvedLayout<T1::Sublayout>, ResolvedLayout<T2::Sublayout>, ResolvedLayout<T3::Sublayout>, ResolvedLayout<T4::Sublayout>)> {
        let henv = horizontal_env(env);
        let offers = stack_offers(&self.items, offer, henv, self.params(5));
        ResolvedLayout {
            sublayouts: (self.items.0.spec_layout(offers[0], henv), self.items.1.spec_layout(offers[1], henv), self.items.2.spec_layout(offers[2], henv), self.items.3.spec_layout(offers[3], henv), self.items.4.spec_layout(offers[4], henv)),
            resolved_size: stack_size(&self.items, offer, henv, self.params(5)),
        }
    }

    open spec fn render_admits(&self, layout: ResolvedLayout<(ResolvedLayout<T0::Sublayout>, ResolvedLayout<T1::Sublayout>, ResolvedLayout<T2::Sublayout>, ResolvedLayout<T3::Sublayout>, ResolvedLayout<T4::Sublayout>)>, origin: Point, env: DefaultEnvironment) -> bool {
        let henv = horizontal_env(env);
        let size = layout.resolved_size;
        let x0 = 0int;
        let x1 = self.next_x(x0, layout.sublayouts.0.resolved_size, self.items.0.spec_is_empty());
        let x2 = self.next_x(x1, layout.sublayouts.1.resolved_size, self.items.1.spec_is_empty());
        let x3 = self.next_x(x2, layout.sublayouts.2.resolved_size, self.items.2.spec_is_empty());
        let x4 = self.next_x(x3, layout.sublayouts.3.resolved_size, self.items.3.spec_is_empty());
        &&& self.placeable(origin, x0, size, layout.sublayouts.0.resolved_size)
        &&& self.items.0.render_admits(layout.sublayouts.0, self.child_origin(origin, x0, size, layout.sublayouts.0.resolved_size), henv)
        &&& self.placeable(origin, x1, size, layout.sublayouts.1.resolved_size)
        &&& self.items.1.render_admits(layout.sublayouts.1, self.child_origin(origin, x1, size, layout.sublayouts.1.resolved_size), henv)
        &&& self.placeable(origin, x2, size, layout.sublayouts.2.resolved_size)
        &&& self.items.2.render_admits(layout.sublayouts.2, self.child_origin(origin, x2, size, layout.sublayouts.2.resolved_size), henv)
        &&& self.placeable(origin, x3, size, layout.sublayouts.3.resolved_size)
        &&& self.items.3.render_admits(layout.sublayouts.3, self.child_origin(origin, x3, size, layout.sublayouts.3.resolved_size), henv)
        &&& self.placeable(origin, x4, size, layout.sublayouts.4.resolved_size)
        &&& self.items.4.render_admits(layout.sublayouts.4, self.child_origin(origin, x4, size, layout.sublayouts.4.resolved_size), henv)
    }

    open spec fn spec_render_tree(&self, layout: ResolvedLayout<(ResolvedLayout<T0::Sublayout>, ResolvedLayout<T1::Sublayout>, ResolvedLayout<T2::Sublayout>, ResolvedLayout<T3::Sublayout>, ResolvedLayout<T4::Sublayout>)>, origin: Point, env: DefaultEnvironment) -> (T0::Renderables, T1::Renderables, T2::Renderables, T3::Renderables, T4::Renderables) {
        let henv = horizontal_env(env);
        let size = layout.resolved_size;
        let x0 = 0int;
        let x1 = self.next_x(x0, layout.sublayouts.0.resolved_size, self.items.0.spec_is_empty());
        let x2 = self.next_x(x1, layout.sublayouts.1.resolved_size, self.items.1.spec_is_empty());
        let x3 = self.next_x(x2, layout.sublayouts.2.resolved_size, self.items.2.spec_is_empty());
        let x4 = self.next_x(x3, layout.sublayouts.3.resolved_size, self.items.3.spec_is_empty());
        (self.items.0.spec_render_tree(layout.sublayouts.0, self.child_origin(origin, x0, size, layout.sublayouts.0.resolved_size), henv), self.items.1.spec_render_tree(layout.sublayouts.1, self.child_origin(origin, x1, size, layout.sublayouts.1.resolved_size), henv), self.items.2.spec_render_tree(layout.sublayouts.2, self.child_origin(origin, x2, size, layout.sublayouts.2.resolved_size), henv), self.items.3.spec_render_tree(layout.sublayouts.3, self.child_origin(origin, x3, size, layout.sublayouts.3.resolved_size), henv), self.items.4.spec_render_tree(layout.sublayouts.4, self.child_origin(origin, x4, size, layout.sublayouts.4.resolved_size), henv))
    }

    fn priority(&self) -> (r: i8) { 0 }

    fn is_empty(&self) -> (r: bool) { false }

    fn layout(&self, offer: &ProposedDimensions, env: &DefaultEnvironment) -> (r: ResolvedLayout<(ResolvedLayout<T0::Sublayout>, ResolvedLayout<T1::Sublayout>, ResolvedLayout<T2::Sublayout>, ResolvedLayout<T3::Sublayout>, ResolvedLayout<T4::Sublayout>)>) {
        let henv = env.with_direction(LayoutDirection::Horizontal);
        let params = StackParams { direction: LayoutDirection::Horizontal, spacing: self.spacing as u32, slots: 5, clamp_cross: true };
        let (size, offers) = layout_n(&self.items, offer, &henv, params);
        assert(self.items.child_admits(0, with_main(*offer, LayoutDirection::Horizontal, offers@[0].width), henv));
        assert(with_main(*offer, LayoutDirection::Horizontal, offers@[0].width) == offers@[0]);
        let c0 = self.items.0.layout(&offers[0], &henv);
        assert(self.items.child_admits(1, with_main(*offer, LayoutDirection::Horizontal, offers@[1].width), henv));
        assert(with_main(*offer, LayoutDirection::Horizontal, offers@[1].width) == offers@[1]);
        let c1 = self.items.1.layout(&offers[1], &henv);
        assert(self.items.child_admits(2, with_main(*offer, LayoutDirection::Horizontal, offers@[2].width), henv));
        assert(with_main(*offer, LayoutDirection::Horizontal, offers@[2].width) == offers@[2]);
        let c2 = self.items.2.layout(&offers[2], &henv);
        assert(self.items.child_admits(3, with_main(*offer, LayoutDirection::Horizontal, offers@[3].width), henv));
        assert(with_main(*offer, LayoutDirection::Horizontal, offers@[3].width) == offers@[3]);
        let c3 = self.items.3.layout(&offers[3], &henv);
        assert(self.items.child_admits(4, with_main(*offer, LayoutDirection::Horizontal, offers@[4].width), henv));
        assert(with_main(*offer, LayoutDirection::Horizontal, offers@[4].width) == offers@[4]);
        let c4 = self.items.4.layout(&offers[4], &henv);
        ResolvedLayout { sublayouts: (c0, c1, c2, c3, c4), resolved_size: size }
    }

    fn render_tree(&self, layout: &ResolvedLayout<(ResolvedLayout<T0::Sublayout>, ResolvedLayout<T1::Sublayout>, ResolvedLayout<T2::Sublayout>, ResolvedLayout<T3::Sublayout>, ResolvedLayout<T4::Sublayout>)>, origin: Point, env: &DefaultEnvironment) -> (r: (T0::Renderables, T1::Renderables, T2::Renderables, T3::Renderables, T4::Renderables)) {
        let henv = env.with_direction(LayoutDirection::Horizontal);
        let height = dimension_to_i32(layout.resolved_size.height);
        let mut x: i32 = 0;
        let y0 = self.alignment.align(height, dimension_to_i32(layout.sublayouts.0.resolved_size.height));
        let r0 = self.items.0.render_tree(&layout.sublayouts.0, origin.add(Point::new(x, y0)), &henv);
        x = advance(x, layout.sublayouts.0.resolved_size, self.items.0.is_empty(), self.spacing);
        let y1 = self.alignment.align(height, dimension_to_i32(layout.sublayouts.1.resolved_size.height));
        let r1 = self.items.1.render_tree(&layout.sublayouts.1, origin.add(Point::new(x, y1)), &henv);
        x = advance(x, layout.sublayouts.1.resolved_size, self.items.1.is_empty(), self.spacing);
        let y2 = self.alignment.align(height, dimension_to_i32(layout.sublayouts.2.resolved_size.height));
        let r2 = self.items.2.render_tree(&layout.sublayouts.2, origin.add(Point::new(x, y2)), &henv);
        x = advance(x, layout.sublayouts.2.resolved_size, self.items.2.is_empty(), self.spacing);
        let y3 = self.alignment.align(height, dimension_to_i32(layout.sublayouts.3.resolved_size.height));
        let r3 = self.items.3.render_tree(&layout.sublayouts.3, origin.add(Point::new(x, y3)), &henv);
        x = advance(x, layout.sublayouts.3.resolved_size, self.items.3.is_empty(), self.spacing);
        let y4 = self.alignment.align(height, dimension_to_i32(layout.sublayouts.4.resolved_size.height));
        let r4 = self.items.4.render_tree(&layout.sublayouts.4, origin.add(Point::new(x, y4)), &henv);
        (r0, r1, r2, r3, r4)
    }
}

impl<T0: ViewLayout, T1: ViewLayout, T2: ViewLayout, T3: ViewLayout, T4: ViewLayout, T5: ViewLayout> StackChildren for (T0, T1, T2, T3, T4, T5) {
    open spec fn child_count(&self) -> nat { 6 }
    open spec fn children_ready(&self) -> bool { true }
    open spec fn child_priority(&self, i: int) -> i8 { if i == 0 { self.0.spec_priority() } else { if i == 1 { self.1.spec_priority() } else { if i == 2 { self.2.spec_priority() } else { if i == 3 { self.3.spec_priority() } else { if i == 4 { self.4.spec_priority() } else { self.5.spec_priority() } } } } } }
    open spec fn child_is_empty(&self, i: int) -> bool { if i == 0 { self.0.spec_is_empty() } else { if i == 1 { self.1.spec_is_empty() } else { if i == 2 { self.2.spec_is_empty() } else { if i == 3 { self.3.spec_is_empty() } else { if i == 4 { self.4.spec_is_empty() } else { self.5.spec_is_empty() } } } } } }
    open spec fn child_admits(&self, i: int, offer: ProposedDimensions, env: DefaultEnvironment) -> bool { if i == 0 { self.0.admits(offer, env) } else { if i == 1 { self.1.admits(offer, env) } else { if i == 2 { self.2.admits(offer, env) } else { if i == 3 { self.3.admits(offer, env) } else { if i == 4 { self.4.admits(offer, env) } else { self.5.admits(offer, env) } } } } } }
    open spec fn child_size(&self, i: int, offer: ProposedDimensions, env: DefaultEnvironment) -> Dimensions { if i == 0 { self.0.spec_layout(offer, env).resolved_size } else { if i == 1 { self.1.spec_layout(offer, env).resolved_size } else { if i == 2 { self.2.spec_layout(offer, env).resolved_size } else { if i == 3 { self.3.spec_layout(offer, env).resolved_size } else { if i == 4 { self.4.spec_layout(offer, env).resolved_size } else { self.5.spec_layout(offer, env).resolved_size } } } } } }
    fn count(&self) -> (r: usize) { 6 }
    fn priority_at(&self, i: usize) -> (r: i8) { if i == 0 { self.0.priority() } else { if i == 1 { self.1.priority() } else { if i == 2 { self.2.priority() } else { if i == 3 { self.3.priority() } else { if i == 4 { self.4.priority() } else { self.5.priority() } } } } } }
    fn is_empty_at(&self, i: usize) -> (r: bool) { if i == 0 { self.0.is_empty() } else { if i == 1 { self.1.is_empty() } else { if i == 2 { self.2.is_empty() } else { if i == 3 { self.3.is_empty() } else { if i == 4 { self.4.is_empty() } else { self.5.is_empty() } } } } } }
    fn size_at(&self, i: usize, offer: &ProposedDimensions, env: &DefaultEnvironment) -> (r: Dimensions) { if i == 0 { self.0.layout(offer, env).resolved_size } else { if i == 1 { self.1.layout(offer, env).resolved_size } else { if i == 2 { self.2.layout(offer, env).resolved_size } else { if i == 3 { self.3.layout(offer, env).resolved_size } else { if i == 4 { self.4.layout(offer, env).resolved_size } else { self.5.layout(offer, env).resolved_size } } } } } }
}

impl<T0: ViewLayout, T1: ViewLayout, T2: ViewLayout, T3: ViewLayout, T4: ViewLayout, T5: ViewLayout> ViewLayout for HStack<(T0, T1, T2, T3, T4, T5)> {
    type Sublayout = (ResolvedLayout<T0::Sublayout>, ResolvedLayout<T1::Sublayout>, ResolvedLayout<T2::Sublayout>, ResolvedLayout<T3::Sublayout>, ResolvedLayout<T4::Sublayout>, ResolvedLayout<T5::Sublayout>);
    type Renderables = (T0::Renderables, T1::Renderables, T2::Renderables, T3::Renderables, T4::Renderables, T5::Renderables);

    open spec fn spec_priority(&self) -> i8 { 0 }
    open spec fn spec_is_empty(&self) -> bool { false }

    open spec fn admits(&self, offer: ProposedDimensions, env: DefaultEnvironment) -> bool {
        stack_admits(&self.items, offer, horizontal_env(env), LayoutDirection::Horizontal)
    }

    open spec fn spec_layout(&self, offer: ProposedDimensions, env: DefaultEnvironment) -> ResolvedLayout<(ResolvedLayout<T0::Sublayout>, ResolvedLayout<T1::Sublayout>, ResolvedLayout<T2::Sublayout>, ResolvedLayout<T3::Sublayout>, ResolvedLayout<T4::Sublayout>, ResolvedLayout<T5::Sublayout>)> {
        let henv = horizontal_env(env);
        let offers = stack_offers(&self.items, offer, henv, self.params(6));
        ResolvedLayout {
            sublayouts: (self.items.0.spec_layout(offers[0], henv), self.items.1.spec_layout(offers[1], henv), self.items.2.spec_layout(offers[2], henv), self.items.3.spec_layout(offers[3], henv), self.items.4.spec_layout(offers[4], henv), self.items.5.spec_layout(offers[5], henv)),
            resolved_size: stack_size(&self.items, offer, henv, self.params(6)),
        }
    }

    open spec fn render_admits(&self, layout: ResolvedLayout<(ResolvedLayout<T0::Sublayout>, ResolvedLayout<T1::Sublayout>, ResolvedLayout<T2::Sublayout>, ResolvedLayout<T3::Sublayout>, ResolvedLayout<T4::Sublayout>, ResolvedLayout<T5::Sublayout>)>, origin: Point, env: DefaultEnvironment) -> bool {
        let henv = horizontal_env(env);
        let size = layout.resolved_size;
        let x0 = 0int;
        let x1 = self.next_x(x0, layout.sublayouts.0.resolved_size, self.items.0.spec_is_empty());
        let x2 = self.next_x(x1, layout.sublayouts.1.resolved_size, self.items.1.spec_is_empty());
        let x3 = self.next_x(x2, layout.sublayouts.2.resolved_size, self.items.2.spec_is_empty());
        let x4 = self.next_x(x3, layout.sublayouts.3.resolved_size, self.items.3.spec_is_empty());
        let x5 = self.next_x(x4, layout.sublayouts.4.resolved_size, self.items.4.spec_is_empty());
        &&& self.placeable(origin, x0, size, layout.sublayouts.0.resolved_size)
        &&& self.items.0.render_admits(layout.sublayouts.0, self.child_origin(origin, x0, size, layout.sublayouts.0.resolved_size), henv)
        &&& self.placeable(origin, x1, size, layout.sublayouts.1.resolved_size)
        &&& self.items.1.render_admits(layout.sublayouts.1, self.child_origin(origin, x1, size, layout.sublayouts.1.resolved_size), henv)
        &&& self.placeable(origin, x2, size, layout.sublayouts.2.resolved_size)
        &&& self.items.2.render_admits(layout.sublayouts.2, self.child_origin(origin, x2, size, layout.sublayouts.2.resolved_size), henv)
        &&& self.placeable(origin, x3, size, layout.sublayouts.3.resolved_size)
        &&& self.items.3.render_admits(layout.sublayouts.3, self.child_origin(origin, x3, size, layout.sublayouts.3.resolved_size), henv)
        &&& self.placeable(origin, x4, size, layout.sublayouts.4.resolved_size)
        &&& self.items.4.render_admits(layout.sublayouts.4, self.child_origin(origin, x4, size, layout.sublayouts.4.resolved_size), henv)
        &&& self.placeable(origin, x5, size, layout.sublayouts.5.resolved_size)
        &&& self.items.5.render_admits(layout.sublayouts.5, self.child_origin(origin, x5, size, layout.sublayouts.5.resolved_size), henv)
    }

    open spec fn spec_render_tree(&self, layout: ResolvedLayout<(ResolvedLayout<T0::Sublayout>, ResolvedLayout<T1::Sublayout>, ResolvedLayout<T2::Sublayout>, ResolvedLayout<T3::Sublayout>, ResolvedLayout<T4::Sublayout>, ResolvedLayout<T5::Sublayout>)>, origin: Point, env: DefaultEnvironment) -> (T0::Renderables, T1::Renderables, T2::Renderables, T3::Renderables, T4::Renderables, T5::Renderables) {
        let henv = horizontal_env(env);
        let size = layout.resolved_size;
        let x0 = 0int;
        let x1 = self.next_x(x0, layout.sublayouts.0.resolved_size, self.items.0.spec_is_empty());
        let x2 = self.next_x(x1, layout.sublayouts.1.resolved_size, self.items.1.spec_is_empty());
        let x3 = self.next_x(x2, layout.sublayouts.2.resolved_size, self.items.2.spec_is_empty());
        let x4 = self.next_x(x3, layout.sublayouts.3.resolved_size, self.items.3.spec_is_empty());
        let x5 = self.next_x(x4, layout.sublayouts.4.resolved_size, self.items.4.spec_is_empty());
        (self.items.0.spec_render_tree(layout.sublayouts.0, self.child_origin(origin, x0, size, layout.sublayouts.0.resolved_size), henv), self.items.1.spec_render_tree(layout.sublayouts.1, self.child_origin(origin, x1, size, layout.sublayouts.1.resolved_size), henv), self.items.2.spec_render_tree(layout.sublayouts.2, self.child_origin(origin, x2, size, layout.sublayouts.2.resolved_size), henv), self.items.3.spec_render_tree(layout.sublayouts.3, self.child_origin(origin, x3, size, layout.sublayouts.3.resolved_size), henv), self.items.4.spec_render_tree(layout.sublayouts.4, self.child_origin(origin, x4, size, layout.sublayouts.4.resolved_size), henv), self.items.5.spec_render_tree(layout.sublayouts.5, self.child_origin(origin, x5, size, layout.sublayouts.5.resolved_size), henv))
    }

    fn priority(&self) -> (r: i8) { 0 }

    fn is_empty(&self) -> (r: bool) { false }

    fn layout(&self, offer: &ProposedDimensions, env: &DefaultEnvironment) -> (r: ResolvedLayout<(ResolvedLayout<T0::Sublayout>, ResolvedLayout<T1::Sublayout>, ResolvedLayout<T2::Sublayout>, ResolvedLayout<T3::Sublayout>, ResolvedLayout<T4::Sublayout>, ResolvedLayout<T5::Sublayout>)>) {
        let henv = env.with_direction(LayoutDirection::Horizontal);
        let params = StackParams { direction: LayoutDirection::Horizontal, spacing: self.spacing as u32, slots: 6, clamp_cross: true };
        let (size, offers) = layout_n(&self.items, offer, &henv, params);
        assert(self.items.child_admits(0, with_main(*offer, LayoutDirection::Horizontal, offers@[0].width), henv));
        assert(with_main(*offer, LayoutDirection::Horizontal, offers@[0].width) == offers@[0]);
        let c0 = self.items.0.layout(&offers[0], &henv);
        assert(self.items.child_admits(1, with_main(*offer, LayoutDirection::Horizontal, offers@[1].width), henv));
        assert(with_main(*offer, LayoutDirection::Horizontal, offers@[1].width) == offers@[1]);
        let c1 = self.items.1.layout(&offers[1], &henv);
        assert(self.items.child_admits(2, with_main(*offer, LayoutDirection::Horizontal, offers@[2].width), henv));
        assert(with_main(*offer, LayoutDirection::Horizontal, offers@[2].width) == offers@[2]);
        let c2 = self.items.2.layout(&offers[2], &henv);
        assert(self.items.child_admits(3, with_main(*offer, LayoutDirection::Horizontal, offers@[3].width), henv));
        assert(with_main(*offer, LayoutDirection::Horizontal, offers@[3].width) == offers@[3]);
        let c3 = self.items.3.layout(&offers[3], &henv);
        assert(self.items.child_admits(4, with_main(*offer, LayoutDirection::Horizontal, offers@[4].width), henv));
        assert(with_main(*offer, LayoutDirection::Horizontal, offers@[4].width) == offers@[4]);
        let c4 = self.items.4.layout(&offers[4], &henv);
        assert(self.items.child_admits(5, with_main(*offer, LayoutDirection::Horizontal, offers@[5].width), henv));
        assert(with_main(*offer, LayoutDirection::Horizontal, offers@[5].width) == offers@[5]);
        let c5 = self.items.5.layout(&offers[5], &henv);
        ResolvedLayout { sublayouts: (c0, c1, c2, c3, c4, c5), resolved_size: size }
    }

    fn render_tree(&self, layout: &ResolvedLayout<(ResolvedLayout<T0::Sublayout>, ResolvedLayout<T1::Sublayout>, ResolvedLayout<T2::Sublayout>, ResolvedLayout<T3::Sublayout>, ResolvedLayout<T4::Sublayout>, ResolvedLayout<T5::Sublayout>)>, origin: Point, env: &DefaultEnvironment) -> (r: (T0::Renderables, T1::Renderables, T2::Renderables, T3::Renderables, T4::Renderables, T5::Renderables)) {
        let henv = env.with_direction(LayoutDirection::Horizontal);
        let height = dimension_to_i32(layout.resolved_size.height);
        let mut x: i32 = 0;
        let y0 = self.alignment.align(height, dimension_to_i32(layout.sublayouts.0.resolved_size.height));
        let r0 = self.items.0.render_tree(&layout.sublayouts.0, origin.add(Point::new(x, y0)), &henv);
        x = advance(x, layout.sublayouts.0.resolved_size, self.items.0.is_empty(), self.spacing);
        let y1 = self.alignment.align(height, dimension_to_i32(layout.sublayouts.1.resolved_size.height));
        let r1 = self.items.1.render_tree(&layout.sublayouts.1, origin.add(Point::new(x, y1)), &henv);
        x = advance(x, layout.sublayouts.1.resolved_size, self.items.1.is_empty(), self.spacing);
        let y2 = self.alignment.align(height, dimension_to_i32(layout.sublayouts.2.resolved_size.height));
        let r2 = self.items.2.render_tree(&layout.sublayouts.2, origin.add(Point::new(x, y2)), &henv);
        x = advance(x, layout.sublayouts.2.resolved_size, self.items.2.is_empty(), self.spacing);
        let y3 = self.alignment.align(height, dimension_to_i32(layout.sublayouts.3.resolved_size.height));
        let r3 = self.items.3.render_tree(&layout.sublayouts.3, origin.add(Point::new(x, y3)), &henv);
        x = advance(x, layout.sublayouts.3.resolved_size, self.items.3.is_empty(), self.spacing);
        let y4 = self.alignment.align(height, dimension_to_i32(layout.sublayouts.4.resolved_size.height));
        let r4 = self.items.4.render_tree(&layout.sublayouts.4, origin.add(Point::new(x, y4)), &henv);
        x = advance(x, layout.sublayouts.4.resolved_size, self.items.4.is_empty(), self.spacing);
        let y5 = self.alignment.align(height, dimension_to_i32(layout.sublayouts.5.resolved_size.height));
        let r5 = self.items.5.render_tree(&layout.sublayouts.5, origin.add(Point::new(x, y5)), &henv);
        (r0, r1, r2, r3, r4, r5)
    }
}

impl<T0: ViewLayout, T1: ViewLayout, T2: ViewLayout, T3: ViewLayout, T4: ViewLayout, T5: ViewLayout, T6: ViewLayout> StackChildren for (T0, T1, T2, T3, T4, T5, T6) {
    open spec fn child_count(&self) -> nat { 7 }
    open spec fn children_ready(&self) -> bool { true }
    open spec fn child_priority(&self, i: int) -> i8 { if i == 0 { self.0.spec_priority() } else { if i == 1 { self.1.spec_priority() } else { if i == 2 { self.2.spec_priority() } else { if i == 3 { self.3.spec_priority() } else { if i == 4 { self.4.spec_priority() } else { if i == 5 { self.5.spec_priority() } else { self.6.spec_priority() } } } } } } }
    open spec fn child_is_empty(&self, i: int) -> bool { if i == 0 { self.0.spec_is_empty() } else { if i == 1 { self.1.spec_is_empty() } else { if i == 2 { self.2.spec_is_empty() } else { if i == 3 { self.3.spec_is_empty() } else { if i == 4 { self.4.spec_is_empty() } else { if i == 5 { self.5.spec_is_empty() } else { self.6.spec_is_empty() } } } } } } }
    open spec fn child_admits(&self, i: int, offer: ProposedDimensions, env: DefaultEnvironment) -> bool { if i == 0 { self.0.admits(offer, env) } else { if i == 1 { self.1.admits(offer, env) } else { if i == 2 { self.2.admits(offer, env) } else { if i == 3 { self.3.admits(offer, env) } else { if i == 4 { self.4.admits(offer, env) } else { if i == 5 { self.5.admits(offer, env) } else { self.6.admits(offer, env) } } } } } } }
    open spec fn child_size(&self, i: int, offer: ProposedDimensions, env: DefaultEnvironment) -> Dimensions { if i == 0 { self.0.spec_layout(offer, env).resolved_size } else { if i == 1 { self.1.spec_layout(offer, env).resolved_size } else { if i == 2 { self.2.spec_layout(offer, env).resolved_size } else { if i == 3 { self.3.spec_layout(offer, env).resolved_size } else { if i == 4 { self.4.spec_layout(offer, env).resolved_size } else { if i == 5 { self.5.spec_layout(offer, env).resolved_size } else { self.6.spec_layout(offer, env).resolved_size } } } } } } }
    fn count(&self) -> (r: usize) { 7 }
    fn priority_at(&self, i: usize) -> (r: i8) { if i == 0 { self.0.priority() } else { if i == 1 { self.1.priority() } else { if i == 2 { self.2.priority() } else { if i == 3 { self.3.priority() } else { if i == 4 { self.4.priority() } else { if i == 5 { self.5.priority() } else { self.6.priority() } } } } } } }
    fn is_empty_at(&self, i: usize) -> (r: bool) { if i == 0 { self.0.is_empty() } else { if i == 1 { self.1.is_empty() } else { if i == 2 { self.2.is_empty() } else { if i == 3 { self.3.is_empty() } else { if i == 4 { self.4.is_empty() } else { if i == 5 { self.5.is_empty() } else { self.6.is_empty() } } } } } } }
    fn size_at(&self, i: usize, offer: &ProposedDimensions, env: &DefaultEnvironment) -> (r: Dimensions) { if i == 0 { self.0.layout(offer, env).resolved_size } else { if i == 1 { self.1.layout(offer, env).resolved_size } else { if i == 2 { self.2.layout(offer, env).resolved_size } else { if i == 3 { self.3.layout(offer, env).resolved_size } else { if i == 4 { self.4.layout(offer, env).resolved_size } else { if i == 5 { self.5.layout(offer, env).resolved_size } else { self.6.layout(offer, env).resolved_size } } } } } } }
}

impl<T0: ViewLayout, T1: ViewLayout, T2: ViewLayout, T3: ViewLayout, T4: ViewLayout, T5: ViewLayout, T6: ViewLayout> ViewLayout for HStack<(T0, T1, T2, T3, T4, T5, T6)> {
    type Sublayout = (ResolvedLayout<T0::Sublayout>, ResolvedLayout<T1::Sublayout>, ResolvedLayout<T2::Sublayout>, ResolvedLayout<T3::Sublayout>, ResolvedLayout<T4::Sublayout>, ResolvedLayout<T5::Sublayout>, ResolvedLayout<T6::Sublayout>);
    type Renderables = (T0::Renderables, T1::Renderables, T2::Renderables, T3::Renderables, T4::Renderables, T5::Renderables, T6::Renderables);

    open spec fn spec_priority(&self) -> i8 { 0 }
    open spec fn spec_is_empty(&self) -> bool { false }

    open spec fn admits(&self, offer: ProposedDimensions, env: DefaultEnvironment) -> bool {
        stack_admits(&self.items, offer, horizontal_env(env), LayoutDirection::Horizontal)
    }

    open spec fn spec_layout(&self, offer: ProposedDimensions, env: DefaultEnvironment) -> ResolvedLayout<(ResolvedLayout<T0::Sublayout>, ResolvedLayout<T1::Sublayout>, ResolvedLayout<T2::Sublayout>, ResolvedLayout<T3::Sublayout>, ResolvedLayout<T4::Sublayout>, ResolvedLayout<T5::Sublayout>, ResolvedLayout<T6::Sublayout>)> {
        let henv = horizontal_env(env);
        let offers = stack_offers(&self.items, offer, henv, self.params(7));
        ResolvedLayout {
            sublayouts: (self.items.0.spec_layout(offers[0], henv), self.items.1.spec_layout(offers[1], henv), self.items.2.spec_layout(offers[2], henv), self.items.3.spec_layout(offers[3], henv), self.items.4.spec_layout(offers[4], henv), self.items.5.spec_layout(offers[5], henv), self.items.6.spec_layout(offers[6], henv)),
            resolved_size: stack_size(&self.items, offer, henv, self.params(7)),
        }
    }

    open spec fn render_admits(&self, layout: ResolvedLayout<(ResolvedLayout<T0::Sublayout>, ResolvedLayout<T1::Sublayout>, ResolvedLayout<T2::Sublayout>, ResolvedLayout<T3::Sublayout>, ResolvedLayout<T4::Sublayout>, ResolvedLayout<T5::Sublayout>, ResolvedLayout<T6::Sublayout>)>, origin: Point, env: DefaultEnvironment) -> bool {
        let henv = horizontal_env(env);
        let size = layout.resolved_size;
        let x0 = 0int;
        let x1 = self.next_x(x0, layout.sublayouts.0.resolved_size, self.items.0.spec_is_empty());
        let x2 = self.next_x(x1, layout.sublayouts.1.resolved_size, self.items.1.spec_is_empty());
        let x3 = self.next_x(x2, layout.sublayouts.2.resolved_size, self.items.2.spec_is_empty());
        let x4 = self.next_x(x3, layout.sublayouts.3.resolved_size, self.items.3.spec_is_empty());
        let x5 = self.next_x(x4, layout.sublayouts.4.resolved_size, self.items.4.spec_is_empty());
        let x6 = self.next_x(x5, layout.sublayouts.5.resolved_size, self.items.5.spec_is_empty());
        &&& self.placeable(origin, x0, size, layout.sublayouts.0.resolved_size)
        &&& self.items.0.render_admits(layout.sublayouts.0, self.child_origin(origin, x0, size, layout.sublayouts.0.resolved_size), henv)
        &&& self.placeable(origin, x1, size, layout.sublayouts.1.resolved_size)
        &&& self.items.1.render_admits(layout.sublayouts.1, self.child_origin(origin, x1, size, layout.sublayouts.1.resolved_size), henv)
        &&& self.placeable(origin, x2, size, layout.sublayouts.2.resolved_size)
        &&& self.items.2.render_admits(layout.sublayouts.2, self.child_origin(origin, x2, size, layout.sublayouts.2.resolved_size), henv)
        &&& self.placeable(origin, x3, size, layout.sublayouts.3.resolved_size)
        &&& self.items.3.render_admits(layout.sublayouts.3, self.child_origin(origin, x3, size, layout.sublayouts.3.resolved_size), henv)
        &&& self.placeable(origin, x4, size, layout.sublayouts.4.resolved_size)
        &&& self.items.4.render_admits(layout.sublayouts.4, self.child_origin(origin, x4, size, layout.sublayouts.4.resolved_size), henv)
        &&& self.placeable(origin, x5, size, layout.sublayouts.5.resolved_size)
        &&& self.items.5.render_admits(layout.sublayouts.5, self.child_origin(origin, x5, size, layout.sublayouts.5.resolved_size), henv)
        &&& self.placeable(origin, x6, size, layout.sublayouts.6.resolved_size)
        &&& self.items.6.render_admits(layout.sublayouts.6, self.child_origin(origin, x6, size, layout.sublayouts.6.resolved_size), henv)
    }

    open spec fn spec_render_tree(&self, layout: ResolvedLayout<(ResolvedLayout<T0::Sublayout>, ResolvedLayout<T1::Sublayout>, ResolvedLayout<T2::Sublayout>, ResolvedLayout<T3::Sublayout>, ResolvedLayout<T4::Sublayout>, ResolvedLayout<T5::Sublayout>, ResolvedLayout<T6::Sublayout>)>, origin: Point, env: DefaultEnvironment) -> (T0::Renderables, T1::Renderables, T2::Renderables, T3::Renderables, T4::Renderables, T5::Renderables, T6::Renderables) {
        let henv = horizontal_env(env);
        let size = layout.resolved_size;
        let x0 = 0int;
        let x1 = self.next_x(x0, layout.sublayouts.0.resolved_size, self.items.0.spec_is_empty());
        let x2 = self.next_x(x1, layout.sublayouts.1.resolved_size, self.items.1.spec_is_empty());
        let x3 = self.next_x(x2, layout.sublayouts.2.resolved_size, self.items.2.spec_is_empty());
        let x4 = self.next_x(x3, layout.sublayouts.3.resolved_size, self.items.3.spec_is_empty());
        let x5 = self.next_x(x4, layout.sublayouts.4.resolved_size, self.items.4.spec_is_empty());
        let x6 = self.next_x(x5, layout.sublayouts.5.resolved_size, self.items.5.spec_is_empty());
        (self.items.0.spec_render_tree(layout.sublayouts.0, self.child_origin(origin, x0, size, layout.sublayouts.0.resolved_size), henv), self.items.1.spec_render_tree(layout.sublayouts.1, self.child_origin(origin, x1, size, layout.sublayouts.1.resolved_size), henv), self.items.2.spec_render_tree(layout.sublayouts.2, self.child_origin(origin, x2, size, layout.sublayouts.2.resolved_size), henv), self.items.3.spec_render_tree(layout.sublayouts.3, self.child_origin(origin, x3, size, layout.sublayouts.3.resolved_size), henv), self.items.4.spec_render_tree(layout.sublayouts.4, self.child_origin(origin, x4, size, layout.sublayouts.4.resolved_size), henv), self.items.5.spec_render_tree(layout.sublayouts.5, self.child_origin(origin, x5, size, layout.sublayouts.5.resolved_size), henv), self.items.6.spec_render_tree(layout.sublayouts.6, self.child_origin(origin, x6, size, layout.sublayouts.6.resolved_size), henv))
    }

    fn priority(&self) -> (r: i8) { 0 }

    fn is_empty(&self) -> (r: bool) { false }

    fn layout(&self, offer: &ProposedDimensions, env: &DefaultEnvironment) -> (r: ResolvedLayout<(ResolvedLayout<T0::Sublayout>, ResolvedLayout<T1::Sublayout>, ResolvedLayout<T2::Sublayout>, ResolvedLayout<T3::Sublayout>, ResolvedLayout<T4::Sublayout>, ResolvedLayout<T5::Sublayout>, ResolvedLayout<T6::Sublayout>)>) {
        let henv = env.with_direction(LayoutDirection::Horizontal);
        let params = StackParams { direction: LayoutDirection::Horizontal, spacing: self.spacing as u32, slots: 7, clamp_cross: true };
        let (size, offers) = layout_n(&self.items, offer, &henv, params);
        assert(self.items.child_admits(0, with_main(*offer, LayoutDirection::Horizontal, offers@[0].width), henv));
        assert(with_main(*offer, LayoutDirection::Horizontal, offers@[0].width) == offers@[0]);
        let c0 = self.items.0.layout(&offers[0], &henv);
        assert(self.items.child_admits(1, with_main(*offer, LayoutDirection::Horizontal, offers@[1].width), henv));
        assert(with_main(*offer, LayoutDirection::Horizontal, offers@[1].width) == offers@[1]);
        let c1 = self.items.1.layout(&offers[1], &henv);
        assert(self.items.child_admits(2, with_main(*offer, LayoutDirection::Horizontal, offers@[2].width), henv));
        assert(with_main(*offer, LayoutDirection::Horizontal, offers@[2].width) == offers@[2]);
        let c2 = self.items.2.layout(&offers[2], &henv);
        assert(self.items.child_admits(3, with_main(*offer, LayoutDirection::Horizontal, offers@[3].width), henv));
        assert(with_main(*offer, LayoutDirection::Horizontal, offers@[3].width) == offers@[3]);
        let c3 = self.items.3.layout(&offers[3], &henv);
        assert(self.items.child_admits(4, with_main(*offer, LayoutDirection::Horizontal, offers@[4].width), henv));
        assert(with_main(*offer, LayoutDirection::Horizontal, offers@[4].width) == offers@[4]);
        let c4 = self.items.4.layout(&offers[4], &henv);
        assert(self.items.child_admits(5, with_main(*offer, LayoutDirection::Horizontal, offers@[5].width), henv));
        assert(with_main(*offer, LayoutDirection::Horizontal, offers@[5].width) == offers@[5]);
        let c5 = self.items.5.layout(&offers[5], &henv);
        assert(self.items.child_admits(6, with_main(*offer, LayoutDirection::Horizontal, offers@[6].width), henv));
        assert(with_main(*offer, LayoutDirection::Horizontal, offers@[6].width) == offers@[6]);
        let c6 = self.items.6.layout(&offers[6], &henv);
        ResolvedLayout { sublayouts: (c0, c1, c2, c3, c4, c5, c6), resolved_size: size }
    }

    fn render_tree(&self, layout: &ResolvedLayout<(ResolvedLayout<T0::Sublayout>, ResolvedLayout<T1::Sublayout>, ResolvedLayout<T2::Sublayout>, ResolvedLayout<T3::Sublayout>, ResolvedLayout<T4::Sublayout>, ResolvedLayout<T5::Sublayout>, ResolvedLayout<T6::Sublayout>)>, origin: Point, env: &DefaultEnvironment) -> (r: (T0::Renderables, T1::Renderables, T2::Renderables, T3::Renderables, T4::Renderables, T5::Renderables, T6::Renderables)) {
        let henv = env.with_direction(LayoutDirection::Horizontal);
        let height = dimension_to_i32(layout.resolved_size.height);
        let mut x: i32 = 0;
        let y0 = self.alignment.align(height, dimension_to_i32(layout.sublayouts.0.resolved_size.height));
        let r0 = self.items.0.render_tree(&layout.sublayouts.0, origin.add(Point::new(x, y0)), &henv);
        x = advance(x, layout.sublayouts.0.resolved_size, self.items.0.is_empty(), self.spacing);
        let y1 = self.alignment.align(height, dimension_to_i32(layout.sublayouts.1.resolved_size.height));
        let r1 = self.items.1.render_tree(&layout.sublayouts.1, origin.add(Point::new(x, y1)), &henv);
        x = advance(x, layout.sublayouts.1.resolved_size, self.items.1.is_empty(), self.spacing);
        let y2 = self.alignment.align(height, dimension_to_i32(layout.sublayouts.2.resolved_size.height));
        let r2 = self.items.2.render_tree(&layout.sublayouts.2, origin.add(Point::new(x, y2)), &henv);
        x = advance(x, layout.sublayouts.2.resolved_size, self.items.2.is_empty(), self.spacing);
        let y3 = self.alignment.align(height, dimension_to_i32(layout.sublayouts.3.resolved_size.height));
        let r3 = self.items.3.render_tree(&layout.sublayouts.3, origin.add(Point::new(x, y3)), &henv);
        x = advance(x, layout.sublayouts.3.resolved_size, self.items.3.is_empty(), self.spacing);
        let y4 = self.alignment.align(height, dimension_to_i32(layout.sublayouts.4.resolved_size.height));
        let r4 = self.items.4.render_tree(&layout.sublayouts.4, origin.add(Point::new(x, y4)), &henv);
        x = advance(x, layout.sublayouts.4.resolved_size, self.items.4.is_empty(), self.spacing);
        let y5 = self.alignment.align(height, dimension_to_i32(layout.sublayouts.5.resolved_size.height));
        let r5 = self.items.5.render_tree(&layout.sublayouts.5, origin.add(Point::new(x, y5)), &henv);
        x = advance(x, layout.sublayouts.5.resolved_size, self.items.5.is_empty(), self.spacing);
        let y6 = self.alignment.align(height, dimension_to_i32(layout.sublayouts.6.resolved_size.height));
        let r6 = self.items.6.render_tree(&layout.sublayouts.6, origin.add(Point::new(x, y6)), &henv);
        (r0, r1, r2, r3, r4, r5, r6)
    }
}

impl<T0: ViewLayout, T1: ViewLayout, T2: ViewLayout, T3: ViewLayout, T4: ViewLayout, T5: ViewLayout, T6: ViewLayout, T7: ViewLayout> StackChildren for (T0, T1, T2, T3, T4, T5, T6, T7) {
    open spec fn child_count(&self) -> nat { 8 }
    open spec fn children_ready(&self) -> bool { true }
    open spec fn child_priority(&self, i: int) -> i8 { if i == 0 { self.0.spec_priority() } else { if i == 1 { self.1.spec_priority() } else { if i == 2 { self.2.spec_priority() } else { if i == 3 { self.3.spec_priority() } else { if i == 4 { self.4.spec_priority() } else { if i == 5 { self.5.spec_priority() } else { if i == 6 { self.6.spec_priority() } else { self.7.spec_priority() } } } } } } } }
    open spec fn child_is_empty(&self, i: int) -> bool { if i == 0 { self.0.spec_is_empty() } else { if i == 1 { self.1.spec_is_empty() } else { if i == 2 { self.2.spec_is_empty() } else { if i == 3 { self.3.spec_is_empty() } else { if i == 4 { self.4.spec_is_empty() } else { if i == 5 { self.5.spec_is_empty() } else { if i == 6 { self.6.spec_is_empty() } else { self.7.spec_is_empty() } } } } } } } }
    open spec fn child_admits(&self, i: int, offer: ProposedDimensions, env: DefaultEnvironment) -> bool { if i == 0 { self.0.admits(offer, env) } else { if i == 1 { self.1.admits(offer, env) } else { if i == 2 { self.2.admits(offer, env) } else { if i == 3 { self.3.admits(offer, env) } else { if i == 4 { self.4.admits(offer, env) } else { if i == 5 { self.5.admits(offer, env) } else { if i == 6 { self.6.admits(offer, env) } else { self.7.admits(offer, env) } } } } } } } }
    open spec fn child_size(&self, i: int, offer: ProposedDimensions, env: DefaultEnvironment) -> Dimensions { if i == 0 { self.0.spec_layout(offer, env).resolved_size } else { if i == 1 { self.1.spec_layout(offer, env).resolved_size } else { if i == 2 { self.2.spec_layout(offer, env).resolved_size } else { if i == 3 { self.3.spec_layout(offer, env).resolved_size } else { if i == 4 { self.4.spec_layout(offer, env).resolved_size } else { if i == 5 { self.5.spec_layout(offer, env).resolved_size } else { if i == 6 { self.6.spec_layout(offer, env).resolved_size } else { self.7.spec_layout(offer, env).resolved_size } } } } } } } }
    fn count(&self) -> (r: usize) { 8 }
    fn priority_at(&self, i: usize) -> (r: i8) { if i == 0 { self.0.priority() } else { if i == 1 { self.1.priority() } else { if i == 2 { self.2.priority() } else { if i == 3 { self.3.priority() } else { if i == 4 { self.4.priority() } else { if i == 5 { self.5.priority() } else { if i == 6 { self.6.priority() } else { self.7.priority() } } } } } } } }
    fn is_empty_at(&self, i: usize) -> (r: bool) { if i == 0 { self.0.is_empty() } else { if i == 1 { self.1.is_empty() } else { if i == 2 { self.2.is_empty() } else { if i == 3 { self.3.is_empty() } else { if i == 4 { self.4.is_empty() } else { if i == 5 { self.5.is_empty() } else { if i == 6 { self.6.is_empty() } else { self.7.is_empty() } } } } } } } }
    fn size_at(&self, i: usize, offer: &ProposedDimensions, env: &DefaultEnvironment) -> (r: Dimensions) { if i == 0 { self.0.layout(offer, env).resolved_size } else { if i == 1 { self.1.layout(offer, env).resolved_size } else { if i == 2 { self.2.layout(offer, env).resolved_size } else { if i == 3 { self.3.layout(offer, env).resolved_size } else { if i == 4 { self.4.layout(offer, env).resolved_size } else { if i == 5 { self.5.layout(offer, env).resolved_size } else { if i == 6 { self.6.layout(offer, env).resolved_size } else { self.7.layout(offer, env).resolved_size } } } } } } } }
}

impl<T0: ViewLayout, T1: ViewLayout, T2: ViewLayout, T3: ViewLayout, T4: ViewLayout, T5: ViewLayout, T6: ViewLayout, T7: ViewLayout> ViewLayout for HStack<(T0, T1, T2, T3, T4, T5, T6, T7)> {
    type Sublayout = (ResolvedLayout<T0::Sublayout>, ResolvedLayout<T1::Sublayout>, ResolvedLayout<T2::Sublayout>, ResolvedLayout<T3::Sublayout>, ResolvedLayout<T4::Sublayout>, ResolvedLayout<T5::Sublayout>, ResolvedLayout<T6::Sublayout>, ResolvedLayout<T7::Sublayout>);
    type Renderables = (T0::Renderables, T1::Renderables, T2::Renderables, T3::Renderables, T4::Renderables, T5::Renderables, T6::Renderables, T7::Renderables);

    open spec fn spec_priority(&self) -> i8 { 0 }
    open spec fn spec_is_empty(&self) -> bool { false }

    open spec fn admits(&self, offer: ProposedDimensions, env: DefaultEnvironment) -> bool {
        stack_admits(&self.items, offer, horizontal_env(env), LayoutDirection::Horizontal)
    }

    open spec fn spec_layout(&self, offer: ProposedDimensions, env: DefaultEnvironment) -> ResolvedLayout<(ResolvedLayout<T0::Sublayout>, ResolvedLayout<T1::Sublayout>, ResolvedLayout<T2::Sublayout>, ResolvedLayout<T3::Sublayout>, ResolvedLayout<T4::Sublayout>, ResolvedLayout<T5::Sublayout>, ResolvedLayout<T6::Sublayout>, ResolvedLayout<T7::Sublayout>)> {
        let henv = horizontal_env(env);
        let offers = stack_offers(&self.items, offer, henv, self.params(8));
        ResolvedLayout {
            sublayouts: (self.items.0.spec_layout(offers[0], henv), self.items.1.spec_layout(offers[1], henv), self.items.2.spec_layout(offers[2], henv), self.items.3.spec_layout(offers[3], henv), self.items.4.spec_layout(offers[4], henv), self.items.5.spec_layout(offers[5], henv), self.items.6.spec_layout(offers[6], henv), self.items.7.spec_layout(offers[7], henv)),
            resolved_size: stack_size(&self.items, offer, henv, self.params(8)),
        }
    }

    open spec fn render_admits(&self, layout: ResolvedLayout<(ResolvedLayout<T0::Sublayout>, ResolvedLayout<T1::Sublayout>, ResolvedLayout<T2::Sublayout>, ResolvedLayout<T3::Sublayout>, ResolvedLayout<T4::Sublayout>, ResolvedLayout<T5::Sublayout>, ResolvedLayout<T6::Sublayout>, ResolvedLayout<T7::Sublayout>)>, origin: Point, env: DefaultEnvironment) -> bool {
        let henv = horizontal_env(env);
        let size = layout.resolved_size;
        let x0 = 0int;
        let x1 = self.next_x(x0, layout.sublayouts.0.resolved_size, self.items.0.spec_is_empty());
        let x2 = self.next_x(x1, layout.sublayouts.1.resolved_size, self.items.1.spec_is_empty());
        let x3 = self.next_x(x2, layout.sublayouts.2.resolved_size, self.items.2.spec_is_empty());
        let x4 = self.next_x(x3, layout.sublayouts.3.resolved_size, self.items.3.spec_is_empty());
        let x5 = self.next_x(x4, layout.sublayouts.4.resolved_size, self.items.4.spec_is_empty());
        let x6 = self.next_x(x5, layout.sublayouts.5.resolved_size, self.items.5.spec_is_empty());
        let x7 = self.next_x(x6, layout.sublayouts.6.resolved_size, self.items.6.spec_is_empty());
        &&& self.placeable(origin, x0, size, layout.sublayouts.0.resolved_size)
        &&& self.items.0.render_admits(layout.sublayouts.0, self.child_origin(origin, x0, size, layout.sublayouts.0.resolved_size), henv)
        &&& self.placeable(origin, x1, size, layout.sublayouts.1.resolved_size)
        &&& self.items.1.render_admits(layout.sublayouts.1, self.child_origin(origin, x1, size, layout.sublayouts.1.resolved_size), henv)
        &&& self.placeable(origin, x2, size, layout.sublayouts.2.resolved_size)
        &&& self.items.2.render_admits(layout.sublayouts.2, self.child_origin(origin, x2, size, layout.sublayouts.2.resolved_size), henv)
        &&& self.placeable(origin, x3, size, layout.sublayouts.3.resolved_size)
        &&& self.items.3.render_admits(layout.sublayouts.3, self.child_origin(origin, x3, size, layout.sublayouts.3.resolved_size), henv)
        &&& self.placeable(origin, x4, size, layout.sublayouts.4.resolved_size)
        &&& self.items.4.render_admits(layout.sublayouts.4, self.child_origin(origin, x4, size, layout.sublayouts.4.resolved_size), henv)
        &&& self.placeable(origin, x5, size, layout.sublayouts.5.resolved_size)
        &&& self.items.5.render_admits(layout.sublayouts.5, self.child_origin(origin, x5, size, layout.sublayouts.5.resolved_size), henv)
        &&& self.placeable(origin, x6, size, layout.sublayouts.6.resolved_size)
        &&& self.items.6.render_admits(layout.sublayouts.6, self.child_origin(origin, x6, size, layout.sublayouts.6.resolved_size), henv)
        &&& self.placeable(origin, x7, size, layout.sublayouts.7.resolved_size)
        &&& self.items.7.render_admits(layout.sublayouts.7, self.child_origin(origin, x7, size, layout.sublayouts.7.resolved_size), henv)
    }

    open spec fn spec_render_tree(&self, layout: ResolvedLayout<(ResolvedLayout<T0::Sublayout>, ResolvedLayout<T1::Sublayout>, ResolvedLayout<T2::Sublayout>, ResolvedLayout<T3::Sublayout>, ResolvedLayout<T4::Sublayout>, ResolvedLayout<T5::Sublayout>, ResolvedLayout<T6::Sublayout>, ResolvedLayout<T7::Sublayout>)>, origin: Point, env: DefaultEnvironment) -> (T0::Renderables, T1::Renderables, T2::Renderables, T3::Renderables, T4::Renderables, T5::Renderables, T6::Renderables, T7::Renderables) {
        let henv = horizontal_env(env);
        let size = layout.resolved_size;
        let x0 = 0int;
        let x1 = self.next_x(x0, layout.sublayouts.0.resolved_size, self.items.0.spec_is_empty());
        let x2 = self.next_x(x1, layout.sublayouts.1.resolved_size, self.items.1.spec_is_empty());
        let x3 = self.next_x(x2, layout.sublayouts.2.resolved_size, self.items.2.spec_is_empty());
        let x4 = self.next_x(x3, layout.sublayouts.3.resolved_size, self.items.3.spec_is_empty());
        let x5 = self.next_x(x4, layout.sublayouts.4.resolved_size, self.items.4.spec_is_empty());
        let x6 = self.next_x(x5, layout.sublayouts.5.resolved_size, self.items.5.spec_is_empty());
        let x7 = self.next_x(x6, layout.sublayouts.6.resolved_size, self.items.6.spec_is_empty());
        (self.items.0.spec_render_tree(layout.sublayouts.0, self.child_origin(origin, x0, size, layout.sublayouts.0.resolved_size), henv), self.items.1.spec_render_tree(layout.sublayouts.1, self.child_origin(origin, x1, size, layout.sublayouts.1.resolved_size), henv), self.items.2.spec_render_tree(layout.sublayouts.2, self.child_origin(origin, x2, size, layout.sublayouts.2.resolved_size), henv), self.items.3.spec_render_tree(layout.sublayouts.3, self.child_origin(origin, x3, size, layout.sublayouts.3.resolved_size), henv), self.items.4.spec_render_tree(layout.sublayouts.4, self.child_origin(origin, x4, size, layout.sublayouts.4.resolved_size), henv), self.items.5.spec_render_tree(layout.sublayouts.5, self.child_origin(origin, x5, size, layout.sublayouts.5.resolved_size), henv), self.items.6.spec_render_tree(layout.sublayouts.6, self.child_origin(origin, x6, size, layout.sublayouts.6.resolved_size), henv), self.items.7.spec_render_tree(layout.sublayouts.7, self.child_origin(origin, x7, size, layout.sublayouts.7.resolved_size), henv))
    }

    fn priority(&self) -> (r: i8) { 0 }

    fn is_empty(&self) -> (r: bool) { false }

    fn layout(&self, offer: &ProposedDimensions, env: &DefaultEnvironment) -> (r: ResolvedLayout<(ResolvedLayout<T0::Sublayout>, ResolvedLayout<T1::Sublayout>, ResolvedLayout<T2::Sublayout>, ResolvedLayout<T3::Sublayout>, ResolvedLayout<T4::Sublayout>, ResolvedLayout<T5::Sublayout>, ResolvedLayout<T6::Sublayout>, ResolvedLayout<T7::Sublayout>)>) {
        let henv = env.with_direction(LayoutDirection::Horizontal);
        let params = StackParams { direction: LayoutDirection::Horizontal, spacing: self.spacing as u32, slots: 8, clamp_cross: true };
        let (size, offers) = layout_n(&self.items, offer, &henv, params);
        assert(self.items.child_admits(0, with_main(*offer, LayoutDirection::Horizontal, offers@[0].width), henv));
        assert(with_main(*offer, LayoutDirection::Horizontal, offers@[0].width) == offers@[0]);
        let c0 = self.items.0.layout(&offers[0], &henv);
        assert(self.items.child_admits(1, with_main(*offer, LayoutDirection::Horizontal, offers@[1].width), henv));
        assert(with_main(*offer, LayoutDirection::Horizontal, offers@[1].width) == offers@[1]);
        let c1 = self.items.1.layout(&offers[1], &henv);
        assert(self.items.child_admits(2, with_main(*offer, LayoutDirection::Horizontal, offers@[2].width), henv));
        assert(with_main(*offer, LayoutDirection::Horizontal, offers@[2].width) == offers@[2]);
        let c2 = self.items.2.layout(&offers[2], &henv);
        assert(self.items.child_admits(3, with_main(*offer, LayoutDirection::Horizontal, offers@[3].width), henv));
        assert(with_main(*offer, LayoutDirection::Horizontal, offers@[3].width) == offers@[3]);
        let c3 = self.items.3.layout(&offers[3], &henv);
        assert(self.items.child_admits(4, with_main(*offer, LayoutDirection::Horizontal, offers@[4].width), henv));
        assert(with_main(*offer, LayoutDirection::Horizontal, offers@[4].width) == offers@[4]);
        let c4 = self.items.4.layout(&offers[4], &henv);
        assert(self.items.child_admits(5, with_main(*offer, LayoutDirection::Horizontal, offers@[5].width), henv));
        assert(with_main(*offer, LayoutDirection::Horizontal, offers@[5].width) == offers@[5]);
        let c5 = self.items.5.layout(&offers[5], &henv);
        assert(self.items.child_admits(6, with_main(*offer, LayoutDirection::Horizontal, offers@[6].width), henv));
        assert(with_main(*offer, LayoutDirection::Horizontal, offers@[6].width) == offers@[6]);
        let c6 = self.items.6.layout(&offers[6], &henv);
        assert(self.items.child_admits(7, with_main(*offer, LayoutDirection::Horizontal, offers@[7].width), henv));
        assert(with_main(*offer, LayoutDirection::Horizontal, offers@[7].width) == offers@[7]);
        let c7 = self.items.7.layout(&offers[7], &henv);
        ResolvedLayout { sublayouts: (c0, c1, c2, c3, c4, c5, c6, c7), resolved_size: size }
    }

    fn render_tree(&self, layout: &ResolvedLayout<(ResolvedLayout<T0::Sublayout>, ResolvedLayout<T1::Sublayout>, ResolvedLayout<T2::Sublayout>, ResolvedLayout<T3::Sublayout>, ResolvedLayout<T4::Sublayout>, ResolvedLayout<T5::Sublayout>, ResolvedLayout<T6::Sublayout>, ResolvedLayout<T7::Sublayout>)>, origin: Point, env: &DefaultEnvironment) -> (r: (T0::Renderables, T1::Renderables, T2::Renderables, T3::Renderables, T4::Renderables, T5::Renderables, T6::Renderables, T7::Renderables)) {
        let henv = env.with_direction(LayoutDirection::Horizontal);
        let height = dimension_to_i32(layout.resolved_size.height);
        let mut x: i32 = 0;
        let y0 = self.alignment.align(height, dimension_to_i32(layout.sublayouts.0.resolved_size.height));
        let r0 = self.items.0.render_tree(&layout.sublayouts.0, origin.add(Point::new(x, y0)), &henv);
        x = advance(x, layout.sublayouts.0.resolved_size, self.items.0.is_empty(), self.spacing);
        let y1 = self.alignment.align(height, dimension_to_i32(layout.sublayouts.1.resolved_size.height));
        let r1 = self.items.1.render_tree(&layout.sublayouts.1, origin.add(Point::new(x, y1)), &henv);
        x = advance(x, layout.sublayouts.1.resolved_size, self.items.1.is_empty(), self.spacing);
        let y2 = self.alignment.align(height, dimension_to_i32(layout.sublayouts.2.resolved_size.height));
        let r2 = self.items.2.render_tree(&layout.sublayouts.2, origin.add(Point::new(x, y2)), &henv);
        x = advance(x, layout.sublayouts.2.resolved_size, self.items.2.is_empty(), self.spacing);
        let y3 = self.alignment.align(height, dimension_to_i32(layout.sublayouts.3.resolved_size.height));
        let r3 = self.items.3.render_tree(&layout.sublayouts.3, origin.add(Point::new(x, y3)), &henv);
        x = advance(x, layout.sublayouts.3.resolved_size, self.items.3.is_empty(), self.spacing);
        let y4 = self.alignment.align(height, dimension_to_i32(layout.sublayouts.4.resolved_size.height));
        let r4 = self.items.4.render_tree(&layout.sublayouts.4, origin.add(Point::new(x, y4)), &henv);
        x = advance(x, layout.sublayouts.4.resolved_size, self.items.4.is_empty(), self.spacing);
        let y5 = self.alignment.align(height, dimension_to_i32(layout.sublayouts.5.resolved_size.height));
        let r5 = self.items.5.render_tree(&layout.sublayouts.5, origin.add(Point::new(x, y5)), &henv);
        x = advance(x, layout.sublayouts.5.resolved_size, self.items.5.is_empty(), self.spacing);
        let y6 = self.alignment.align(height, dimension_to_i32(layout.sublayouts.6.resolved_size.height));
        let r6 = self.items.6.render_tree(&layout.sublayouts.6, origin.add(Point::new(x, y6)), &henv);
        x = advance(x, layout.sublayouts.6.resolved_size, self.items.6.is_empty(), self.spacing);
        let y7 = self.alignment.align(height, dimension_to_i32(layout.sublayouts.7.resolved_size.height));
        let r7 = self.items.7.render_tree(&layout.sublayouts.7, origin.add(Point::new(x, y7)), &henv);
        (r0, r1, r2, r3, r4, r5, r6, r7)
    }
}

impl<T0: ViewLayout, T1: ViewLayout, T2: ViewLayout, T3: ViewLayout, T4: ViewLayout, T5: ViewLayout, T6: ViewLayout, T7: ViewLayout, T8: ViewLayout> StackChildren for (T0, T1, T2, T3, T4, T5, T6, T7, T8) {
    open spec fn child_count(&self) -> nat { 9 }
    open spec fn children_ready(&self) -> bool { true }
    open spec fn child_priority(&self, i: int) -> i8 { if i == 0 { self.0.spec_priority() } else { if i == 1 { self.1.spec_priority() } else { if i == 2 { self.2.spec_priority() } else { if i == 3 { self.3.spec_priority() } else { if i == 4 { self.4.spec_priority() } else { if i == 5 { self.5.spec_priority() } else { if i == 6 { self.6.spec_priority() } else { if i == 7 { self.7.spec_priority() } else { self.8.spec_priority() } } } } } } } } }
    open spec fn child_is_empty(&self, i: int) -> bool { if i == 0 { self.0.spec_is_empty() } else { if i == 1 { self.1.spec_is_empty() } else { if i == 2 { self.2.spec_is_empty() } else { if i == 3 { self.3.spec_is_empty() } else { if i == 4 { self.4.spec_is_empty() } else { if i == 5 { self.5.spec_is_empty() } else { if i == 6 { self.6.spec_is_empty() } else { if i == 7 { self.7.spec_is_empty() } else { self.8.spec_is_empty() } } } } } } } } }
    open spec fn child_admits(&self, i: int, offer: ProposedDimensions, env: DefaultEnvironment) -> bool { if i == 0 { self.0.admits(offer, env) } else { if i == 1 { self.1.admits(offer, env) } else { if i == 2 { self.2.admits(offer, env) } else { if i == 3 { self.3.admits(offer, env) } else { if i == 4 { self.4.admits(offer, env) } else { if i == 5 { self.5.admits(offer, env) } else { if i == 6 { self.6.admits(offer, env) } else { if i == 7 { self.7.admits(offer, env) } else { self.8.admits(offer, env) } } } } } } } } }
    open spec fn child_size(&self, i: int, offer: ProposedDimensions, env: DefaultEnvironment) -> Dimensions { if i == 0 { self.0.spec_layout(offer, env).resolved_size } else { if i == 1 { self.1.spec_layout(offer, env).resolved_size } else { if i == 2 { self.2.spec_layout(offer, env).resolved_size } else { if i == 3 { self.3.spec_layout(offer, env).resolved_size } else { if i == 4 { self.4.spec_layout(offer, env).resolved_size } else { if i == 5 { self.5.spec_layout(offer, env).resolved_size } else { if i == 6 { self.6.spec_layout(offer, env).resolved_size } else { if i == 7 { self.7.spec_layout(offer, env).resolved_size } else { self.8.spec_layout(offer, env).resolved_size } } } } } } } } }
    fn count(&self) -> (r: usize) { 9 }
    fn priority_at(&self, i: usize) -> (r: i8) { if i == 0 { self.0.priority() } else { if i == 1 { self.1.priority() } else { if i == 2 { self.2.priority() } else { if i == 3 { self.3.priority() } else { if i == 4 { self.4.priority() } else { if i == 5 { self.5.priority() } else { if i == 6 { self.6.priority() } else { if i == 7 { self.7.priority() } else { self.8.priority() } } } } } } } } }
    fn is_empty_at(&self, i: usize) -> (r: bool) { if i == 0 { self.0.is_empty() } else { if i == 1 { self.1.is_empty() } else { if i == 2 { self.2.is_empty() } else { if i == 3 { self.3.is_empty() } else { if i == 4 { self.4.is_empty() } else { if i == 5 { self.5.is_empty() } else { if i == 6 { self.6.is_empty() } else { if i == 7 { self.7.is_empty() } else { self.8.is_empty() } } } } } } } } }
    fn size_at(&self, i: usize, offer: &ProposedDimensions, env: &DefaultEnvironment) -> (r: Dimensions) { if i == 0 { self.0.layout(offer, env).resolved_size } else { if i == 1 { self.1.layout(offer, env).resolved_size } else { if i == 2 { self.2.layout(offer, env).resolved_size } else { if i == 3 { self.3.layout(offer, env).resolved_size } else { if i == 4 { self.4.layout(offer, env).resolved_size } else { if i == 5 { self.5.layout(offer, env).resolved_size } else { if i == 6 { self.6.layout(offer, env).resolved_size } else { if i == 7 { self.7.layout(offer, env).resolved_size } else { self.8.layout(offer, env).resolved_size } } } } } } } } }
}

impl<T0: ViewLayout, T1: ViewLayout, T2: ViewLayout, T3: ViewLayout, T4: ViewLayout, T5: ViewLayout, T6: ViewLayout, T7: ViewLayout, T8: ViewLayout> ViewLayout for HStack<(T0, T1, T2, T3, T4, T5, T6, T7, T8)> {
    type Sublayout = (ResolvedLayout<T0::Sublayout>, ResolvedLayout<T1::Sublayout>, ResolvedLayout<T2::Sublayout>, ResolvedLayout<T3::Sublayout>, ResolvedLayout<T4::Sublayout>, ResolvedLayout<T5::Sublayout>, ResolvedLayout<T6::Sublayout>, ResolvedLayout<T7::Sublayout>, ResolvedLayout<T8::Sublayout>);
    type Renderables = (T0::Renderables, T1::Renderables, T2::Renderables, T3::Renderables, T4::Renderables, T5::Renderables, T6::Renderables, T7::Renderables, T8::Renderables);

    open spec fn spec_priority(&self) -> i8 { 0 }
    open spec fn spec_is_empty(&self) -> bool { false }

    open spec fn admits(&self, offer: ProposedDimensions, env: DefaultEnvironment) -> bool {
        stack_admits(&self.items, offer, horizontal_env(env), LayoutDirection::Horizontal)
    }

    open spec fn spec_layout(&self, offer: ProposedDimensions, env: DefaultEnvironment) -> ResolvedLayout<(ResolvedLayout<T0::Sublayout>, ResolvedLayout<T1::Sublayout>, ResolvedLayout<T2::Sublayout>, ResolvedLayout<T3::Sublayout>, ResolvedLayout<T4::Sublayout>, ResolvedLayout<T5::Sublayout>, ResolvedLayout<T6::Sublayout>, ResolvedLayout<T7::Sublayout>, ResolvedLayout<T8::Sublayout>)> {
        let henv = horizontal_env(env);
        let offers = stack_offers(&self.items, offer, henv, self.params(9));
        ResolvedLayout {
            sublayouts: (self.items.0.spec_layout(offers[0], henv), self.items.1.spec_layout(offers[1], henv), self.items.2.spec_layout(offers[2], henv), self.items.3.spec_layout(offers[3], henv), self.items.4.spec_layout(offers[4], henv), self.items.5.spec_layout(offers[5], henv), self.items.6.spec_layout(offers[6], henv), self.items.7.spec_layout(offers[7], henv), self.items.8.spec_layout(offers[8], henv)),
            resolved_size: stack_size(&self.items, offer, henv, self.params(9)),
        }
    }

    open spec fn render_admits(&self, layout: ResolvedLayout<(ResolvedLayout<T0::Sublayout>, ResolvedLayout<T1::Sublayout>, ResolvedLayout<T2::Sublayout>, ResolvedLayout<T3::Sublayout>, ResolvedLayout<T4::Sublayout>, ResolvedLayout<T5::Sublayout>, ResolvedLayout<T6::Sublayout>, ResolvedLayout<T7::Sublayout>, ResolvedLayout<T8::Sublayout>)>, origin: Point, env: DefaultEnvironment) -> bool {
        let henv = horizontal_env(env);
        let size = layout.resolved_size;
        let x0 = 0int;
        let x1 = self.next_x(x0, layout.sublayouts.0.resolved_size, self.items.0.spec_is_empty());
        let x2 = self.next_x(x1, layout.sublayouts.1.resolved_size, self.items.1.spec_is_empty());
        let x3 = self.next_x(x2, layout.sublayouts.2.resolved_size, self.items.2.spec_is_empty());
        let x4 = self.next_x(x3, layout.sublayouts.3.resolved_size, self.items.3.spec_is_empty());
        let x5 = self.next_x(x4, layout.sublayouts.4.resolved_size, self.items.4.spec_is_empty());
        let x6 = self.next_x(x5, layout.sublayouts.5.resolved_size, self.items.5.spec_is_empty());
        let x7 = self.next_x(x6, layout.sublayouts.6.resolved_size, self.items.6.spec_is_empty());
        let x8 = self.next_x(x7, layout.sublayouts.7.resolved_size, self.items.7.spec_is_empty());
        &&& self.placeable(origin, x0, size, layout.sublayouts.0.resolved_size)
        &&& self.items.0.render_admits(layout.sublayouts.0, self.child_origin(origin, x0, size, layout.sublayouts.0.resolved_size), henv)
        &&& self.placeable(origin, x1, size, layout.sublayouts.1.resolved_size)
        &&& self.items.1.render_admits(layout.sublayouts.1, self.child_origin(origin, x1, size, layout.sublayouts.1.resolved_size), henv)
        &&& self.placeable(origin, x2, size, layout.sublayouts.2.resolved_size)
        &&& self.items.2.render_admits(layout.sublayouts.2, self.child_origin(origin, x2, size, layout.sublayouts.2.resolved_size), henv)
        &&& self.placeable(origin, x3, size, layout.sublayouts.3.resolved_size)
        &&& self.items.3.render_admits(layout.sublayouts.3, self.child_origin(origin, x3, size, layout.sublayouts.3.resolved_size), henv)
        &&& self.placeable(origin, x4, size, layout.sublayouts.4.resolved_size)
        &&& self.items.4.render_admits(layout.sublayouts.4, self.child_origin(origin, x4, size, layout.sublayouts.4.resolved_size), henv)
        &&& self.placeable(origin, x5, size, layout.sublayouts.5.resolved_size)
        &&& self.items.5.render_admits(layout.sublayouts.5, self.child_origin(origin, x5, size, layout.sublayouts.5.resolved_size), henv)
        &&& self.placeable(origin, x6, size, layout.sublayouts.6.resolved_size)
        &&& self.items.6.render_admits(layout.sublayouts.6, self.child_origin(origin, x6, size, layout.sublayouts.6.resolved_size), henv)
        &&& self.placeable(origin, x7, size, layout.sublayouts.7.resolved_size)
        &&& self.items.7.render_admits(layout.sublayouts.7, self.child_origin(origin, x7, size, layout.sublayouts.7.resolved_size), henv)
        &&& self.placeable(origin, x8, size, layout.sublayouts.8.resolved_size)
        &&& self.items.8.render_admits(layout.sublayouts.8, self.child_origin(origin, x8, size, layout.sublayouts.8.resolved_size), henv)
    }

    open spec fn spec_render_tree(&self, layout: ResolvedLayout<(ResolvedLayout<T0::Sublayout>, ResolvedLayout<T1::Sublayout>, ResolvedLayout<T2::Sublayout>, ResolvedLayout<T3::Sublayout>, ResolvedLayout<T4::Sublayout>, ResolvedLayout<T5::Sublayout>, ResolvedLayout<T6::Sublayout>, ResolvedLayout<T7::Sublayout>, ResolvedLayout<T8::Sublayout>)>, origin: Point, env: DefaultEnvironment) -> (T0::Renderables, T1::Renderables, T2::Renderables, T3::Renderables, T4::Renderables, T5::Renderables, T6::Renderables, T7::Renderables, T8::Renderables) {
        let henv = horizontal_env(env);
        let size = layout.resolved_size;
        let x0 = 0int;
        let x1 = self.next_x(x0, layout.sublayouts.0.resolved_size, self.items.0.spec_is_empty());
        let x2 = self.next_x(x1, layout.sublayouts.1.resolved_size, self.items.1.spec_is_empty());
        let x3 = self.next_x(x2, layout.sublayouts.2.resolved_size, self.items.2.spec_is_empty());
        let x4 = self.next_x(x3, layout.sublayouts.3.resolved_size, self.items.3.spec_is_empty());
        let x5 = self.next_x(x4, layout.sublayouts.4.resolved_size, self.items.4.spec_is_empty());
        let x6 = self.next_x(x5, layout.sublayouts.5.resolved_size, self.items.5.spec_is_empty());
        let x7 = self.next_x(x6, layout.sublayouts.6.resolved_size, self.items.6.spec_is_empty());
        let x8 = self.next_x(x7, layout.sublayouts.7.resolved_size, self.items.7.spec_is_empty());
        (self.items.0.spec_render_tree(layout.sublayouts.0, self.child_origin(origin, x0, size, layout.sublayouts.0.resolved_size), henv), self.items.1.spec_render_tree(layout.sublayouts.1, self.child_origin(origin, x1, size, layout.sublayouts.1.resolved_size), henv), self.items.2.spec_render_tree(layout.sublayouts.2, self.child_origin(origin, x2, size, layout.sublayouts.2.resolved_size), henv), self.items.3.spec_render_tree(layout.sublayouts.3, self.child_origin(origin, x3, size, layout.sublayouts.3.resolved_size), henv), self.items.4.spec_render_tree(layout.sublayouts.4, self.child_origin(origin, x4, size, layout.sublayouts.4.resolved_size), henv), self.items.5.spec_render_tree(layout.sublayouts.5, self.child_origin(origin, x5, size, layout.sublayouts.5.resolved_size), henv), self.items.6.spec_render_tree(layout.sublayouts.6, self.child_origin(origin, x6, size, layout.sublayouts.6.resolved_size), henv), self.items.7.spec_render_tree(layout.sublayouts.7, self.child_origin(origin, x7, size, layout.sublayouts.7.resolved_size), henv), self.items.8.spec_render_tree(layout.sublayouts.8, self.child_origin(origin, x8, size, layout.sublayouts.8.resolved_size), henv))
    }

    fn priority(&self) -> (r: i8) { 0 }

    fn is_empty(&self) -> (r: bool) { false }

    fn layout(&self, offer: &ProposedDimensions, env: &DefaultEnvironment) -> (r: ResolvedLayout<(ResolvedLayout<T0::Sublayout>, ResolvedLayout<T1::Sublayout>, ResolvedLayout<T2::Sublayout>, ResolvedLayout<T3::Sublayout>, ResolvedLayout<T4::Sublayout>, ResolvedLayout<T5::Sublayout>, ResolvedLayout<T6::Sublayout>, ResolvedLayout<T7::Sublayout>, ResolvedLayout<T8::Sublayout>)>) {
        let henv = env.with_direction(LayoutDirection::Horizontal);
        let params = StackParams { direction: LayoutDirection::Horizontal, spacing: self.spacing as u32, slots: 9, clamp_cross: true };
        let (size, offers) = layout_n(&self.items, offer, &henv, params);
        assert(self.items.child_admits(0, with_main(*offer, LayoutDirection::Horizontal, offers@[0].width), henv));
        assert(with_main(*offer, LayoutDirection::Horizontal, offers@[0].width) == offers@[0]);
        let c0 = self.items.0.layout(&offers[0], &henv);
        assert(self.items.child_admits(1, with_main(*offer, LayoutDirection::Horizontal, offers@[1].width), henv));
        assert(with_main(*offer, LayoutDirection::Horizontal, offers@[1].width) == offers@[1]);
        let c1 = self.items.1.layout(&offers[1], &henv);
        assert(self.items.child_admits(2, with_main(*offer, LayoutDirection::Horizontal, offers@[2].width), henv));
        assert(with_main(*offer, LayoutDirection::Horizontal, offers@[2].width) == offers@[2]);
        let c2 = self.items.2.layout(&offers[2], &henv);
        assert(self.items.child_admits(3, with_main(*offer, LayoutDirection::Horizontal, offers@[3].width), henv));
        assert(with_main(*offer, LayoutDirection::Horizontal, offers@[3].width) == offers@[3]);
        let c3 = self.items.3.layout(&offers[3], &henv);
        assert(self.items.child_admits(4, with_main(*offer, LayoutDirection::Horizontal, offers@[4].width), henv));
        assert(with_main(*offer, LayoutDirection::Horizontal, offers@[4].width) == offers@[4]);
        let c4 = self.items.4.layout(&offers[4], &henv);
        assert(self.items.child_admits(5, with_main(*offer, LayoutDirection::Horizontal, offers@[5].width), henv));
        assert(with_main(*offer, LayoutDirection::Horizontal, offers@[5].width) == offers@[5]);
        let c5 = self.items.5.layout(&offers[5], &henv);
        assert(self.items.child_admits(6, with_main(*offer, LayoutDirection::Horizontal, offers@[6].width), henv));
        assert(with_main(*offer, LayoutDirection::Horizontal, offers@[6].width) == offers@[6]);
        let c6 = self.items.6.layout(&offers[6], &henv);
        assert(self.items.child_admits(7, with_main(*offer, LayoutDirection::Horizontal, offers@[7].width), henv));
        assert(with_main(*offer, LayoutDirection::Horizontal, offers@[7].width) == offers@[7]);
        let c7 = self.items.7.layout(&offers[7], &henv);
        assert(self.items.child_admits(8, with_main(*offer, LayoutDirection::Horizontal, offers@[8].width), henv));
        assert(with_main(*offer, LayoutDirection::Horizontal, offers@[8].width) == offers@[8]);
        let c8 = self.items.8.layout(&offers[8], &henv);
        ResolvedLayout { sublayouts: (c0, c1, c2, c3, c4, c5, c6, c7, c8), resolved_size: size }
    }

    fn render_tree(&self, layout: &ResolvedLayout<(ResolvedLayout<T0::Sublayout>, ResolvedLayout<T1::Sublayout>, ResolvedLayout<T2::Sublayout>, ResolvedLayout<T3::Sublayout>, ResolvedLayout<T4::Sublayout>, ResolvedLayout<T5::Sublayout>, ResolvedLayout<T6::Sublayout>, ResolvedLayout<T7::Sublayout>, ResolvedLayout<T8::Sublayout>)>, origin: Point, env: &DefaultEnvironment) -> (r: (T0::Renderables, T1::Renderables, T2::Renderables, T3::Renderables, T4::Renderables, T5::Renderables, T6::Renderables, T7::Renderables, T8::Renderables)) {
        let henv = env.with_direction(LayoutDirection::Horizontal);
        let height = dimension_to_i32(layout.resolved_size.height);
        let mut x: i32 = 0;
        let y0 = self.alignment.align(height, dimension_to_i32(layout.sublayouts.0.resolved_size.height));
        let r0 = self.items.0.render_tree(&layout.sublayouts.0, origin.add(Point::new(x, y0)), &henv);
        x = advance(x, layout.sublayouts.0.resolved_size, self.items.0.is_empty(), self.spacing);
        let y1 = self.alignment.align(height, dimension_to_i32(layout.sublayouts.1.resolved_size.height));
        let r1 = self.items.1.render_tree(&layout.sublayouts.1, origin.add(Point::new(x, y1)), &henv);
        x = advance(x, layout.sublayouts.1.resolved_size, self.items.1.is_empty(), self.spacing);
        let y2 = self.alignment.align(height, dimension_to_i32(layout.sublayouts.2.resolved_size.height));
        let r2 = self.items.2.render_tree(&layout.sublayouts.2, origin.add(Point::new(x, y2)), &henv);
        x = advance(x, layout.sublayouts.2.resolved_size, self.items.2.is_empty(), self.spacing);
        let y3 = self.alignment.align(height, dimension_to_i32(layout.sublayouts.3.resolved_size.height));
        let r3 = self.items.3.render_tree(&layout.sublayouts.3, origin.add(Point::new(x, y3)), &henv);
        x = advance(x, layout.sublayouts.3.resolved_size, self.items.3.is_empty(), self.spacing);
        let y4 = self.alignment.align(height, dimension_to_i32(layout.sublayouts.4.resolved_size.height));
        let r4 = self.items.4.render_tree(&layout.sublayouts.4, origin.add(Point::new(x, y4)), &henv);
        x = advance(x, layout.sublayouts.4.resolved_size, self.items.4.is_empty(), self.spacing);
        let y5 = self.alignment.align(height, dimension_to_i32(layout.sublayouts.5.resolved_size.height));
        let r5 = self.items.5.render_tree(&layout.sublayouts.5, origin.add(Point::new(x, y5)), &henv);
        x = advance(x, layout.sublayouts.5.resolved_size, self.items.5.is_empty(), self.spacing);
        let y6 = self.alignment.align(height, dimension_to_i32(layout.sublayouts.6.resolved_size.height));
        let r6 = self.items.6.render_tree(&layout.sublayouts.6, origin.add(Point::new(x, y6)), &henv);
        x = advance(x, layout.sublayouts.6.resolved_size, self.items.6.is_empty(), self.spacing);
        let y7 = self.alignment.align(height, dimension_to_i32(layout.sublayouts.7.resolved_size.height));
        let r7 = self.items.7.render_tree(&layout.sublayouts.7, origin.add(Point::new(x, y7)), &henv);
        x = advance(x, layout.sublayouts.7.resolved_size, self.items.7.is_empty(), self.spacing);
        let y8 = self.alignment.align(height, dimension_to_i32(layout.sublayouts.8.resolved_size.height));
        let r8 = self.items.8.render_tree(&layout.sublayouts.8, origin.add(Point::new(x, y8)), &henv);
        (r0, r1, r2, r3, r4, r5, r6, r7, r8)
    }
}

impl<T0: ViewLayout, T1: ViewLayout, T2: ViewLayout, T3: ViewLayout, T4: ViewLayout, T5: ViewLayout, T6: ViewLayout, T7: ViewLayout, T8: ViewLayout, T9: ViewLayout> StackChildren for (T0, T1, T2, T3, T4, T5, T6, T7, T8, T9) {
    open spec fn child_count(&self) -> nat { 10 }
    open spec fn children_ready(&self) -> bool { true }
    open spec fn child_priority(&self, i: int) -> i8 { if i == 0 { self.0.spec_priority() } else { if i == 1 { self.1.spec_priority() } else { if i == 2 { self.2.spec_priority() } else { if i == 3 { self.3.spec_priority() } else { if i == 4 { self.4.spec_priority() } else { if i == 5 { self.5.spec_priority() } else { if i == 6 { self.6.spec_priority() } else { if i == 7 { self.7.spec_priority() } else { if i == 8 { self.8.spec_priority() } else { self.9.spec_priority() } } } } } } } } } }
    open spec fn child_is_empty(&self, i: int) -> bool { if i == 0 { self.0.spec_is_empty() } else { if i == 1 { self.1.spec_is_empty() } else { if i == 2 { self.2.spec_is_empty() } else { if i == 3 { self.3.spec_is_empty() } else { if i == 4 { self.4.spec_is_empty() } else { if i == 5 { self.5.spec_is_empty() } else { if i == 6 { self.6.spec_is_empty() } else { if i == 7 { self.7.spec_is_empty() } else { if i == 8 { self.8.spec_is_empty() } else { self.9.spec_is_empty() } } } } } } } } } }
    open spec fn child_admits(&self, i: int, offer: ProposedDimensions, env: DefaultEnvironment) -> bool { if i == 0 { self.0.admits(offer, env) } else { if i == 1 { self.1.admits(offer, env) } else { if i == 2 { self.2.admits(offer, env) } else { if i == 3 { self.3.admits(offer, env) } else { if i == 4 { self.4.admits(offer, env) } else { if i == 5 { self.5.admits(offer, env) } else { if i == 6 { self.6.admits(offer, env) } else { if i == 7 { self.7.admits(offer, env) } else { if i == 8 { self.8.admits(offer, env) } else { self.9.admits(offer, env) } } } } } } } } } }
    open spec fn child_size(&self, i: int, offer: ProposedDimensions, env: DefaultEnvironment) -> Dimensions { if i == 0 { self.0.spec_layout(offer, env).resolved_size } else { if i == 1 { self.1.spec_layout(offer, env).resolved_size } else { if i == 2 { self.2.spec_layout(offer, env).resolved_size } else { if i == 3 { self.3.spec_layout(offer, env).resolved_size } else { if i == 4 { self.4.spec_layout(offer, env).resolved_size } else { if i == 5 { self.5.spec_layout(offer, env).resolved_size } else { if i == 6 { self.6.spec_layout(offer, env).resolved_size } else { if i == 7 { self.7.spec_layout(offer, env).resolved_size } else { if i == 8 { self.8.spec_layout(offer, env).resolved_size } else { self.9.spec_layout(offer, env).resolved_size } } } } } } } } } }
    fn count(&self) -> (r: usize) { 10 }
    fn priority_at(&self, i: usize) -> (r: i8) { if i == 0 { self.0.priority() } else { if i == 1 { self.1.priority() } else { if i == 2 { self.2.priority() } else { if i == 3 { self.3.priority() } else { if i == 4 { self.4.priority() } else { if i == 5 { self.5.priority() } else { if i == 6 { self.6.priority() } else { if i == 7 { self.7.priority() } else { if i == 8 { self.8.priority() } else { self.9.priority() } } } } } } } } } }
    fn is_empty_at(&self, i: usize) -> (r: bool) { if i == 0 { self.0.is_empty() } else { if i == 1 { self.1.is_empty() } else { if i == 2 { self.2.is_empty() } else { if i == 3 { self.3.is_empty() } else { if i == 4 { self.4.is_empty() } else { if i == 5 { self.5.is_empty() } else { if i == 6 { self.6.is_empty() } else { if i == 7 { self.7.is_empty() } else { if i == 8 { self.8.is_empty() } else { self.9.is_empty() } } } } } } } } } }
    fn size_at(&self, i: usize, offer: &ProposedDimensions, env: &DefaultEnvironment) -> (r: Dimensions) { if i == 0 { self.0.layout(offer, env).resolved_size } else { if i == 1 { self.1.layout(offer, env).resolved_size } else { if i == 2 { self.2.layout(offer, env).resolved_size } else { if i == 3 { self.3.layout(offer, env).resolved_size } else { if i == 4 { self.4.layout(offer, env).resolved_size } else { if i == 5 { self.5.layout(offer, env).resolved_size } else { if i == 6 { self.6.layout(offer, env).resolved_size } else { if i == 7 { self.7.layout(offer, env).resolved_size } else { if i == 8 { self.8.layout(offer, env).resolved_size } else { self.9.layout(offer, env).resolved_size } } } } } } } } } }
}

impl<T0: ViewLayout, T1: ViewLayout, T2: ViewLayout, T3: ViewLayout, T4: ViewLayout, T5: ViewLayout, T6: ViewLayout, T7: ViewLayout, T8: ViewLayout, T9: ViewLayout> ViewLayout for HStack<(T0, T1, T2, T3, T4, T5, T6, T7, T8, T9)> {
    type Sublayout = (ResolvedLayout<T0::Sublayout>, ResolvedLayout<T1::Sublayout>, ResolvedLayout<T2::Sublayout>, ResolvedLayout<T3::Sublayout>, ResolvedLayout<T4::Sublayout>, ResolvedLayout<T5::Sublayout>, ResolvedLayout<T6::Sublayout>, ResolvedLayout<T7::Sublayout>, ResolvedLayout<T8::Sublayout>, ResolvedLayout<T9::Sublayout>);
    type Renderables = (T0::Renderables, T1::Renderables, T2::Renderables, T3::Renderables, T4::Renderables, T5::Renderables, T6::Renderables, T7::Renderables, T8::Renderables, T9::Renderables);

    open spec fn spec_priority(&self) -> i8 { 0 }
    open spec fn spec_is_empty(&self) -> bool { false }

    open spec fn admits(&self, offer: ProposedDimensions, env: DefaultEnvironment) -> bool {
        stack_admits(&self.items, offer, horizontal_env(env), LayoutDirection::Horizontal)
    }

    open spec fn spec_layout(&self, offer: ProposedDimensions, env: DefaultEnvironment) -> ResolvedLayout<(ResolvedLayout<T0::Sublayout>, ResolvedLayout<T1::Sublayout>, ResolvedLayout<T2::Sublayout>, ResolvedLayout<T3::Sublayout>, ResolvedLayout<T4::Sublayout>, ResolvedLayout<T5::Sublayout>, ResolvedLayout<T6::Sublayout>, ResolvedLayout<T7::Sublayout>, ResolvedLayout<T8::Sublayout>, ResolvedLayout<T9::Sublayout>)> {
        let henv = horizontal_env(env);
        let offers = stack_offers(&self.items, offer, henv, self.params(10));
        ResolvedLayout {
            sublayouts: (self.items.0.spec_layout(offers[0], henv), self.items.1.spec_layout(offers[1], henv), self.items.2.spec_layout(offers[2], henv), self.items.3.spec_layout(offers[3], henv), self.items.4.spec_layout(offers[4], henv), self.items.5.spec_layout(offers[5], henv), self.items.6.spec_layout(offers[6], henv), self.items.7.spec_layout(offers[7], henv), self.items.8.spec_layout(offers[8], henv), self.items.9.spec_layout(offers[9], henv)),
            resolved_size: stack_size(&self.items, offer, henv, self.params(10)),
        }
    }

    open spec fn render_admits(&self, layout: ResolvedLayout<(ResolvedLayout<T0::Sublayout>, ResolvedLayout<T1::Sublayout>, ResolvedLayout<T2::Sublayout>, ResolvedLayout<T3::Sublayout>, ResolvedLayout<T4::Sublayout>, ResolvedLayout<T5::Sublayout>, ResolvedLayout<T6::Sublayout>, ResolvedLayout<T7::Sublayout>, ResolvedLayout<T8::Sublayout>, ResolvedLayout<T9::Sublayout>)>, origin: Point, env: DefaultEnvironment) -> bool {
        let henv = horizontal_env(env);
        let size = layout.resolved_size;
        let x0 = 0int;
        let x1 = self.next_x(x0, layout.sublayouts.0.resolved_size, self.items.0.spec_is_empty());
        let x2 = self.next_x(x1, layout.sublayouts.1.resolved_size, self.items.1.spec_is_empty());
        let x3 = self.next_x(x2, layout.sublayouts.2.resolved_size, self.items.2.spec_is_empty());
        let x4 = self.next_x(x3, layout.sublayouts.3.resolved_size, self.items.3.spec_is_empty());
        let x5 = self.next_x(x4, layout.sublayouts.4.resolved_size, self.items.4.spec_is_empty());
        let x6 = self.next_x(x5, layout.sublayouts.5.resolved_size, self.items.5.spec_is_empty());
        let x7 = self.next_x(x6, layout.sublayouts.6.resolved_size, self.items.6.spec_is_empty());
        let x8 = self.next_x(x7, layout.sublayouts.7.resolved_size, self.items.7.spec_is_empty());
        let x9 = self.next_x(x8, layout.sublayouts.8.resolved_size, self.items.8.spec_is_empty());
        &&& self.placeable(origin, x0, size, layout.sublayouts.0.resolved_size)
        &&& self.items.0.render_admits(layout.sublayouts.0, self.child_origin(origin, x0, size, layout.sublayouts.0.resolved_size), henv)
        &&& self.placeable(origin, x1, size, layout.sublayouts.1.resolved_size)
        &&& self.items.1.render_admits(layout.sublayouts.1, self.child_origin(origin, x1, size, layout.sublayouts.1.resolved_size), henv)
        &&& self.placeable(origin, x2, size, layout.sublayouts.2.resolved_size)
        &&& self.items.2.render_admits(layout.sublayouts.2, self.child_origin(origin, x2, size, layout.sublayouts.2.resolved_size), henv)
        &&& self.placeable(origin, x3, size, layout.sublayouts.3.resolved_size)
        &&& self.items.3.render_admits(layout.sublayouts.3, self.child_origin(origin, x3, size, layout.sublayouts.3.resolved_size), henv)
        &&& self.placeable(origin, x4, size, layout.sublayouts.4.resolved_size)
        &&& self.items.4.render_admits(layout.sublayouts.4, self.child_origin(origin, x4, size, layout.sublayouts.4.resolved_size), henv)
        &&& self.placeable(origin, x5, size, layout.sublayouts.5.resolved_size)
        &&& self.items.5.render_admits(layout.sublayouts.5, self.child_origin(origin, x5, size, layout.sublayouts.5.resolved_size), henv)
        &&& self.placeable(origin, x6, size, layout.sublayouts.6.resolved_size)
        &&& self.items.6.render_admits(layout.sublayouts.6, self.child_origin(origin, x6, size, layout.sublayouts.6.resolved_size), henv)
        &&& self.placeable(origin, x7, size, layout.sublayouts.7.resolved_size)
        &&& self.items.7.render_admits(layout.sublayouts.7, self.child_origin(origin, x7, size, layout.sublayouts.7.resolved_size), henv)
        &&& self.placeable(origin, x8, size, layout.sublayouts.8.resolved_size)
        &&& self.items.8.render_admits(layout.sublayouts.8, self.child_origin(origin, x8, size, layout.sublayouts.8.resolved_size), henv)
        &&& self.placeable(origin, x9, size, layout.sublayouts.9.resolved_size)
        &&& self.items.9.render_admits(layout.sublayouts.9, self.child_origin(origin, x9, size, layout.sublayouts.9.resolved_size), henv)
    }

    open spec fn spec_render_tree(&self, layout: ResolvedLayout<(ResolvedLayout<T0::Sublayout>, ResolvedLayout<T1::Sublayout>, ResolvedLayout<T2::Sublayout>, ResolvedLayout<T3::Sublayout>, ResolvedLayout<T4::Sublayout>, ResolvedLayout<T5::Sublayout>, ResolvedLayout<T6::Sublayout>, ResolvedLayout<T7::Sublayout>, ResolvedLayout<T8::Sublayout>, ResolvedLayout<T9::Sublayout>)>, origin: Point, env: DefaultEnvironment) -> (T0::Renderables, T1::Renderables, T2::Renderables, T3::Renderables, T4::Renderables, T5::Renderables, T6::Renderables, T7::Renderables, T8::Renderables, T9::Renderables) {
        let henv = horizontal_env(env);
        let size = layout.resolved_size;
        let x0 = 0int;
        let x1 = self.next_x(x0, layout.sublayouts.0.resolved_size, self.items.0.spec_is_empty());
        let x2 = self.next_x(x1, layout.sublayouts.1.resolved_size, self.items.1.spec_is_empty());
        let x3 = self.next_x(x2, layout.sublayouts.2.resolved_size, self.items.2.spec_is_empty());
        let x4 = self.next_x(x3, layout.sublayouts.3.resolved_size, self.items.3.spec_is_empty());
        let x5 = self.next_x(x4, layout.sublayouts.4.resolved_size, self.items.4.spec_is_empty());
        let x6 = self.next_x(x5, layout.sublayouts.5.resolved_size, self.items.5.spec_is_empty());
        let x7 = self.next_x(x6, layout.sublayouts.6.resolved_size, self.items.6.spec_is_empty());
        let x8 = self.next_x(x7, layout.sublayouts.7.resolved_size, self.items.7.spec_is_empty());
        let x9 = self.next_x(x8, layout.sublayouts.8.resolved_size, self.items.8.spec_is_empty());
        (self.items.0.spec_render_tree(layout.sublayouts.0, self.child_origin(origin, x0, size, layout.sublayouts.0.resolved_size), henv), self.items.1.spec_render_tree(layout.sublayouts.1, self.child_origin(origin, x1, size, layout.sublayouts.1.resolved_size), henv), self.items.2.spec_render_tree(layout.sublayouts.2, self.child_origin(origin, x2, size, layout.sublayouts.2.resolved_size), henv), self.items.3.spec_render_tree(layout.sublayouts.3, self.child_origin(origin, x3, size, layout.sublayouts.3.resolved_size), henv), self.items.4.spec_render_tree(layout.sublayouts.4, self.child_origin(origin, x4, size, layout.sublayouts.4.resolved_size), henv), self.items.5.spec_render_tree(layout.sublayouts.5, self.child_origin(origin, x5, size, layout.sublayouts.5.resolved_size), henv), self.items.6.spec_render_tree(layout.sublayouts.6, self.child_origin(origin, x6, size, layout.sublayouts.6.resolved_size), henv), self.items.7.spec_render_tree(layout.sublayouts.7, self.child_origin(origin, x7, size, layout.sublayouts.7.resolved_size), henv), self.items.8.spec_render_tree(layout.sublayouts.8, self.child_origin(origin, x8, size, layout.sublayouts.8.resolved_size), henv), self.items.9.spec_render_tree(layout.sublayouts.9, self.child_origin(origin, x9, size, layout.sublayouts.9.resolved_size), henv))
    }

    fn priority(&self) -> (r: i8) { 0 }

    fn is_empty(&self) -> (r: bool) { false }

    fn layout(&self, offer: &ProposedDimensions, env: &DefaultEnvironment) -> (r: ResolvedLayout<(ResolvedLayout<T0::Sublayout>, ResolvedLayout<T1::Sublayout>, ResolvedLayout<T2::Sublayout>, ResolvedLayout<T3::Sublayout>, ResolvedLayout<T4::Sublayout>, ResolvedLayout<T5::Sublayout>, ResolvedLayout<T6::Sublayout>, ResolvedLayout<T7::Sublayout>, ResolvedLayout<T8::Sublayout>, ResolvedLayout<T9::Sublayout>)>) {
        let henv = env.with_direction(LayoutDirection::Horizontal);
        let params = StackParams { direction: LayoutDirection::Horizontal, spacing: self.spacing as u32, slots: 10, clamp_cross: true };
        let (size, offers) = layout_n(&self.items, offer, &henv, params);
        assert(self.items.child_admits(0, with_main(*offer, LayoutDirection::Horizontal, offers@[0].width), henv));
        assert(with_main(*offer, LayoutDirection::Horizontal, offers@[0].width) == offers@[0]);
        let c0 = self.items.0.layout(&offers[0], &henv);
        assert(self.items.child_admits(1, with_main(*offer, LayoutDirection::Horizontal, offers@[1].width), henv));
        assert(with_main(*offer, LayoutDirection::Horizontal, offers@[1].width) == offers@[1]);
        let c1 = self.items.1.layout(&offers[1], &henv);
        assert(self.items.child_admits(2, with_main(*offer, LayoutDirection::Horizontal, offers@[2].width), henv));
        assert(with_main(*offer, LayoutDirection::Horizontal, offers@[2].width) == offers@[2]);
        let c2 = self.items.2.layout(&offers[2], &henv);
        assert(self.items.child_admits(3, with_main(*offer, LayoutDirection::Horizontal, offers@[3].width), henv));
        assert(with_main(*offer, LayoutDirection::Horizontal, offers@[3].width) == offers@[3]);
        let c3 = self.items.3.layout(&offers[3], &henv);
        assert(self.items.child_admits(4, with_main(*offer, LayoutDirection::Horizontal, offers@[4].width), henv));
        assert(with_main(*offer, LayoutDirection::Horizontal, offers@[4].width) == offers@[4]);
        let c4 = self.items.4.layout(&offers[4], &henv);
        assert(self.items.child_admits(5, with_main(*offer, LayoutDirection::Horizontal, offers@[5].width), henv));
        assert(with_main(*offer, LayoutDirection::Horizontal, offers@[5].width) == offers@[5]);
        let c5 = self.items.5.layout(&offers[5], &henv);
        assert(self.items.child_admits(6, with_main(*offer, LayoutDirection::Horizontal, offers@[6].width), henv));
        assert(with_main(*offer, LayoutDirection::Horizontal, offers@[6].width) == offers@[6]);
        let c6 = self.items.6.layout(&offers[6], &henv);
        assert(self.items.child_admits(7, with_main(*offer, LayoutDirection::Horizontal, offers@[7].width), henv));
        assert(with_main(*offer, LayoutDirection::Horizontal, offers@[7].width) == offers@[7]);
        let c7 = self.items.7.layout(&offers[7], &henv);
        assert(self.items.child_admits(8, with_main(*offer, LayoutDirection::Horizontal, offers@[8].width), henv));
        assert(with_main(*offer, LayoutDirection::Horizontal, offers@[8].width) == offers@[8]);
        let c8 = self.items.8.layout(&offers[8], &henv);
        assert(self.items.child_admits(9, with_main(*offer, LayoutDirection::Horizontal, offers@[9].width), henv));
        assert(with_main(*offer, LayoutDirection::Horizontal, offers@[9].width) == offers@[9]);
        let c9 = self.items.9.layout(&offers[9], &henv);
        ResolvedLayout { sublayouts: (c0, c1, c2, c3, c4, c5, c6, c7, c8, c9), resolved_size: size }
    }

    fn render_tree(&self, layout: &ResolvedLayout<(ResolvedLayout<T0::Sublayout>, ResolvedLayout<T1::Sublayout>, ResolvedLayout<T2::Sublayout>, ResolvedLayout<T3::Sublayout>, ResolvedLayout<T4::Sublayout>, ResolvedLayout<T5::Sublayout>, ResolvedLayout<T6::Sublayout>, ResolvedLayout<T7::Sublayout>, ResolvedLayout<T8::Sublayout>, ResolvedLayout<T9::Sublayout>)>, origin: Point, env: &DefaultEnvironment) -> (r: (T0::Renderables, T1::Renderables, T2::Renderables, T3::Renderables, T4::Renderables, T5::Renderables, T6::Renderables, T7::Renderables, T8::Renderables, T9::Renderables)) {
        let henv = env.with_direction(LayoutDirection::Horizontal);
        let height = dimension_to_i32(layout.resolved_size.height);
        let mut x: i32 = 0;
        let y0 = self.alignment.align(height, dimension_to_i32(layout.sublayouts.0.resolved_size.height));
        let r0 = self.items.0.render_tree(&layout.sublayouts.0, origin.add(Point::new(x, y0)), &henv);
        x = advance(x, layout.sublayouts.0.resolved_size, self.items.0.is_empty(), self.spacing);
        let y1 = self.alignment.align(height, dimension_to_i32(layout.sublayouts.1.resolved_size.height));
        let r1 = self.items.1.render_tree(&layout.sublayouts.1, origin.add(Point::new(x, y1)), &henv);
        x = advance(x, layout.sublayouts.1.resolved_size, self.items.1.is_empty(), self.spacing);
        let y2 = self.alignment.align(height, dimension_to_i32(layout.sublayouts.2.resolved_size.height));
        let r2 = self.items.2.render_tree(&layout.sublayouts.2, origin.add(Point::new(x, y2)), &henv);
        x = advance(x, layout.sublayouts.2.resolved_size, self.items.2.is_empty(), self.spacing);
        let y3 = self.alignment.align(height, dimension_to_i32(layout.sublayouts.3.resolved_size.height));
        let r3 = self.items.3.render_tree(&layout.sublayouts.3, origin.add(Point::new(x, y3)), &henv);
        x = advance(x, layout.sublayouts.3.resolved_size, self.items.3.is_empty(), self.spacing);
        let y4 = self.alignment.align(height, dimension_to_i32(layout.sublayouts.4.resolved_size.height));
        let r4 = self.items.4.render_tree(&layout.sublayouts.4, origin.add(Point::new(x, y4)), &henv);
        x = advance(x, layout.sublayouts.4.resolved_size, self.items.4.is_empty(), self.spacing);
        let y5 = self.alignment.align(height, dimension_to_i32(layout.sublayouts.5.resolved_size.height));
        let r5 = self.items.5.render_tree(&layout.sublayouts.5, origin.add(Point::new(x, y5)), &henv);
        x = advance(x, layout.sublayouts.5.resolved_size, self.items.5.is_empty(), self.spacing);
        let y6 = self.alignment.align(height, dimension_to_i32(layout.sublayouts.6.resolved_size.height));
        let r6 = self.items.6.render_tree(&layout.sublayouts.6, origin.add(Point::new(x, y6)), &henv);
        x = advance(x, layout.sublayouts.6.resolved_size, self.items.6.is_empty(), self.spacing);
        let y7 = self.alignment.align(height, dimension_to_i32(layout.sublayouts.7.resolved_size.height));
        let r7 = self.items.7.render_tree(&layout.sublayouts.7, origin.add(Point::new(x, y7)), &henv);
        x = advance(x, layout.sublayouts.7.resolved_size, self.items.7.is_empty(), self.spacing);
        let y8 = self.alignment.align(height, dimension_to_i32(layout.sublayouts.8.resolved_size.height));
        let r8 = self.items.8.render_tree(&layout.sublayouts.8, origin.add(Point::new(x, y8)), &henv);
        x = advance(x, layout.sublayouts.8.resolved_size, self.items.8.is_empty(), self.spacing);
        let y9 = self.alignment.align(height, dimension_to_i32(layout.sublayouts.9.resolved_size.height));
        let r9 = self.items.9.render_tree(&layout.sublayouts.9, origin.add(Point::new(x, y9)), &henv);
        (r0, r1, r2, r3, r4, r5, r6, r7, r8, r9)
    }
}

} // verus!
