//! A solid background in a given shape, laid out within a view's bounds.

use vstd::prelude::*;
use crate::layout::{
    align_in_frame, aligned_offset, DefaultEnvironment, HorizontalAlignment, ResolvedLayout,
    VerticalAlignment,
};
use crate::primitives::{exact_dimension, point_add_fits, Dimensions, Point, ProposedDimensions};
use crate::render::{HintBackground, ShadeSubtree};
use crate::view::{EventView, ViewLayout};
use crate::focus::FocusResult;
use crate::event::Event;

verus! {

/// A view that uses the layout of the foreground view, rendering a background shape in
/// the given color behind it.
#[derive(Debug, Clone)]
pub struct BackgroundColor<T, C, S> {
    pub foreground: T,
    pub color: C,
    pub background_shape: S,
}

impl<T, C, S> BackgroundColor<T, C, S> {
    /// Draws `background_shape` in `background_color` behind `foreground`.
    pub fn new(foreground: T, background_color: C, background_shape: S) -> (r: Self)
        ensures
            r == (BackgroundColor { foreground, color: background_color, background_shape }),
    {
        BackgroundColor { foreground, color: background_color, background_shape }
    }
}

/// The proposal of a resolved size, an infinite length staying infinite.
pub open spec fn size_offer(size: Dimensions) -> ProposedDimensions {
    ProposedDimensions { width: exact_dimension(size.width), height: exact_dimension(size.height) }
}

impl<T: ViewLayout, C: Copy, S: ViewLayout> BackgroundColor<T, C, S> {
    /// The layout of the background shape for a foreground of the given size.
    pub open spec fn shape_layout(&self, size: Dimensions, env: DefaultEnvironment) -> ResolvedLayout<S::Sublayout> {
        self.background_shape.spec_layout(size_offer(size), env)
    }

    /// Where the background shape is placed, centered on a foreground at `origin`.
    pub open spec fn shape_origin(&self, size: Dimensions, origin: Point, env: DefaultEnvironment) -> Point {
        let offset = aligned_offset(HorizontalAlignment::Center, VerticalAlignment::Center, size, self.shape_layout(size, env).resolved_size);
        Point { x: (origin.x + offset.x) as i32, y: (origin.y + offset.y) as i32 }
    }
}

impl<T: ViewLayout, C: Copy, S: ViewLayout> ViewLayout for BackgroundColor<T, C, S> {
    type Sublayout = ResolvedLayout<T::Sublayout>;
    type Renderables = (ShadeSubtree<C, S::Renderables>, HintBackground<T::Renderables, C>);

    open spec fn spec_priority(&self) -> i8 { self.foreground.spec_priority() }
    open spec fn spec_is_empty(&self) -> bool { self.foreground.spec_is_empty() }

    open spec fn admits(&self, offer: ProposedDimensions, env: DefaultEnvironment) -> bool {
        self.foreground.admits(offer, env)
    }

    open spec fn spec_layout(&self, offer: ProposedDimensions, env: DefaultEnvironment) -> ResolvedLayout<ResolvedLayout<T::Sublayout>> {
        let fg = self.foreground.spec_layout(offer, env);
        ResolvedLayout { sublayouts: fg, resolved_size: fg.resolved_size }
    }

    open spec fn render_admits(&self, layout: ResolvedLayout<ResolvedLayout<T::Sublayout>>, origin: Point, env: DefaultEnvironment) -> bool {
        let size = layout.resolved_size;
        let offset = aligned_offset(HorizontalAlignment::Center, VerticalAlignment::Center, size, self.shape_layout(size, env).resolved_size);
        &&& self.background_shape.admits(size_offer(size), env)
        &&& point_add_fits(origin, offset)
        &&& self.background_shape.render_admits(self.shape_layout(size, env), self.shape_origin(size, origin, env), env)
        &&& self.foreground.render_admits(layout.sublayouts, origin, env)
    }

    open spec fn spec_render_tree(&self, layout: ResolvedLayout<ResolvedLayout<T::Sublayout>>, origin: Point, env: DefaultEnvironment) -> (ShadeSubtree<C, S::Renderables>, HintBackground<T::Renderables, C>) {
        let size = layout.resolved_size;
        (
            ShadeSubtree {
                style: self.color,
                subtree: self.background_shape.spec_render_tree(self.shape_layout(size, env), self.shape_origin(size, origin, env), env),
            },
            HintBackground { subtree: self.foreground.spec_render_tree(layout.sublayouts, origin, env), color: self.color },
        )
    }

    fn priority(&self) -> (r: i8) { self.foreground.priority() }

    fn is_empty(&self) -> (r: bool) { self.foreground.is_empty() }

    fn layout(&self, offer: &ProposedDimensions, env: &DefaultEnvironment) -> (r: ResolvedLayout<ResolvedLayout<T::Sublayout>>) {
        let foreground_layout = self.foreground.layout(offer, env);
        let foreground_size = foreground_layout.resolved_size;
        ResolvedLayout { sublayouts: foreground_layout, resolved_size: foreground_size }
    }

    fn render_tree(&self, layout: &ResolvedLayout<ResolvedLayout<T::Sublayout>>, origin: Point, env: &DefaultEnvironment) -> (r: (ShadeSubtree<C, S::Renderables>, HintBackground<T::Renderables, C>)) {
        let background_layout = self.background_shape.layout(&ProposedDimensions::from_dimensions(layout.resolved_size), env);
        let offset = align_in_frame(
            HorizontalAlignment::Center,
            VerticalAlignment::Center,
            layout.resolved_size,
            background_layout.resolved_size,
        );
        let background_shape = self.background_shape.render_tree(&background_layout, origin.add(offset), env);
        let foreground = self.foreground.render_tree(&layout.sublayouts, origin, env);
        (
            ShadeSubtree { style: self.color, subtree: background_shape },
            HintBackground { subtree: foreground, color: self.color },
        )
    }
}

/// Events go to its foreground, which keeps the state and the focus.
impl<T: EventView, C: Copy, S: ViewLayout> EventView for BackgroundColor<T, C, S> {
    type State = T::State;
    type FocusTree = T::FocusTree;

    open spec fn spec_handle_event(&self, event: Event, state: T::State, focus: T::FocusTree) -> (FocusResult, T::State, T::FocusTree) {
        self.foreground.spec_handle_event(event, state, focus)
    }

    open spec fn spec_first_focus() -> T::FocusTree {
        T::spec_first_focus()
    }

    fn handle_event(&self, event: &Event, state: &mut T::State, focus: &mut T::FocusTree) -> (r: FocusResult) {
        self.foreground.handle_event(event, state, focus)
    }

    fn first_focus() -> (r: T::FocusTree) {
        T::first_focus()
    }
}

} // verus!
