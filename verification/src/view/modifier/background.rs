//! Content drawn behind a view, laid out within the view's bounds.

use vstd::prelude::*;
use crate::layout::{
    align_in_frame, aligned_offset, alignment_h, alignment_v, Alignment, DefaultEnvironment,
    ResolvedLayout,
};
use crate::primitives::{point_add_fits, Dimensions, Point, ProposedDimension, ProposedDimensions};
use crate::view::ViewLayout;
use crate::event::{answer_layers, layered_answer, EventResult};

verus! {

/// A view that uses the layout of the foreground view, and renders the background
/// behind it.
#[derive(Debug, Clone)]
pub struct BackgroundView<T, U> {
    pub foreground: T,
    pub background: U,
    pub alignment: Alignment,
}

impl<T, U> BackgroundView<T, U> {
    /// Hands an event to the layers, foreground first: given the foreground's answer, and
    /// the background's once it was asked, the view's answer, or nothing while the
    /// background must still be asked. The background is asked only when the foreground
    /// did not handle the event.
    pub fn handle_event(&self, foreground: EventResult, background: Option<EventResult>) -> (r: Option<EventResult>)
        ensures
            r == layered_answer(foreground, background),
    {
        answer_layers(foreground, background)
    }
}

impl<T, U> BackgroundView<T, U> {
    /// Draws `background` behind `foreground`, aligned within the foreground's bounds.
    pub fn new(foreground: T, background: U, alignment: Alignment) -> (r: Self)
        ensures
            r == (BackgroundView { foreground, background, alignment }),
    {
        BackgroundView { foreground, background, alignment }
    }
}

/// The proposal of exactly a resolved size.
pub open spec fn exact_size_offer(size: Dimensions) -> ProposedDimensions {
    ProposedDimensions {
        width: ProposedDimension::Exact(size.width.0),
        height: ProposedDimension::Exact(size.height.0),
    }
}

impl<T: ViewLayout, U: ViewLayout> BackgroundView<T, U> {
    /// The layout of the background within a foreground of the given size.
    pub open spec fn background_layout(&self, size: Dimensions, env: DefaultEnvironment) -> ResolvedLayout<U::Sublayout> {
        self.background.spec_layout(exact_size_offer(size), env)
    }

    /// Where the background is placed for a foreground layout at `origin`.
    pub open spec fn background_origin(&self, size: Dimensions, origin: Point, env: DefaultEnvironment) -> Point {
        let offset = aligned_offset(alignment_h(self.alignment), alignment_v(self.alignment), size, self.background_layout(size, env).resolved_size);
        Point { x: (origin.x + offset.x) as i32, y: (origin.y + offset.y) as i32 }
    }
}

impl<T: ViewLayout, U: ViewLayout> ViewLayout for BackgroundView<T, U> {
    type Sublayout = ResolvedLayout<T::Sublayout>;
    type Renderables = (U::Renderables, T::Renderables);

    open spec fn spec_priority(&self) -> i8 { self.foreground.spec_priority() }
    open spec fn spec_is_empty(&self) -> bool { self.foreground.spec_is_empty() }

    open spec fn admits(&self, offer: ProposedDimensions, env: DefaultEnvironment) -> bool {
        self.foreground.admits(offer, env)
    }

    open spec fn spec_layout(&self, offer: ProposedDimensions, env: DefaultEnvironment) -> ResolvedLayout<ResolvedLayout<T::Sublayout>> {
        let fg = self.foreground.spec_layout(offer, env);
        ResolvedLayout { sublayouts: fg, resolved_size: fg.resolved_size }
    }

    open spec fn render_admits(&self, layout: ResolvedLayout<ResolvedLayout<T::Sublayout>>, origin: Point, env: DefaultEnvironment) -> bool {
        let size = layout.resolved_size;
        let offset = aligned_offset(alignment_h(self.alignment), alignment_v(self.alignment), size, self.background_layout(size, env).resolved_size);
        &&& self.background.admits(exact_size_offer(size), env)
        &&& point_add_fits(origin, offset)
        &&& self.background.render_admits(self.background_layout(size, env), self.background_origin(size, origin, env), env)
        &&& self.foreground.render_admits(layout.sublayouts, origin, env)
    }

    open spec fn spec_render_tree(&self, layout: ResolvedLayout<ResolvedLayout<T::Sublayout>>, origin: Point, env: DefaultEnvironment) -> (U::Renderables, T::Renderables) {
        let size = layout.resolved_size;
        (
            self.background.spec_render_tree(self.background_layout(size, env), self.background_origin(size, origin, env), env),
            self.foreground.spec_render_tree(layout.sublayouts, origin, env),
        )
    }

    fn priority(&self) -> (r: i8) { self.foreground.priority() }

    fn is_empty(&self) -> (r: bool) { self.foreground.is_empty() }

    fn layout(&self, offer: &ProposedDimensions, env: &DefaultEnvironment) -> (r: ResolvedLayout<ResolvedLayout<T::Sublayout>>) {
        let foreground_layout = self.foreground.layout(offer, env);
        let foreground_size = foreground_layout.resolved_size;
        ResolvedLayout { sublayouts: foreground_layout, resolved_size: foreground_size }
    }

    fn render_tree(&self, layout: &ResolvedLayout<ResolvedLayout<T::Sublayout>>, origin: Point, env: &DefaultEnvironment) -> (r: (U::Renderables, T::Renderables)) {
        let foreground_size = layout.resolved_size;
        // Propose the foreground size to the background
        let background_offer = ProposedDimensions {
            width: ProposedDimension::Exact(foreground_size.width.0),
            height: ProposedDimension::Exact(foreground_size.height.0),
        };
        let background_layout = self.background.layout(&background_offer, env);
        let offset = align_in_frame(
            self.alignment.horizontal(),
            self.alignment.vertical(),
            layout.resolved_size,
            background_layout.resolved_size,
        );
        let new_origin = origin.add(offset);
        (
            self.background.render_tree(&background_layout, new_origin, env),
            self.foreground.render_tree(&layout.sublayouts, origin, env),
        )
    }
}

} // verus!
