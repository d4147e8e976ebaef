//! Content drawn on top of a view, laid out within the view's bounds.

use vstd::prelude::*;
use crate::layout::{
    align_in_frame, aligned_offset, alignment_h, alignment_v, Alignment, DefaultEnvironment,
    ResolvedLayout,
};
use crate::primitives::{point_add_fits, Point, ProposedDimension, ProposedDimensions};
use crate::view::modifier::background::exact_size_offer;
use crate::view::ViewLayout;
use crate::event::{answer_layers, layered_answer, EventResult};

verus! {

/// A view that uses the layout of the modified view, rendering the overlay on top of it.
#[derive(Debug, Clone)]
pub struct OverlayView<T, U> {
    pub foreground: T,
    pub overlay: U,
    pub alignment: Alignment,
}

impl<T, U> OverlayView<T, U> {
    /// Hands an event to the layers, overlay first as it is on top: given the overlay's
    /// answer, and the foreground's once it was asked, the view's answer, or nothing while
    /// the foreground must still be asked. The foreground is asked only when the overlay
    /// did not handle the event.
    pub fn handle_event(&self, overlay: EventResult, foreground: Option<EventResult>) -> (r: Option<EventResult>)
        ensures
            r == layered_answer(overlay, foreground),
    {
        answer_layers(overlay, foreground)
    }
}

impl<T, U> OverlayView<T, U> {
    /// Draws `overlay` over `foreground`, aligned within the foreground's bounds.
    pub fn new(foreground: T, overlay: U, alignment: Alignment) -> (r: Self)
        ensures
            r == (OverlayView { foreground, overlay, alignment }),
    {
        OverlayView { foreground, overlay, alignment }
    }
}

impl<T: ViewLayout, U: ViewLayout> OverlayView<T, U> {
    /// Where the overlay is placed for a layout at `origin`.
    pub open spec fn overlay_origin(&self, layout: ResolvedLayout<(ResolvedLayout<T::Sublayout>, ResolvedLayout<U::Sublayout>)>, origin: Point) -> Point {
        let offset = aligned_offset(alignment_h(self.alignment), alignment_v(self.alignment), layout.resolved_size, layout.sublayouts.1.resolved_size);
        Point { x: (origin.x + offset.x) as i32, y: (origin.y + offset.y) as i32 }
    }
}

impl<T: ViewLayout, U: ViewLayout> ViewLayout for OverlayView<T, U> {
    type Sublayout = (ResolvedLayout<T::Sublayout>, ResolvedLayout<U::Sublayout>);
    type Renderables = (T::Renderables, U::Renderables);

    open spec fn spec_priority(&self) -> i8 { self.foreground.spec_priority() }
    open spec fn spec_is_empty(&self) -> bool { self.foreground.spec_is_empty() }

    open spec fn admits(&self, offer: ProposedDimensions, env: DefaultEnvironment) -> bool {
        &&& self.foreground.admits(offer, env)
        &&& self.overlay.admits(exact_size_offer(self.foreground.spec_layout(offer, env).resolved_size), env)
    }

    open spec fn spec_layout(&self, offer: ProposedDimensions, env: DefaultEnvironment) -> ResolvedLayout<(ResolvedLayout<T::Sublayout>, ResolvedLayout<U::Sublayout>)> {
        let fg = self.foreground.spec_layout(offer, env);
        let ov = self.overlay.spec_layout(exact_size_offer(fg.resolved_size), env);
        ResolvedLayout { sublayouts: (fg, ov), resolved_size: fg.resolved_size }
    }

    open spec fn render_admits(&self, layout: ResolvedLayout<(ResolvedLayout<T::Sublayout>, ResolvedLayout<U::Sublayout>)>, origin: Point, env: DefaultEnvironment) -> bool {
        let offset = aligned_offset(alignment_h(self.alignment), alignment_v(self.alignment), layout.resolved_size, layout.sublayouts.1.resolved_size);
        &&& point_add_fits(origin, offset)
        &&& self.foreground.render_admits(layout.sublayouts.0, origin, env)
        &&& self.overlay.render_admits(layout.sublayouts.1, self.overlay_origin(layout, origin), env)
    }

    open spec fn spec_render_tree(&self, layout: ResolvedLayout<(ResolvedLayout<T::Sublayout>, ResolvedLayout<U::Sublayout>)>, origin: Point, env: DefaultEnvironment) -> (T::Renderables, U::Renderables) {
        (
            self.foreground.spec_render_tree(layout.sublayouts.0, origin, env),
            self.overlay.spec_render_tree(layout.sublayouts.1, self.overlay_origin(layout, origin), env),
        )
    }

    fn priority(&self) -> (r: i8) { self.foreground.priority() }

    fn is_empty(&self) -> (r: bool) { self.foreground.is_empty() }

    fn layout(&self, offer: &ProposedDimensions, env: &DefaultEnvironment) -> (r: ResolvedLayout<(ResolvedLayout<T::Sublayout>, ResolvedLayout<U::Sublayout>)>) {
        let foreground_layout = self.foreground.layout(offer, env);
        let foreground_size = foreground_layout.resolved_size;
        // Propose the foreground size to the overlay
        let overlay_offer = ProposedDimensions {
            width: ProposedDimension::Exact(foreground_size.width.0),
            height: ProposedDimension::Exact(foreground_size.height.0),
        };
        let overlay_layout = self.overlay.layout(&overlay_offer, env);
        ResolvedLayout { sublayouts: (foreground_layout, overlay_layout), resolved_size: foreground_size }
    }

    fn render_tree(&self, layout: &ResolvedLayout<(ResolvedLayout<T::Sublayout>, ResolvedLayout<U::Sublayout>)>, origin: Point, env: &DefaultEnvironment) -> (r: (T::Renderables, U::Renderables)) {
        let offset = align_in_frame(
            self.alignment.horizontal(),
            self.alignment.vertical(),
            layout.resolved_size,
            layout.sublayouts.1.resolved_size,
        );
        let new_origin = origin.add(offset);
        (
            self.foreground.render_tree(&layout.sublayouts.0, origin, env),
            self.overlay.render_tree(&layout.sublayouts.1, new_origin, env),
        )
    }
}

} // verus!
