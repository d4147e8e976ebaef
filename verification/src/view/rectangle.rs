//! A rectangle that resolves to exactly the space it is offered.

use vstd::prelude::*;
use crate::layout::{DefaultEnvironment, ResolvedLayout};
use crate::primitives::{resolve_flexible, Dimensions, Point, ProposedDimensions};
use crate::render::{dimensions_to_size, size_of, Rect};
use crate::view::ViewLayout;

verus! {

/// A rectangle filled with the foreground style, resolving to the offered size.
#[derive(Debug, Copy, Clone, PartialEq, Eq, Structural)]
pub struct Rectangle;

impl ViewLayout for Rectangle {
    type Sublayout = ();
    type Renderables = Rect;

    open spec fn spec_priority(&self) -> i8 { 0 }
    open spec fn spec_is_empty(&self) -> bool { false }
    open spec fn admits(&self, offer: ProposedDimensions, env: DefaultEnvironment) -> bool { true }

    open spec fn spec_layout(&self, offer: ProposedDimensions, env: DefaultEnvironment) -> ResolvedLayout<()> {
        ResolvedLayout {
            sublayouts: (),
            resolved_size: Dimensions {
                width: resolve_flexible(offer.width, 0, 0),
                height: resolve_flexible(offer.height, 0, 0),
            },
        }
    }

    open spec fn render_admits(&self, layout: ResolvedLayout<()>, origin: Point, env: DefaultEnvironment) -> bool { true }

    open spec fn spec_render_tree(&self, layout: ResolvedLayout<()>, origin: Point, env: DefaultEnvironment) -> Rect {
        Rect { origin, size: size_of(layout.resolved_size) }
    }

    fn priority(&self) -> (r: i8) { 0 }

    fn is_empty(&self) -> (r: bool) { false }

    fn layout(&self, offer: &ProposedDimensions, env: &DefaultEnvironment) -> (r: ResolvedLayout<()>) {
        ResolvedLayout { sublayouts: (), resolved_size: offer.resolve_most_flexible(0, 0) }
    }

    fn render_tree(&self, layout: &ResolvedLayout<()>, origin: Point, env: &DefaultEnvironment) -> (r: Rect) {
        Rect { origin, size: dimensions_to_size(layout.resolved_size) }
    }
}

} // verus!
