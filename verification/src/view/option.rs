//! An optional view: present views are laid out and rendered, absent ones take no space.

use vstd::prelude::*;
use crate::layout::{DefaultEnvironment, ResolvedLayout};
use crate::primitives::{Dimension, Dimensions, Point, ProposedDimensions};
use crate::render::{dimensions_to_size, size_of, TransitionOption};
use crate::view::ViewLayout;

verus! {

impl<V: ViewLayout> ViewLayout for Option<V> {
    type Sublayout = Option<ResolvedLayout<V::Sublayout>>;
    type Renderables = TransitionOption<V::Renderables>;

    open spec fn spec_priority(&self) -> i8 {
        match self { Some(v) => v.spec_priority(), None => i8::MIN }
    }

    open spec fn spec_is_empty(&self) -> bool {
        match self { Some(v) => v.spec_is_empty(), None => true }
    }

    open spec fn admits(&self, offer: ProposedDimensions, env: DefaultEnvironment) -> bool {
        match self { Some(v) => v.admits(offer, env), None => true }
    }

    open spec fn spec_layout(&self, offer: ProposedDimensions, env: DefaultEnvironment) -> ResolvedLayout<Option<ResolvedLayout<V::Sublayout>>> {
        match self {
            Some(v) => {
                let child = v.spec_layout(offer, env);
                ResolvedLayout { sublayouts: Some(child), resolved_size: child.resolved_size }
            },
            None => ResolvedLayout { sublayouts: None, resolved_size: Dimensions { width: Dimension(0), height: Dimension(0) } },
        }
    }

    /// A present view renders only the layout of a present view: layouts cannot be reused
    /// across branches.
    open spec fn render_admits(&self, layout: ResolvedLayout<Option<ResolvedLayout<V::Sublayout>>>, origin: Point, env: DefaultEnvironment) -> bool {
        match (self, layout.sublayouts) {
            (Some(v), Some(l)) => v.render_admits(l, origin, env),
            (None, _) => true,
            _ => false,
        }
    }

    open spec fn spec_render_tree(&self, layout: ResolvedLayout<Option<ResolvedLayout<V::Sublayout>>>, origin: Point, env: DefaultEnvironment) -> TransitionOption<V::Renderables> {
        match (self, layout.sublayouts) {
            (Some(v), Some(l)) => TransitionOption::Present {
                subtree: v.spec_render_tree(l, origin, env),
                size: size_of(l.resolved_size),
            },
            _ => TransitionOption::Absent,
        }
    }

    fn priority(&self) -> (r: i8) {
        match self { Some(v) => v.priority(), None => i8::MIN }
    }

    fn is_empty(&self) -> (r: bool) {
        match self { Some(v) => v.is_empty(), None => true }
    }

    fn layout(&self, offer: &ProposedDimensions, env: &DefaultEnvironment) -> (r: ResolvedLayout<Option<ResolvedLayout<V::Sublayout>>>) {
        match self {
            Some(v) => {
                let child_layout = v.layout(offer, env);
                let size = child_layout.resolved_size;
                ResolvedLayout { sublayouts: Some(child_layout), resolved_size: size }
            },
            None => ResolvedLayout { sublayouts: None, resolved_size: Dimensions::zero() },
        }
    }

    fn render_tree(&self, layout: &ResolvedLayout<Option<ResolvedLayout<V::Sublayout>>>, origin: Point, env: &DefaultEnvironment) -> (r: TransitionOption<V::Renderables>) {
        match (self, &layout.sublayouts) {
            (Some(v), Some(l0)) => TransitionOption::Present {
                subtree: v.render_tree(l0, origin, env),
                size: dimensions_to_size(l0.resolved_size),
            },
            _ => TransitionOption::Absent,
        }
    }
}

} // verus!
