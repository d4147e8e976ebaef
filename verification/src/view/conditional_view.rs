//! A view that lays out and renders one of two views depending on a condition.

use vstd::prelude::*;
use crate::layout::{DefaultEnvironment, ResolvedLayout};
use crate::primitives::{Point, ProposedDimensions};
use crate::render::{size_of, dimensions_to_size, ConditionalTree, Subtree};
use crate::view::ViewLayout;

verus! {

/// Shows `true_view` when `condition` holds and `false_view` otherwise.
#[derive(Debug, Clone, PartialEq)]
pub struct ConditionalView<U, V> {
    pub condition: bool,
    pub true_view: U,
    pub false_view: V,
}

impl<U, V> ConditionalView<U, V> {
    /// Chooses between two views by `condition`.
    pub fn new(condition: bool, true_view: U, false_view: V) -> (r: Self)
        ensures
            r == (ConditionalView { condition, true_view, false_view }),
    {
        ConditionalView { condition, true_view, false_view }
    }
}

/// The layout of the branch that was chosen.
#[derive(Debug, Clone, PartialEq)]
pub enum Conditional<U, V> {
    True(U),
    False(V),
}

impl<U: ViewLayout, V: ViewLayout> ViewLayout for ConditionalView<U, V> {
    type Sublayout = Conditional<ResolvedLayout<U::Sublayout>, ResolvedLayout<V::Sublayout>>;
    type Renderables = ConditionalTree<U::Renderables, V::Renderables>;

    open spec fn spec_priority(&self) -> i8 {
        if self.condition { self.true_view.spec_priority() } else { self.false_view.spec_priority() }
    }

    open spec fn spec_is_empty(&self) -> bool {
        if self.condition { self.true_view.spec_is_empty() } else { self.false_view.spec_is_empty() }
    }

    open spec fn admits(&self, offer: ProposedDimensions, env: DefaultEnvironment) -> bool {
        if self.condition { self.true_view.admits(offer, env) } else { self.false_view.admits(offer, env) }
    }

    open spec fn spec_layout(&self, offer: ProposedDimensions, env: DefaultEnvironment) -> ResolvedLayout<Conditional<ResolvedLayout<U::Sublayout>, ResolvedLayout<V::Sublayout>>> {
        if self.condition {
            let child = self.true_view.spec_layout(offer, env);
            ResolvedLayout { sublayouts: Conditional::True(child), resolved_size: child.resolved_size }
        } else {
            let child = self.false_view.spec_layout(offer, env);
            ResolvedLayout { sublayouts: Conditional::False(child), resolved_size: child.resolved_size }
        }
    }

    open spec fn render_admits(&self, layout: ResolvedLayout<Conditional<ResolvedLayout<U::Sublayout>, ResolvedLayout<V::Sublayout>>>, origin: Point, env: DefaultEnvironment) -> bool {
        match layout.sublayouts {
            Conditional::True(l) => self.true_view.render_admits(l, origin, env),
            Conditional::False(l) => self.false_view.render_admits(l, origin, env),
        }
    }

    open spec fn spec_render_tree(&self, layout: ResolvedLayout<Conditional<ResolvedLayout<U::Sublayout>, ResolvedLayout<V::Sublayout>>>, origin: Point, env: DefaultEnvironment) -> ConditionalTree<U::Renderables, V::Renderables> {
        ConditionalTree {
            subtree: match layout.sublayouts {
                Conditional::True(l) => Subtree::True(self.true_view.spec_render_tree(l, origin, env)),
                Conditional::False(l) => Subtree::False(self.false_view.spec_render_tree(l, origin, env)),
            },
            size: size_of(layout.resolved_size),
        }
    }

    fn priority(&self) -> (r: i8) {
        if self.condition { self.true_view.priority() } else { self.false_view.priority() }
    }

    fn is_empty(&self) -> (r: bool) {
        if self.condition { self.true_view.is_empty() } else { self.false_view.is_empty() }
    }

    fn layout(&self, offer: &ProposedDimensions, env: &DefaultEnvironment) -> (r: ResolvedLayout<Conditional<ResolvedLayout<U::Sublayout>, ResolvedLayout<V::Sublayout>>>) {
        if self.condition {
            let child_layout = self.true_view.layout(offer, env);
            let resolved_size = child_layout.resolved_size;
            ResolvedLayout { sublayouts: Conditional::True(child_layout), resolved_size }
        } else {
            let child_layout = self.false_view.layout(offer, env);
            let resolved_size = child_layout.resolved_size;
            ResolvedLayout { sublayouts: Conditional::False(child_layout), resolved_size }
        }
    }

    fn render_tree(&self, layout: &ResolvedLayout<Conditional<ResolvedLayout<U::Sublayout>, ResolvedLayout<V::Sublayout>>>, origin: Point, env: &DefaultEnvironment) -> (r: ConditionalTree<U::Renderables, V::Renderables>) {
        let subtree = match &layout.sublayouts {
            Conditional::True(true_layout) => Subtree::True(self.true_view.render_tree(true_layout, origin, env)),
            Conditional::False(false_layout) => Subtree::False(self.false_view.render_tree(false_layout, origin, env)),
        };
        ConditionalTree { subtree, size: dimensions_to_size(layout.resolved_size) }
    }
}

} // verus!
