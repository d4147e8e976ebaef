//! A view that takes all the space it is offered and builds its content for that size.

use vstd::prelude::*;
use core::marker::PhantomData;
use crate::layout::{DefaultEnvironment, ResolvedLayout};
use crate::primitives::{resolve_flexible, Dimensions, Point, ProposedDimension, ProposedDimensions, Size};
use crate::render::{dimensions_to_size, size_of, Container};
use crate::view::modifier::background::exact_size_offer;
use crate::view::ViewLayout;

verus! {

/// A view that takes the space it is offered and builds its content from that size.
#[derive(Debug)]
pub struct GeometryReader<ViewFn, Inner> {
    pub inner: ViewFn,
    pub _view_marker: PhantomData<Inner>,
}

impl<ViewFn, Inner> GeometryReader<ViewFn, Inner> {
    /// A reader that builds its content with `inner` from the size it gets.
    pub fn new(inner: ViewFn) -> (r: Self)
        ensures
            r.inner == inner,
    {
        GeometryReader { inner, _view_marker: PhantomData }
    }
}

impl<ViewFn: Fn(Size) -> Inner, Inner: ViewLayout> GeometryReader<ViewFn, Inner> {
    /// The content built for a size.
    pub open spec fn content(&self, size: Size) -> Inner {
        choose|v: Inner| call_ensures(self.inner, (size,), v)
    }

    /// The builder can be called for `size` and builds one view only.
    pub open spec fn deterministic_at(&self, size: Size) -> bool {
        &&& call_requires(self.inner, (size,))
        &&& forall|a: Inner, b: Inner| call_ensures(self.inner, (size,), a) && call_ensures(self.inner, (size,), b) ==> a == b
    }
}

impl<ViewFn: Fn(Size) -> Inner, Inner: ViewLayout> ViewLayout for GeometryReader<ViewFn, Inner> {
    type Sublayout = Dimensions;
    type Renderables = Container<Inner::Renderables>;

    open spec fn spec_priority(&self) -> i8 { 0 }
    open spec fn spec_is_empty(&self) -> bool { false }

    open spec fn admits(&self, offer: ProposedDimensions, env: DefaultEnvironment) -> bool {
        true
    }

    open spec fn spec_layout(&self, offer: ProposedDimensions, env: DefaultEnvironment) -> ResolvedLayout<Dimensions> {
        let size = Dimensions { width: resolve_flexible(offer.width, 0, 1), height: resolve_flexible(offer.height, 0, 1) };
        ResolvedLayout { sublayouts: size, resolved_size: size }
    }

    open spec fn render_admits(&self, layout: ResolvedLayout<Dimensions>, origin: Point, env: DefaultEnvironment) -> bool {
        let size = size_of(layout.sublayouts);
        &&& self.deterministic_at(size)
        &&& self.content(size).admits(exact_size_offer(layout.sublayouts), env)
        &&& self.content(size).render_admits(self.content(size).spec_layout(exact_size_offer(layout.sublayouts), env), origin, env)
    }

    open spec fn spec_render_tree(&self, layout: ResolvedLayout<Dimensions>, origin: Point, env: DefaultEnvironment) -> Container<Inner::Renderables> {
        let size = size_of(layout.sublayouts);
        let view = self.content(size);
        Container { origin, size, child: view.spec_render_tree(view.spec_layout(exact_size_offer(layout.sublayouts), env), origin, env) }
    }

    fn priority(&self) -> (r: i8) { 0 }

    fn is_empty(&self) -> (r: bool) { false }

    fn layout(&self, offer: &ProposedDimensions, env: &DefaultEnvironment) -> (r: ResolvedLayout<Dimensions>) {
        let size = offer.resolve_most_flexible(0, 1);
        ResolvedLayout { sublayouts: size, resolved_size: size }
    }

    fn render_tree(&self, layout: &ResolvedLayout<Dimensions>, origin: Point, env: &DefaultEnvironment) -> (r: Container<Inner::Renderables>) {
        let size = dimensions_to_size(layout.sublayouts);
        let view = (self.inner)(size);
        proof {
            assert(call_ensures(self.inner, (size,), view));
            assert(self.content(size) == view);
        }
        let proposal = ProposedDimensions::new(
            ProposedDimension::Exact(layout.sublayouts.width.0),
            ProposedDimension::Exact(layout.sublayouts.height.0),
        );
        let inner_layout = view.layout(&proposal, env);
        let child = view.render_tree(&inner_layout, origin, env);
        Container { origin, size, child }
    }
}

} // verus!

verus! {

/// A geometry reader takes exactly the size a rectangle takes, whatever its content.
pub proof fn lemma_reader_sized_like_rectangle<ViewFn: Fn(Size) -> Inner, Inner: ViewLayout>(
    reader: GeometryReader<ViewFn, Inner>,
    offer: ProposedDimensions,
    env: DefaultEnvironment,
)
    ensures
        reader.spec_layout(offer, env).resolved_size == crate::view::shape::rectangle::Rectangle.spec_layout(offer, env).resolved_size,
{
}

} // verus!
