//! Rewrites the events a view receives.

use vstd::prelude::*;
use core::marker::PhantomData;
use crate::event::Event;
use crate::focus::FocusResult;
use crate::layout::{DefaultEnvironment, ResolvedLayout};
use crate::primitives::{Point, ProposedDimensions};
use crate::view::ViewLayout;

verus! {

/// What to do with an event, as the mapping function decides.
#[derive(Debug, Clone, Copy, PartialEq, Eq, Structural)]
pub enum Mapping {
    /// Pass the event on unchanged.
    Passthrough,
    /// Pass this event on instead.
    Replace(Event),
    /// Pass the event on, and this one if the first is not handled.
    Fallback(Event),
    /// Let another view handle the event.
    Defer,
    /// Take the event without passing it on.
    Handled,
}

/// A view whose events are rewritten by a mapping function before its child sees them.
#[derive(Debug)]
pub struct MapEvent<V, F, C, I> {
    pub inner: V,
    pub mapping: F,
    pub _state: PhantomData<I>,
    pub _captures: PhantomData<C>,
}

impl<V, F, C, I> MapEvent<V, F, C, I> {
    /// `inner` with its events rewritten by `mapping`.
    pub fn new(inner: V, mapping: F) -> (r: Self)
        ensures
            r.inner == inner,
            r.mapping == mapping,
    {
        MapEvent { inner, mapping, _state: PhantomData, _captures: PhantomData }
    }
}

/// What a mapped view does with an event once the mapping has decided.
#[derive(Debug, Clone, Copy, PartialEq, Eq, Structural)]
pub enum MapRoute {
    /// Pass this event to the child and answer what it answers.
    Child(Event),
    /// Pass the first event to the child; if it is not handled, answer what the child
    /// answers to the second.
    ChildOr(Event, Event),
    /// Answer this without the child.
    Answer(FocusResult),
}

/// What a mapped view does with `event` under `mapping`.
pub open spec fn map_route(event: Event, mapping: Mapping) -> MapRoute {
    match mapping {
        Mapping::Passthrough => MapRoute::Child(event),
        Mapping::Replace(e) => MapRoute::Child(e),
        Mapping::Fallback(e) => MapRoute::ChildOr(event, e),
        Mapping::Defer => MapRoute::Answer(FocusResult::Deferred),
        Mapping::Handled => MapRoute::Answer(FocusResult::HandledUnfocused),
    }
}

/// What a mapped view does with `event` under `mapping`.
pub fn route(event: &Event, mapping: Mapping) -> (r: MapRoute)
    ensures
        r == map_route(*event, mapping),
{
    match mapping {
        Mapping::Passthrough => MapRoute::Child(*event),
        Mapping::Replace(e) => MapRoute::Child(e),
        Mapping::Fallback(e) => MapRoute::ChildOr(*event, e),
        Mapping::Defer => MapRoute::Answer(FocusResult::Deferred),
        Mapping::Handled => MapRoute::Answer(FocusResult::HandledUnfocused),
    }
}

impl<V: ViewLayout, F, C, I> ViewLayout for MapEvent<V, F, C, I> {
    type Sublayout = V::Sublayout;
    type Renderables = V::Renderables;

    open spec fn spec_priority(&self) -> i8 { self.inner.spec_priority() }
    open spec fn spec_is_empty(&self) -> bool { self.inner.spec_is_empty() }

    open spec fn admits(&self, offer: ProposedDimensions, env: DefaultEnvironment) -> bool {
        self.inner.admits(offer, env)
    }

    open spec fn spec_layout(&self, offer: ProposedDimensions, env: DefaultEnvironment) -> ResolvedLayout<V::Sublayout> {
        self.inner.spec_layout(offer, env)
    }

    open spec fn render_admits(&self, layout: ResolvedLayout<V::Sublayout>, origin: Point, env: DefaultEnvironment) -> bool {
        self.inner.render_admits(layout, origin, env)
    }

    open spec fn spec_render_tree(&self, layout: ResolvedLayout<V::Sublayout>, origin: Point, env: DefaultEnvironment) -> V::Renderables {
        self.inner.spec_render_tree(layout, origin, env)
    }

    fn priority(&self) -> (r: i8) { self.inner.priority() }

    fn is_empty(&self) -> (r: bool) { self.inner.is_empty() }

    fn layout(&self, offer: &ProposedDimensions, env: &DefaultEnvironment) -> (r: ResolvedLayout<V::Sublayout>) {
        self.inner.layout(offer, env)
    }

    fn render_tree(&self, layout: &ResolvedLayout<V::Sublayout>, origin: Point, env: &DefaultEnvironment) -> (r: V::Renderables) {
        self.inner.render_tree(layout, origin, env)
    }
}

} // verus!
