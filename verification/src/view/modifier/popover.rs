//! A view shown centered over another while a value is present, taking focus and events
//! from it.

use vstd::prelude::*;
use crate::event::Event;
use crate::focus::{BoundaryBehavior, FocusAction, FocusDirection, FocusResult};
use crate::layout::{
    align_in_frame, aligned_offset, DefaultEnvironment, HorizontalAlignment, ResolvedLayout, VerticalAlignment,
};
use crate::primitives::{point_add_fits, Point, ProposedDimension, ProposedDimensions};
use crate::render::{size_of, Animate, Animation, AnimationCurve, TransitionOption};
use crate::view::modifier::background::exact_size_offer;
use crate::view::ViewLayout;

verus! {

/// Whether a popover stays when its overlay is blurred.
#[derive(Debug, Clone, Copy, PartialEq, Eq, Structural)]
pub enum Dismissal {
    /// Dismiss the popover; focus returns to the view underneath.
    Dismiss,
    /// Keep the overlay focused.
    Retain,
}

/// A handler called when a popover's overlay is blurred; it decides whether the
/// popover is dismissed.
pub trait OnBlur<Captures> {
    /// Called when the overlay is blurred.
    fn on_blur(&self, captures: &mut Captures) -> Dismissal;
}

/// A blur handler that never dismisses the popover.
#[derive(Debug, Clone, Copy, PartialEq, Eq, Structural)]
pub struct NoDismiss;

impl<C> OnBlur<C> for NoDismiss {
    fn on_blur(&self, captures: &mut C) -> Dismissal {
        Dismissal::Retain
    }
}

/// A view with an optional overlay shown centered over it.
#[derive(Debug, Clone)]
pub struct Popover<Inner, Overlay, Action> {
    pub inner: Inner,
    pub overlay: Option<Overlay>,
    pub boundary_behavior: BoundaryBehavior,
    pub on_blur: Action,
}

/// The focus of a popover: that of the view underneath, kept throughout, and that of
/// the overlay while it is shown.
#[derive(Debug, Clone, PartialEq, Eq)]
pub struct PopoverFocusTree<T, U> {
    pub inner: T,
    pub overlay: Option<U>,
}

/// The state of a popover: that of the view underneath and that of the overlay.
#[derive(Debug, Clone, PartialEq, Eq)]
pub struct PopoverState<T, U> {
    pub inner_state: T,
    pub overlay_state: Option<U>,
}

impl<Inner, Overlay> Popover<Inner, Overlay, NoDismiss> {
    /// A popover over `inner` showing the overlay that `view_fn` builds from `value`
    /// while there is one.
    pub fn new<T, ViewFn: FnOnce(&T) -> Overlay>(inner: Inner, value: Option<&T>, view_fn: ViewFn) -> (r: Self)
        requires
            value matches Some(v) ==> call_requires(view_fn, (v,)),
        ensures
            r.inner == inner,
            r.boundary_behavior == BoundaryBehavior::Stop,
            r.on_blur == NoDismiss,
            value is None ==> r.overlay is None,
            value matches Some(v) ==> (r.overlay matches Some(o) && call_ensures(view_fn, (v,), o)),
    {
        let overlay = match value {
            Some(v) => Some(view_fn(v)),
            None => None,
        };
        Popover { inner, overlay, boundary_behavior: BoundaryBehavior::Stop, on_blur: NoDismiss }
    }
}

impl<Inner, Overlay, Action> Popover<Inner, Overlay, Action> {
    /// The state of the popover before any event, from the state of the view underneath
    /// and the state the overlay starts in: the overlay's is kept only while there is an
    /// overlay.
    pub fn build_state<T, U>(&self, inner_state: T, overlay_state: U) -> (r: PopoverState<T, U>)
        ensures
            r.inner_state == inner_state,
            r.overlay_state == (if self.overlay is Some { Some(overlay_state) } else { None::<U> }),
    {
        let kept = match &self.overlay {
            Some(_) => Some(overlay_state),
            None => None,
        };
        PopoverState { inner_state, overlay_state: kept }
    }

    /// The same popover with focus moving past the ends of the overlay as `behavior` says.
    pub fn with_boundary_behavior(self, behavior: BoundaryBehavior) -> (r: Self)
        ensures
            r == (Popover { boundary_behavior: behavior, ..self }),
    {
        Popover { boundary_behavior: behavior, ..self }
    }

    /// The same popover with `on_blur` deciding whether a blur dismisses it.
    pub fn on_blur<F>(self, on_blur: F) -> (r: Popover<Inner, Overlay, F>)
        ensures
            r.inner == self.inner,
            r.overlay == self.overlay,
            r.boundary_behavior == self.boundary_behavior,
            r.on_blur == on_blur,
    {
        Popover { inner: self.inner, overlay: self.overlay, boundary_behavior: self.boundary_behavior, on_blur }
    }
}

/// Where a popover sends an event.
#[derive(Debug, Clone, Copy, PartialEq, Eq, Structural)]
pub enum PopoverRoute {
    /// To the overlay.
    Overlay,
    /// Through the overlay's focus handling (see [`overlay_focus_step`]).
    OverlayFocus,
    /// To the view underneath.
    Inner,
    /// Nowhere yet: the overlay is shown but not drawn.
    Deferred,
}

/// Where a popover sends an event, given whether an overlay is shown and drawn.
pub open spec fn popover_route(event: Event, overlay_present: bool, overlay_drawn: bool) -> PopoverRoute {
    if event is Focus {
        if overlay_present { PopoverRoute::OverlayFocus } else { PopoverRoute::Inner }
    } else if overlay_present {
        if overlay_drawn { PopoverRoute::Overlay } else { PopoverRoute::Deferred }
    } else {
        PopoverRoute::Inner
    }
}

/// What a popover does once its overlay has answered a focus request it was passed.
#[derive(Debug, Clone, Copy, PartialEq, Eq, Structural)]
pub enum OverlayFocusStep {
    /// Answer this.
    Answer(FocusResult),
    /// Ask the blur handler whether to dismiss (see [`dismissal_answer`]).
    AskOnBlur,
    /// Reset the overlay's focus to its first element (forward) or last (backward),
    /// pass it a focus request from that direction and answer what it answers.
    Refocus(FocusDirection),
}

/// What a popover does once its overlay has answered `result` to `action`: an answer
/// other than deferral stands; otherwise a blur asks the handler, a teardown is deferred
/// and any other move takes focus back into the overlay from its direction.
pub open spec fn overlay_focus_step(action: FocusAction, result: FocusResult) -> OverlayFocusStep {
    if !(result is Deferred) {
        OverlayFocusStep::Answer(result)
    } else {
        match action {
            FocusAction::Blur => OverlayFocusStep::AskOnBlur,
            FocusAction::Teardown => OverlayFocusStep::Answer(result),
            FocusAction::Next | FocusAction::Focus(FocusDirection::Forward) => OverlayFocusStep::Refocus(FocusDirection::Forward),
            _ => OverlayFocusStep::Refocus(FocusDirection::Backward),
        }
    }
}

/// The answer to a blur of the overlay once the handler has decided, and whether the
/// overlay's focus is dropped and the view rebuilt.
pub open spec fn dismissal_answer(d: Dismissal) -> (FocusResult, bool) {
    match d {
        Dismissal::Dismiss => (FocusResult::HandledFocused, true),
        Dismissal::Retain => (FocusResult::HandledUnfocused, false),
    }
}

/// The value held, or `d` where there is none.
pub open spec fn present_or<X>(o: Option<X>, d: X) -> X {
    match o {
        Some(x) => x,
        None => d,
    }
}

/// Gives `slot` the value `d` if it holds none, and keeps what it holds otherwise.
fn keep_or_insert<X>(slot: &mut Option<X>, d: X)
    ensures
        *final(slot) == Some(present_or(*old(slot), d)),
{
    if slot.is_none() {
        *slot = Some(d);
    }
}

impl<Inner, Overlay, Action> Popover<Inner, Overlay, Action> {
    /// Routes an event, given whether the overlay has been drawn.
    ///
    /// When the event goes to the overlay, or through the overlay's focus handling, the
    /// overlay first gets a focus and a state if it has none yet: `first_focus`, the
    /// overlay's focus on its first element, and `initial_state`, the state it starts in.
    /// A focus request while no overlay is shown drops the overlay's focus and state.
    pub fn handle_event<T, U, S, W>(
        &self,
        event: &Event,
        overlay_drawn: bool,
        state: &mut PopoverState<S, W>,
        focus: &mut PopoverFocusTree<T, U>,
        first_focus: U,
        initial_state: W,
    ) -> (r: PopoverRoute)
        ensures
            r == popover_route(*event, self.overlay is Some, overlay_drawn),
            final(state).inner_state == old(state).inner_state,
            final(focus).inner == old(focus).inner,
            (r == PopoverRoute::Overlay || r == PopoverRoute::OverlayFocus) ==> {
                &&& final(focus).overlay == Some(present_or(old(focus).overlay, first_focus))
                &&& final(state).overlay_state == Some(present_or(old(state).overlay_state, initial_state))
            },
            (event is Focus && self.overlay is None) ==> final(state).overlay_state is None && final(focus).overlay is None,
            (r == PopoverRoute::Deferred || (r == PopoverRoute::Inner && !(event is Focus))) ==> *final(state) == *old(state) && *final(focus) == *old(focus),
    {
        if let Event::Focus { .. } = event {
            if self.overlay.is_some() {
                keep_or_insert(&mut focus.overlay, first_focus);
                keep_or_insert(&mut state.overlay_state, initial_state);
                return PopoverRoute::OverlayFocus;
            }
            focus.overlay = None;
            state.overlay_state = None;
            return PopoverRoute::Inner;
        }
        match (&self.overlay, overlay_drawn) {
            (Some(_), true) => {
                keep_or_insert(&mut state.overlay_state, initial_state);
                keep_or_insert(&mut focus.overlay, first_focus);
                PopoverRoute::Overlay
            },
            (Some(_), false) => PopoverRoute::Deferred,
            _ => PopoverRoute::Inner,
        }
    }

    /// What to do once the overlay has answered `result` to the focus request `action`.
    pub fn handle_overlay_focus_event(&self, action: FocusAction, result: FocusResult) -> (r: OverlayFocusStep)
        ensures
            r == overlay_focus_step(action, result),
    {
        if !matches!(result, FocusResult::Deferred) {
            return OverlayFocusStep::Answer(result);
        }
        match action {
            FocusAction::Blur => OverlayFocusStep::AskOnBlur,
            FocusAction::Teardown => OverlayFocusStep::Answer(result),
            _ => {
                let is_forward = matches!(action, FocusAction::Next | FocusAction::Focus(FocusDirection::Forward));
                OverlayFocusStep::Refocus(if is_forward { FocusDirection::Forward } else { FocusDirection::Backward })
            },
        }
    }

    /// Applies the blur handler's decision: a dismissal drops the overlay's focus.
    /// Returns the answer and whether the view must be rebuilt.
    pub fn apply_dismissal<T, U>(&self, d: Dismissal, focus: &mut PopoverFocusTree<T, U>) -> (r: (FocusResult, bool))
        ensures
            r == dismissal_answer(d),
            final(focus).inner == old(focus).inner,
            d == Dismissal::Dismiss ==> final(focus).overlay is None,
            d == Dismissal::Retain ==> final(focus).overlay == old(focus).overlay,
    {
        match d {
            Dismissal::Dismiss => {
                focus.overlay = None;
                (FocusResult::HandledFocused, true)
            },
            Dismissal::Retain => (FocusResult::HandledUnfocused, false),
        }
    }
}

/// A blurred overlay that defers the blur is dismissed exactly when the handler says
/// so, and a teardown never reaches the handler.
pub proof fn lemma_blur_reaches_handler(action: FocusAction)
    ensures
        overlay_focus_step(action, FocusResult::Deferred) == OverlayFocusStep::AskOnBlur <==> action == FocusAction::Blur,
        dismissal_answer(Dismissal::Dismiss).1 && !dismissal_answer(Dismissal::Retain).1,
{
}

impl<Inner: ViewLayout, Overlay: ViewLayout, Action> Popover<Inner, Overlay, Action> {
    /// The layout of the overlay over a view of the given layout.
    pub open spec fn overlay_layout(&self, o: Overlay, layout: ResolvedLayout<ResolvedLayout<Inner::Sublayout>>, env: DefaultEnvironment) -> ResolvedLayout<Overlay::Sublayout> {
        o.spec_layout(exact_size_offer(layout.resolved_size), env)
    }

    /// Where the overlay is drawn over a view of the given layout at `origin`.
    pub open spec fn overlay_origin(&self, o: Overlay, layout: ResolvedLayout<ResolvedLayout<Inner::Sublayout>>, origin: Point, env: DefaultEnvironment) -> Point {
        let offset = aligned_offset(HorizontalAlignment::Center, VerticalAlignment::Center, layout.resolved_size, self.overlay_layout(o, layout, env).resolved_size);
        Point { x: (origin.x + offset.x) as i32, y: (origin.y + offset.y) as i32 }
    }
}

impl<Inner: ViewLayout, Overlay: ViewLayout, Action> ViewLayout for Popover<Inner, Overlay, Action> {
    type Sublayout = ResolvedLayout<Inner::Sublayout>;
    type Renderables = (Inner::Renderables, Animate<TransitionOption<Overlay::Renderables>, bool>);

    open spec fn spec_priority(&self) -> i8 { self.inner.spec_priority() }
    open spec fn spec_is_empty(&self) -> bool { self.inner.spec_is_empty() }

    open spec fn admits(&self, offer: ProposedDimensions, env: DefaultEnvironment) -> bool {
        self.inner.admits(offer, env)
    }

    open spec fn spec_layout(&self, offer: ProposedDimensions, env: DefaultEnvironment) -> ResolvedLayout<ResolvedLayout<Inner::Sublayout>> {
        let l = self.inner.spec_layout(offer, env);
        ResolvedLayout { sublayouts: l, resolved_size: l.resolved_size }
    }

    open spec fn render_admits(&self, layout: ResolvedLayout<ResolvedLayout<Inner::Sublayout>>, origin: Point, env: DefaultEnvironment) -> bool {
        &&& self.inner.render_admits(layout.sublayouts, origin, env)
        &&& self.overlay matches Some(o) ==> {
            &&& o.admits(exact_size_offer(layout.resolved_size), env)
            &&& point_add_fits(origin, aligned_offset(HorizontalAlignment::Center, VerticalAlignment::Center, layout.resolved_size, self.overlay_layout(o, layout, env).resolved_size))
            &&& o.render_admits(self.overlay_layout(o, layout, env), self.overlay_origin(o, layout, origin, env), env)
        }
    }

    open spec fn spec_render_tree(&self, layout: ResolvedLayout<ResolvedLayout<Inner::Sublayout>>, origin: Point, env: DefaultEnvironment) -> (Inner::Renderables, Animate<TransitionOption<Overlay::Renderables>, bool>) {
        let overlay_tree = match self.overlay {
            Some(o) => TransitionOption::Present {
                subtree: o.spec_render_tree(self.overlay_layout(o, layout, env), self.overlay_origin(o, layout, origin, env), env),
                size: size_of(layout.resolved_size),
            },
            None => TransitionOption::Absent,
        };
        (
            self.inner.spec_render_tree(layout.sublayouts, origin, env),
            Animate {
                subtree: overlay_tree,
                animation: Animation { duration_ms: 300, curve: AnimationCurve::EaseOut },
                frame_time_ms: env.app_time_ms,
                value: self.overlay is Some,
            },
        )
    }

    fn priority(&self) -> (r: i8) { self.inner.priority() }

    fn is_empty(&self) -> (r: bool) { self.inner.is_empty() }

    fn layout(&self, offer: &ProposedDimensions, env: &DefaultEnvironment) -> (r: ResolvedLayout<ResolvedLayout<Inner::Sublayout>>) {
        let l = self.inner.layout(offer, env);
        let size = l.resolved_size;
        ResolvedLayout { sublayouts: l, resolved_size: size }
    }

    fn render_tree(&self, layout: &ResolvedLayout<ResolvedLayout<Inner::Sublayout>>, origin: Point, env: &DefaultEnvironment) -> (r: (Inner::Renderables, Animate<TransitionOption<Overlay::Renderables>, bool>)) {
        let inner_tree = self.inner.render_tree(&layout.sublayouts, origin, env);
        let overlay_tree = match &self.overlay {
            Some(o) => {
                let offer = ProposedDimensions::new(
                    ProposedDimension::Exact(layout.resolved_size.width.0),
                    ProposedDimension::Exact(layout.resolved_size.height.0),
                );
                let overlay_layout = o.layout(&offer, env);
                let offset = align_in_frame(
                    HorizontalAlignment::Center,
                    VerticalAlignment::Center,
                    layout.resolved_size,
                    overlay_layout.resolved_size,
                );
                let overlay_origin = origin.add(offset);
                TransitionOption::Present {
                    subtree: o.render_tree(&overlay_layout, overlay_origin, env),
                    size: crate::render::dimensions_to_size(layout.resolved_size),
                }
            },
            None => TransitionOption::Absent,
        };
        (
            inner_tree,
            Animate {
                subtree: overlay_tree,
                animation: Animation::ease_out(300),
                frame_time_ms: env.app_time_ms,
                value: self.overlay.is_some(),
            },
        )
    }
}

} // verus!
