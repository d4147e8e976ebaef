//! A view that turns focus moves in a group of its own into page changes of its child.

use vstd::prelude::*;
use crate::event::Event;
use crate::focus::{FocusAction, FocusDirection, FocusGroup, FocusResult};
use crate::layout::{DefaultEnvironment, ResolvedLayout};
use crate::primitives::{Point, ProposedDimensions};
use crate::view::ViewLayout;

verus! {

/// A request to change page.
#[derive(Debug, Clone, Copy, PartialEq, Eq, Structural)]
pub enum PageEvent {
    Next,
    Previous,
}

/// The state a paginated view keeps for its child.
#[derive(Debug, Clone, Copy, PartialEq, Eq, Structural)]
pub struct PaginateState<T> {
    pub child: T,
}

/// The focus of a paginated view: the child's focus, and whether the child holds it.
#[derive(Debug, Clone, Copy, PartialEq, Eq, Structural)]
pub struct PaginateFocusTree<T> {
    pub child: T,
    pub child_holds_focus: bool,
}

/// A view that pages its child: focus moves in `group`, and moves that reach it while
/// the child does not hold focus, become page changes passed to `action`. A forceful
/// view also turns moves in `group` into page changes while the child holds focus.
#[derive(Debug, Clone)]
pub struct Paginate<V, Action> {
    pub view: V,
    pub group: FocusGroup,
    pub forceful: bool,
    pub action: Action,
}

impl<V, Action> Paginate<V, Action> {
    /// Pages `view` with focus moves in `group`, reporting page changes to `action`.
    /// If `forceful`, moves in `group` change page even while the child holds focus;
    /// otherwise they are the child's while it holds focus.
    pub fn new(group: FocusGroup, forceful: bool, action: Action, view: V) -> (r: Self)
        ensures
            r == (Paginate { view, group, forceful, action }),
    {
        Paginate { view, group, forceful, action }
    }
}

/// What a paginated view does with an event before its child answers.
#[derive(Debug, Clone, Copy, PartialEq, Eq, Structural)]
pub enum PaginateStep {
    /// Pass the event on and answer what the child answers.
    Child,
    /// Pass the blur on; if the child does not handle it, the child loses focus and
    /// the view answers that it holds focus.
    ChildBlur,
    /// Pass a forward focus request in the group to the child, which now holds focus,
    /// and answer what it answers.
    ChildFocus(FocusGroup),
    /// Answer without the child.
    Answer(FocusResult),
}

/// The decision a paginated view takes on an event: the step, the page change to
/// report, if any, and whether the view must be rebuilt.
#[derive(Debug, Clone, Copy, PartialEq, Eq, Structural)]
pub struct PaginateDecision {
    pub step: PaginateStep,
    pub page: Option<PageEvent>,
    pub rebuild: bool,
}

/// The page change a focus move asks for, if any.
pub open spec fn page_of(action: FocusAction) -> Option<PageEvent> {
    match action {
        FocusAction::Next => Some(PageEvent::Next),
        FocusAction::Previous => Some(PageEvent::Previous),
        _ => None,
    }
}

/// The decision on an event, and whether the child holds focus afterwards.
///
/// Teardown always goes to the child. Focus moves in the view's own group change page,
/// unless the child holds focus and the view is not forceful. Other focus requests go
/// to the child while it holds focus; otherwise moves change
/// page, a focus request is taken by the view, a select hands focus to the child, and a
/// blur is left to others. Key events are ignored unless the child holds focus; all
/// other events go to the child.
pub open spec fn paginate_decision(group: FocusGroup, forceful: bool, event: Event, holds: bool) -> (PaginateDecision, bool) {
    let child = PaginateDecision { step: PaginateStep::Child, page: None, rebuild: false };
    let answer = |r: FocusResult| PaginateDecision { step: PaginateStep::Answer(r), page: None, rebuild: false };
    match event {
        Event::Focus { action, group: g } => {
            if action == FocusAction::Teardown {
                (child, holds)
            } else if g == group && (forceful || !holds) {
                match page_of(action) {
                    Some(p) => (PaginateDecision { step: PaginateStep::Answer(FocusResult::HandledFocused), page: Some(p), rebuild: true }, holds),
                    None => (answer(FocusResult::Deferred), holds),
                }
            } else if holds {
                if action == FocusAction::Blur {
                    (PaginateDecision { step: PaginateStep::ChildBlur, page: None, rebuild: false }, holds)
                } else {
                    (child, holds)
                }
            } else {
                match action {
                    FocusAction::Next | FocusAction::Previous => (
                        PaginateDecision { step: PaginateStep::Answer(FocusResult::HandledFocused), page: page_of(action), rebuild: true },
                        holds,
                    ),
                    FocusAction::Focus(_) => (answer(FocusResult::HandledFocused), holds),
                    FocusAction::Blur => (answer(FocusResult::Deferred), holds),
                    FocusAction::Select => (PaginateDecision { step: PaginateStep::ChildFocus(g), page: None, rebuild: true }, true),
                    FocusAction::Teardown => (answer(FocusResult::HandledUnfocused), holds),
                }
            }
        },
        Event::KeyUp(_) | Event::KeyDown(_) => if holds { (child, holds) } else { (answer(FocusResult::Deferred), holds) },
        _ => (child, holds),
    }
}

/// The answer once the child has answered `child_result`, and whether the child holds
/// focus afterwards: a child that does not handle a blur loses focus, and a touch that
/// the child handles asking for focus gives it focus.
pub open spec fn paginate_answer(event: Event, step: PaginateStep, child_result: FocusResult, holds: bool) -> (FocusResult, bool) {
    match step {
        PaginateStep::ChildBlur => if child_result.is_handled_spec() {
            (child_result, holds)
        } else {
            (FocusResult::HandledFocused, false)
        },
        PaginateStep::Answer(r) => (r, holds),
        _ => if event is Touch && child_result.requested_focus_spec() {
            (child_result, true)
        } else {
            (child_result, holds)
        },
    }
}

impl FocusResult {
    /// Whether the request was handled.
    pub open spec fn is_handled_spec(self) -> bool {
        !(self is Deferred)
    }

    /// Whether the view asked for focus.
    pub open spec fn requested_focus_spec(self) -> bool {
        self matches FocusResult::Handled { request_focus, .. } && request_focus
    }
}

impl<V, Action> Paginate<V, Action> {
    /// Decides what to do with an event; the caller passes it on to the child as the
    /// step says and reports the page change to the action.
    pub fn decide<T>(&self, event: &Event, focus: &mut PaginateFocusTree<T>) -> (r: PaginateDecision)
        ensures
            (r, final(focus).child_holds_focus) == paginate_decision(self.group, self.forceful, *event, old(focus).child_holds_focus),
            final(focus).child == old(focus).child,
    {
        let child = PaginateDecision { step: PaginateStep::Child, page: None, rebuild: false };
        match *event {
            Event::Focus { action, group } => {
                if matches!(action, FocusAction::Teardown) {
                    return child;
                }
                if self.group == group && (self.forceful || !focus.child_holds_focus) {
                    return match action {
                        FocusAction::Next => PaginateDecision {
                            step: PaginateStep::Answer(FocusResult::HandledFocused),
                            page: Some(PageEvent::Next),
                            rebuild: true,
                        },
                        FocusAction::Previous => PaginateDecision {
                            step: PaginateStep::Answer(FocusResult::HandledFocused),
                            page: Some(PageEvent::Previous),
                            rebuild: true,
                        },
                        _ => PaginateDecision { step: PaginateStep::Answer(FocusResult::Deferred), page: None, rebuild: false },
                    };
                }
                if focus.child_holds_focus {
                    return match action {
                        FocusAction::Blur => PaginateDecision { step: PaginateStep::ChildBlur, page: None, rebuild: false },
                        _ => child,
                    };
                }
                match action {
                    FocusAction::Next => PaginateDecision {
                        step: PaginateStep::Answer(FocusResult::HandledFocused),
                        page: Some(PageEvent::Next),
                        rebuild: true,
                    },
                    FocusAction::Previous => PaginateDecision {
                        step: PaginateStep::Answer(FocusResult::HandledFocused),
                        page: Some(PageEvent::Previous),
                        rebuild: true,
                    },
                    FocusAction::Focus(_) => PaginateDecision { step: PaginateStep::Answer(FocusResult::HandledFocused), page: None, rebuild: false },
                    FocusAction::Blur => PaginateDecision { step: PaginateStep::Answer(FocusResult::Deferred), page: None, rebuild: false },
                    FocusAction::Select => {
                        focus.child_holds_focus = true;
                        PaginateDecision { step: PaginateStep::ChildFocus(group), page: None, rebuild: true }
                    },
                    FocusAction::Teardown => PaginateDecision { step: PaginateStep::Answer(FocusResult::HandledUnfocused), page: None, rebuild: false },
                }
            },
            Event::KeyUp(_) | Event::KeyDown(_) => {
                if focus.child_holds_focus {
                    child
                } else {
                    PaginateDecision { step: PaginateStep::Answer(FocusResult::Deferred), page: None, rebuild: false }
                }
            },
            _ => child,
        }
    }

    /// The answer to an event once the child has answered `child_result` to the step
    /// taken.
    pub fn answer<T>(&self, event: &Event, step: PaginateStep, child_result: FocusResult, focus: &mut PaginateFocusTree<T>) -> (r: FocusResult)
        ensures
            (r, final(focus).child_holds_focus) == paginate_answer(*event, step, child_result, old(focus).child_holds_focus),
            final(focus).child == old(focus).child,
    {
        match step {
            PaginateStep::ChildBlur => {
                if child_result.is_handled() {
                    child_result
                } else {
                    focus.child_holds_focus = false;
                    FocusResult::HandledFocused
                }
            },
            PaginateStep::Answer(r) => r,
            _ => {
                if matches!(event, Event::Touch(_)) && child_result.requested_focus() {
                    focus.child_holds_focus = true;
                }
                child_result
            },
        }
    }
}

/// The request a paginated view passes to its child for a step, if any.
pub open spec fn child_event(event: Event, step: PaginateStep) -> Option<Event> {
    match step {
        PaginateStep::Child | PaginateStep::ChildBlur => Some(event),
        PaginateStep::ChildFocus(g) => Some(Event::Focus { action: FocusAction::Focus(FocusDirection::Forward), group: g }),
        PaginateStep::Answer(_) => None,
    }
}

/// The request passed to the child for a step, if any.
pub fn event_for_child(event: &Event, step: PaginateStep) -> (r: Option<Event>)
    ensures
        r == child_event(*event, step),
{
    match step {
        PaginateStep::Child | PaginateStep::ChildBlur => Some(*event),
        PaginateStep::ChildFocus(g) => Some(Event::Focus { action: FocusAction::Focus(FocusDirection::Forward), group: g }),
        PaginateStep::Answer(_) => None,
    }
}

/// While the child does not hold focus, a move in any group changes page and is taken
/// by the view. While it holds focus, a move in the view's own group changes page only
/// if the view is forceful, and every other move goes to the child.
pub proof fn lemma_moves_page_unless_child_focused(group: FocusGroup, forceful: bool, g: FocusGroup, action: FocusAction, holds: bool)
    requires
        action == FocusAction::Next || action == FocusAction::Previous,
    ensures
        (!holds || (g == group && forceful)) ==> ({
            let d = paginate_decision(group, forceful, Event::Focus { action, group: g }, holds).0;
            &&& d.page == page_of(action)
            &&& d.step == PaginateStep::Answer(FocusResult::HandledFocused)
        }),
        (holds && !(g == group && forceful)) ==> ({
            let d = paginate_decision(group, forceful, Event::Focus { action, group: g }, holds).0;
            &&& d.page is None
            &&& d.step == PaginateStep::Child
        }),
{
}

impl<V: ViewLayout, Action> ViewLayout for Paginate<V, Action> {
    type Sublayout = V::Sublayout;
    type Renderables = V::Renderables;

    open spec fn spec_priority(&self) -> i8 { self.view.spec_priority() }
    open spec fn spec_is_empty(&self) -> bool { self.view.spec_is_empty() }

    open spec fn admits(&self, offer: ProposedDimensions, env: DefaultEnvironment) -> bool {
        self.view.admits(offer, env)
    }

    open spec fn spec_layout(&self, offer: ProposedDimensions, env: DefaultEnvironment) -> ResolvedLayout<V::Sublayout> {
        self.view.spec_layout(offer, env)
    }

    open spec fn render_admits(&self, layout: ResolvedLayout<V::Sublayout>, origin: Point, env: DefaultEnvironment) -> bool {
        self.view.render_admits(layout, origin, env)
    }

    open spec fn spec_render_tree(&self, layout: ResolvedLayout<V::Sublayout>, origin: Point, env: DefaultEnvironment) -> V::Renderables {
        self.view.spec_render_tree(layout, origin, env)
    }

    fn priority(&self) -> (r: i8) { self.view.priority() }

    fn is_empty(&self) -> (r: bool) { self.view.is_empty() }

    fn layout(&self, offer: &ProposedDimensions, env: &DefaultEnvironment) -> (r: ResolvedLayout<V::Sublayout>) {
        self.view.layout(offer, env)
    }

    fn render_tree(&self, layout: &ResolvedLayout<V::Sublayout>, origin: Point, env: &DefaultEnvironment) -> (r: V::Renderables) {
        self.view.render_tree(layout, origin, env)
    }
}

} // verus!
