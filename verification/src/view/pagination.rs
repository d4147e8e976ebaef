//! A view that turns keyboard movement along one axis into page changes.

use vstd::prelude::*;
use crate::event::{Event, EventResult, KeyboardEvent, KeyboardEventKind};
use crate::focus::{FocusState, Groups, Interaction, FOCUSED};
use crate::layout::{DefaultEnvironment, ResolvedLayout};
use crate::primitives::{Point, ProposedDimensions};
use crate::view::ViewLayout;

verus! {

/// The constructors of paginated views.
#[derive(Debug)]
pub struct Pagination;

/// The axis along which pages change.
#[derive(Debug, Clone, Copy, PartialEq, Eq, Structural)]
pub enum PaginationDirection {
    /// Left and right change page.
    Horizontal,
    /// Up and down change page.
    Vertical,
}

impl PaginationDirection {
    /// The default direction, [`PaginationDirection::Horizontal`].
    pub fn default() -> (r: PaginationDirection)
        ensures
            r == PaginationDirection::Horizontal,
    {
        PaginationDirection::Horizontal
    }
}

/// What the user asks a paginated view for.
#[derive(Debug, Clone, Copy, PartialEq, Eq, Structural, Hash)]
pub enum PaginationAction {
    /// Go to the next page.
    Next,
    /// Go to the previous page.
    Previous,
    /// Focus entered the pagination by a click.
    Enter,
    /// A click left the pagination.
    Submit,
    /// The user cancelled the pagination.
    Escape,
}

/// The state of a paginated view.
#[derive(Debug, Clone, Copy, PartialEq, Eq, Structural)]
pub struct PaginationState<T> {
    /// The groups in which the content handled events since the last page change.
    pub observed_groups: Groups,
    /// The focus of the view.
    pub focus: FocusState,
    /// Whether focus has entered the pagination.
    pub entered: FocusState,
    /// The state of the content.
    pub inner: T,
}

/// A paginated view: content built from its interaction state, and an action told of
/// page changes.
#[derive(Debug, Clone)]
pub struct PaginationView<ViewFn, Action> {
    pub view: ViewFn,
    pub action: Action,
    pub direction: PaginationDirection,
    pub click_to_enter: bool,
    pub click_to_exit: bool,
    pub reroute_navigation: bool,
    pub groups: Groups,
}

impl<ViewFn, Action> PaginationView<ViewFn, Action> {
    /// The state of the pagination before any event, around the content's own state:
    /// no group observed, and unfocused and not entered in its input groups.
    pub fn build_state<T>(&self, inner: T) -> (r: PaginationState<T>)
        ensures
            r == (PaginationState {
                observed_groups: Groups(0),
                focus: FocusState { member: self.groups, focused: Groups(0) },
                entered: FocusState { member: self.groups, focused: Groups(0) },
                inner,
            }),
    {
        PaginationState {
            observed_groups: Groups::default(),
            focus: FocusState::new(self.groups),
            entered: FocusState::new(self.groups),
            inner,
        }
    }
}

impl Pagination {
    /// A horizontal pagination in the input `groups`.
    pub fn new_horizontal<ViewFn, Action>(groups: Groups, on_action: Action, view: ViewFn) -> (r: PaginationView<ViewFn, Action>)
        ensures
            r == (PaginationView {
                view,
                action: on_action,
                direction: PaginationDirection::Horizontal,
                click_to_enter: false,
                click_to_exit: false,
                reroute_navigation: false,
                groups,
            }),
    {
        PaginationView {
            view,
            action: on_action,
            direction: PaginationDirection::Horizontal,
            click_to_enter: false,
            click_to_exit: false,
            reroute_navigation: false,
            groups,
        }
    }

    /// A vertical pagination in the input `groups`.
    pub fn new_vertical<ViewFn, Action>(groups: Groups, on_action: Action, view: ViewFn) -> (r: PaginationView<ViewFn, Action>)
        ensures
            r == (PaginationView {
                view,
                action: on_action,
                direction: PaginationDirection::Vertical,
                click_to_enter: false,
                click_to_exit: false,
                reroute_navigation: false,
                groups,
            }),
    {
        PaginationView {
            view,
            action: on_action,
            direction: PaginationDirection::Vertical,
            click_to_enter: false,
            click_to_exit: false,
            reroute_navigation: false,
            groups,
        }
    }
}

impl<ViewFn, Action> PaginationView<ViewFn, Action> {
    /// The same view, in which focus enters the pagination only by a click.
    pub fn click_to_enter(self, click_to_enter: bool) -> (r: Self)
        ensures
            r == (PaginationView { click_to_enter, ..self }),
    {
        PaginationView { click_to_enter, ..self }
    }

    /// The same view, which a click unhandled by the content leaves.
    pub fn click_to_exit(self, click_to_exit: bool) -> (r: Self)
        ensures
            r == (PaginationView { click_to_exit, ..self }),
    {
        PaginationView { click_to_exit, ..self }
    }

    /// The same view, in which movement across the pages moves focus within the content.
    pub fn reroute_navigation(self, reroute: bool) -> (r: Self)
        ensures
            r == (PaginationView { reroute_navigation: reroute, ..self }),
    {
        PaginationView { reroute_navigation: reroute, ..self }
    }

    /// The interaction the content shows: focused while the view holds focus in its groups.
    pub fn interaction<T>(&self, state: &PaginationState<T>) -> (r: Interaction)
        ensures
            r == (if state.focus.focused.0 & self.groups.0 != 0 { Interaction(FOCUSED) } else { Interaction(0) }),
    {
        let focused = state.focus.is_focused_any(self.groups);
        let r = Interaction::new().with(focused, FOCUSED);
        assert(0u8 | FOCUSED == FOCUSED) by (bit_vector);
        r
    }
}

/// A keyboard move along the pagination axis.
pub open spec fn is_along(d: PaginationDirection, k: KeyboardEventKind) -> bool {
    match d {
        PaginationDirection::Vertical => k is Up || k is Down,
        PaginationDirection::Horizontal => k is Left || k is Right,
    }
}

/// A keyboard move across the pagination axis.
pub open spec fn is_across(d: PaginationDirection, k: KeyboardEventKind) -> bool {
    match d {
        PaginationDirection::Vertical => k is Left || k is Right,
        PaginationDirection::Horizontal => k is Up || k is Down,
    }
}

/// The page change a keyboard move asks for, if any.
pub open spec fn page_move(d: PaginationDirection, k: KeyboardEventKind) -> Option<PaginationAction> {
    match (d, k) {
        (PaginationDirection::Vertical, KeyboardEventKind::Up) | (PaginationDirection::Horizontal, KeyboardEventKind::Left) => Some(PaginationAction::Previous),
        (PaginationDirection::Vertical, KeyboardEventKind::Down) | (PaginationDirection::Horizontal, KeyboardEventKind::Right) => Some(PaginationAction::Next),
        _ => None,
    }
}

/// How far a keyboard move goes across the screen, as (columns, rows): up and left go
/// back, down and right go forward; other keys do not move.
pub open spec fn key_motion(k: KeyboardEventKind) -> (int, int) {
    match k {
        KeyboardEventKind::Up => (0, -1),
        KeyboardEventKind::Down => (0, 1),
        KeyboardEventKind::Left => (-1, 0),
        KeyboardEventKind::Right => (1, 0),
        _ => (0, 0),
    }
}

/// How far a keyboard move goes along a pagination's axis.
pub open spec fn motion_along(d: PaginationDirection, k: KeyboardEventKind) -> int {
    match d {
        PaginationDirection::Horizontal => key_motion(k).0,
        PaginationDirection::Vertical => key_motion(k).1,
    }
}

/// A keyboard move forward along the pagination's axis asks for the next page, one
/// backward for the previous page, and any other key for no page change.
pub proof fn lemma_page_follows_motion(d: PaginationDirection, k: KeyboardEventKind)
    ensures
        motion_along(d, k) > 0 ==> page_move(d, k) == Some(PaginationAction::Next),
        motion_along(d, k) < 0 ==> page_move(d, k) == Some(PaginationAction::Previous),
        motion_along(d, k) == 0 ==> page_move(d, k) is None,
{
}

/// How a paginated view answers, as far as it is decided before the content is asked.
#[derive(Debug, Clone, Copy, PartialEq, Eq, Structural)]
pub enum PaginationStep {
    /// Answer this.
    Answer(EventResult),
    /// Move focus in the groups and answer what the move answers.
    AnswerMove(Groups),
    /// Pass the event to the content, then finish (see [`PaginationView::finish`]).
    Content,
}

/// What a paginated view decided before asking its content.
#[derive(Debug, Clone, Copy, PartialEq, Eq, Structural)]
pub struct PaginationBegin {
    /// The next step.
    pub step: PaginationStep,
    /// A focus move to make first, in these groups, whose answer is not used.
    pub prior_move: Option<Groups>,
    /// The action to report.
    pub action: Option<PaginationAction>,
    /// Groups in which to clear focus.
    pub blur: Option<Groups>,
    /// The groups the event concerns.
    pub groups: Groups,
    /// Whether the event concerns the view.
    pub should_handle: bool,
    /// Whether focus had entered the pagination once the first moves were made.
    pub is_entered: bool,
}

/// How a paginated view answers once its content has answered.
#[derive(Debug, Clone, Copy, PartialEq, Eq, Structural)]
pub struct PaginationFinish {
    /// The answer, before any focus move is merged into it.
    pub answer: EventResult,
    /// A focus move to make, in these groups, whose answer is merged into the answer.
    pub merged_move: Option<Groups>,
    /// The action to report.
    pub action: Option<PaginationAction>,
    /// Groups in which to clear focus.
    pub blur: Option<Groups>,
}

/// The keyboard event an event carries; a click in no group for other events.
pub open spec fn keyboard_of(event: Event) -> KeyboardEvent {
    match event {
        Event::Keyboard(k) => k,
        _ => KeyboardEvent { kind: KeyboardEventKind::Click, groups: Groups(0) },
    }
}

/// The groups a keyboard event is delivered to; none for other events.
pub open spec fn key_groups(event: Event) -> Groups {
    match event {
        Event::Keyboard(k) => k.groups,
        _ => Groups(0),
    }
}

/// The groups of the event that are active.
pub open spec fn event_groups(event: Event, active: Groups) -> Groups {
    match event {
        Event::Keyboard(k) => Groups(k.groups.0 & active.0),
        _ => Groups(0),
    }
}

impl<ViewFn, Action> PaginationView<ViewFn, Action> {
    /// The decision before the content is asked, and the state afterwards. `active` are
    /// the active input groups and `input_focused` tells whether any element of the
    /// view's groups holds focus.
    pub open spec fn spec_begin<T>(&self, event: Event, active: Groups, input_focused: bool, state: PaginationState<T>) -> (PaginationBegin, PaginationState<T>) {
        let k = keyboard_of(event);
        let groups = event_groups(event, active);
        let should_handle = state.entered.member.0 & groups.0 != 0;
        let is_click = event is Keyboard && keyboard_of(event).kind == KeyboardEventKind::Click;
        let was_entered = state.entered.focused.0 & groups.0 != 0;
        let none = PaginationBegin {
            step: PaginationStep::Content,
            prior_move: None,
            action: None,
            blur: None,
            groups,
            should_handle,
            is_entered: was_entered,
        };
        if event is Keyboard && k.kind.is_movement_spec() && should_handle && !was_entered {
            let entered = if !self.click_to_enter {
                FocusState { focused: Groups(state.entered.focused.0 | (groups.0 & state.entered.member.0)), ..state.entered }
            } else {
                state.entered
            };
            let st = PaginationState { entered, ..state };
            let is_entered = entered.focused.0 & groups.0 != 0;
            if self.click_to_enter || (is_across(self.direction, k.kind) && !self.reroute_navigation) {
                (PaginationBegin { step: PaginationStep::AnswerMove(k.groups), is_entered, ..none }, st)
            } else {
                let prior = if is_along(self.direction, k.kind) && !self.reroute_navigation { Some(k.groups) } else { None };
                self.spec_begin_entered(event, st, PaginationBegin { prior_move: prior, is_entered, ..none }, input_focused)
            }
        } else {
            self.spec_begin_entered(event, state, none, input_focused)
        }
    }

    /// The decision from the click that enters the pagination on.
    pub open spec fn spec_begin_entered<T>(&self, event: Event, state: PaginationState<T>, b: PaginationBegin, input_focused: bool) -> (PaginationBegin, PaginationState<T>) {
        let k = keyboard_of(event);
        let groups = b.groups;
        let is_click = event is Keyboard && keyboard_of(event).kind == KeyboardEventKind::Click;
        if is_click && self.click_to_enter && !b.is_entered && b.should_handle {
            let entered = FocusState { focused: Groups(state.entered.focused.0 | (groups.0 & state.entered.member.0)), ..state.entered };
            (
                PaginationBegin {
                    step: PaginationStep::Answer(EventResult { handled: true, recompute_view: true }),
                    prior_move: if !input_focused { Some(key_groups(event)) } else { b.prior_move },
                    action: Some(PaginationAction::Enter),
                    ..b
                },
                PaginationState { entered, ..state },
            )
        } else if event is Keyboard && (!self.click_to_enter || b.is_entered) && b.should_handle && page_move(self.direction, k.kind) is Some {
            (
                PaginationBegin {
                    step: PaginationStep::Answer(EventResult { handled: true, recompute_view: false }),
                    action: page_move(self.direction, k.kind),
                    blur: Some(state.observed_groups),
                    ..b
                },
                PaginationState { observed_groups: Groups(0), ..state },
            )
        } else if event is Keyboard && (!self.click_to_enter || b.is_entered) && b.should_handle
            && is_across(self.direction, k.kind) && state.focus.focused.0 & groups.0 != 0 && self.reroute_navigation {
            (PaginationBegin { prior_move: Some(groups), ..b }, state)
        } else {
            (b, state)
        }
    }

    /// The answer once the content has answered `r`, and the state afterwards.
    pub open spec fn spec_finish<T>(&self, event: Event, b: PaginationBegin, r: EventResult, state: PaginationState<T>) -> (PaginationFinish, PaginationState<T>) {
        let k = keyboard_of(event);
        let groups = b.groups;
        let state = if r.handled { PaginationState { observed_groups: Groups(state.observed_groups.0 | groups.0), ..state } } else { state };
        let is_click = event is Keyboard && keyboard_of(event).kind == KeyboardEventKind::Click;
        let blurred = FocusState { focused: Groups(state.entered.focused.0 & !groups.0), ..state.entered };
        let plain = PaginationFinish { answer: r, merged_move: None, action: None, blur: None };
        let taken = EventResult { handled: true, ..r };
        if event is Keyboard && !self.click_to_enter && !r.handled && b.should_handle && is_across(self.direction, k.kind) {
            (PaginationFinish { merged_move: Some(k.groups), ..plain }, PaginationState { entered: blurred, ..state })
        } else if is_click && b.is_entered && !r.handled && self.click_to_exit && b.should_handle {
            (
                PaginationFinish { answer: taken, action: Some(PaginationAction::Submit), blur: Some(state.observed_groups), ..plain },
                PaginationState { entered: blurred, observed_groups: Groups(0), ..state },
            )
        } else if r.handled {
            (plain, state)
        } else if event is Keyboard && (!self.click_to_enter || b.is_entered) && b.should_handle
            && (k.kind == KeyboardEventKind::Cancel || k.kind == KeyboardEventKind::LongPress) && self.click_to_enter {
            (
                PaginationFinish { answer: taken, action: Some(PaginationAction::Escape), blur: Some(state.observed_groups), ..plain },
                PaginationState { entered: blurred, observed_groups: Groups(0), ..state },
            )
        } else if event is Keyboard && k.kind.is_movement_spec() && self.click_to_enter && b.should_handle {
            (PaginationFinish { answer: taken, ..plain }, state)
        } else {
            (plain, state)
        }
    }
}

impl KeyboardEventKind {
    /// Whether the event moves in a direction.
    pub open spec fn is_movement_spec(self) -> bool {
        self is Up || self is Down || self is Left || self is Right
    }
}

/// The groups of the event that are active.
fn groups_of(event: &Event, active: Groups) -> (r: Groups)
    ensures
        r == event_groups(*event, active),
{
    match event {
        Event::Keyboard(k) => k.groups.intersection(active),
        _ => Groups(0),
    }
}

/// The page change a keyboard move asks for, if any.
fn page_move_of(d: PaginationDirection, k: KeyboardEventKind) -> (r: Option<PaginationAction>)
    ensures
        r == page_move(d, k),
{
    match (d, k) {
        (PaginationDirection::Vertical, KeyboardEventKind::Up) | (PaginationDirection::Horizontal, KeyboardEventKind::Left) => Some(PaginationAction::Previous),
        (PaginationDirection::Vertical, KeyboardEventKind::Down) | (PaginationDirection::Horizontal, KeyboardEventKind::Right) => Some(PaginationAction::Next),
        _ => None,
    }
}

/// Whether a keyboard move goes across the pagination axis.
fn across(d: PaginationDirection, k: KeyboardEventKind) -> (r: bool)
    ensures
        r == is_across(d, k),
{
    match d {
        PaginationDirection::Vertical => matches!(k, KeyboardEventKind::Left | KeyboardEventKind::Right),
        PaginationDirection::Horizontal => matches!(k, KeyboardEventKind::Up | KeyboardEventKind::Down),
    }
}

/// Whether a keyboard move goes along the pagination axis.
fn along(d: PaginationDirection, k: KeyboardEventKind) -> (r: bool)
    ensures
        r == is_along(d, k),
{
    match d {
        PaginationDirection::Vertical => matches!(k, KeyboardEventKind::Up | KeyboardEventKind::Down),
        PaginationDirection::Horizontal => matches!(k, KeyboardEventKind::Left | KeyboardEventKind::Right),
    }
}

impl<ViewFn, Action> PaginationView<ViewFn, Action> {
    /// Decides what to do with an event before the content is asked. The caller makes
    /// the focus moves, clears focus, reports the action, and then answers as the step
    /// says.
    pub fn begin<T>(&self, event: &Event, active: Groups, input_focused: bool, state: &mut PaginationState<T>) -> (r: PaginationBegin)
        requires
            !(*event is Touch),
        ensures
            (r, *final(state)) == self.spec_begin(*event, active, input_focused, *old(state)),
    {
        let groups = groups_of(event, active);
        let should_handle = state.entered.is_member_of_any(groups);
        let was_entered = state.entered.is_focused_any(groups);
        let mut b = PaginationBegin {
            step: PaginationStep::Content,
            prior_move: None,
            action: None,
            blur: None,
            groups,
            should_handle,
            is_entered: was_entered,
        };
        if let Event::Keyboard(k) = event {
            if k.kind.is_movement() && should_handle && !was_entered {
                if !self.click_to_enter {
                    state.entered.focus(groups);
                }
                b.is_entered = state.entered.is_focused_any(groups);
                if self.click_to_enter || (across(self.direction, k.kind) && !self.reroute_navigation) {
                    b.step = PaginationStep::AnswerMove(k.groups);
                    return b;
                }
                if along(self.direction, k.kind) && !self.reroute_navigation {
                    b.prior_move = Some(k.groups);
                }
            }
        }
        self.begin_entered(event, input_focused, state, b)
    }

    /// The decision from the click that enters the pagination on.
    fn begin_entered<T>(&self, event: &Event, input_focused: bool, state: &mut PaginationState<T>, b: PaginationBegin) -> (r: PaginationBegin)
        ensures
            (r, *final(state)) == self.spec_begin_entered(*event, *old(state), b, input_focused),
    {
        let mut b = b;
        let groups = b.groups;
        let is_click = match event {
            Event::Keyboard(k) => matches!(k.kind, KeyboardEventKind::Click),
            _ => false,
        };
        if is_click && self.click_to_enter && !b.is_entered && b.should_handle {
            state.entered.focus(groups);
            if !input_focused {
                b.prior_move = Some(match event {
                    Event::Keyboard(k) => k.groups,
                    _ => Groups(0),
                });
            }
            b.action = Some(PaginationAction::Enter);
            b.step = PaginationStep::Answer(EventResult::new(true, true));
            return b;
        }
        if let Event::Keyboard(k) = event {
            if (!self.click_to_enter || b.is_entered) && b.should_handle {
                match page_move_of(self.direction, k.kind) {
                    Some(a) => {
                        b.action = Some(a);
                        b.blur = Some(state.observed_groups);
                        state.observed_groups = Groups::default();
                        b.step = PaginationStep::Answer(EventResult::new(true, false));
                        return b;
                    },
                    None => {
                        if across(self.direction, k.kind) && state.focus.is_focused_any(groups) && self.reroute_navigation {
                            b.prior_move = Some(groups);
                        }
                    },
                }
            }
        }
        b
    }

    /// The answer once the content has answered `r` to the event.
    pub fn finish<T>(&self, event: &Event, b: PaginationBegin, r: EventResult, state: &mut PaginationState<T>) -> (f: PaginationFinish)
        ensures
            (f, *final(state)) == self.spec_finish(*event, b, r, *old(state)),
    {
        let groups = b.groups;
        if r.handled {
            state.observed_groups = state.observed_groups.union(groups);
        }
        let is_click = match event {
            Event::Keyboard(k) => matches!(k.kind, KeyboardEventKind::Click),
            _ => false,
        };
        let plain = PaginationFinish { answer: r, merged_move: None, action: None, blur: None };
        let taken = EventResult { handled: true, ..r };
        if let Event::Keyboard(k) = event {
            if !self.click_to_enter && !r.handled && b.should_handle && across(self.direction, k.kind) {
                state.entered.blur(groups);
                return PaginationFinish { merged_move: Some(k.groups), ..plain };
            }
        }
        if is_click && b.is_entered && !r.handled && self.click_to_exit && b.should_handle {
            state.entered.blur(groups);
            let observed = state.observed_groups;
            state.observed_groups = Groups::default();
            return PaginationFinish { answer: taken, action: Some(PaginationAction::Submit), blur: Some(observed), ..plain };
        }
        if r.handled {
            return plain;
        }
        if let Event::Keyboard(k) = event {
            if (!self.click_to_enter || b.is_entered) && b.should_handle
                && matches!(k.kind, KeyboardEventKind::Cancel | KeyboardEventKind::LongPress) && self.click_to_enter {
                state.entered.blur(groups);
                let observed = state.observed_groups;
                state.observed_groups = Groups::default();
                return PaginationFinish { answer: taken, action: Some(PaginationAction::Escape), blur: Some(observed), ..plain };
            }
            if k.kind.is_movement() && self.click_to_enter && b.should_handle {
                return PaginationFinish { answer: taken, ..plain };
            }
        }
        plain
    }
}

} // verus!

verus! {

/// Without click-to-enter, a keyboard move along the pagination axis in a group of the
/// pagination changes page, is taken by the view, and forgets the groups observed.
pub proof fn lemma_move_along_changes_page<ViewFn, Action, T>(
    view: PaginationView<ViewFn, Action>,
    k: KeyboardEvent,
    active: Groups,
    input_focused: bool,
    state: PaginationState<T>,
)
    requires
        !view.click_to_enter,
        is_along(view.direction, k.kind),
        state.entered.member.0 & (k.groups.0 & active.0) != 0,
    ensures
        ({
            let (b, st) = view.spec_begin(Event::Keyboard(k), active, input_focused, state);
            &&& b.step == PaginationStep::Answer(EventResult { handled: true, recompute_view: false })
            &&& b.action == page_move(view.direction, k.kind)
            &&& b.action is Some
            &&& st.observed_groups == Groups(0)
            &&& b.blur == Some(state.observed_groups)
        }),
{
}

} // verus!
