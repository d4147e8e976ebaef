//! A tappable button that runs an action when released.

use vstd::prelude::*;
use core::marker::PhantomData;
use crate::event::{Event, EventResult, KeyboardEvent, KeyboardEventKind, Touch, TouchPhase};
use crate::focus::{FocusState, Groups, Interaction, FOCUSED, PRESSED};
use crate::layout::{DefaultEnvironment, ResolvedLayout};
use crate::primitives::{Point, ProposedDimensions, Size};
use crate::render::{size_of, Container};
use crate::view::ViewLayout;

verus! {

/// Whether a touch is holding a button.
#[derive(Debug, Clone, Copy, PartialEq, Eq, Structural)]
pub enum ButtonTouchState {
    /// The touch with this id pressed the button and is still within it.
    CaptivePressed(u8),
    /// The touch with this id pressed the button and has moved outside it.
    Captive(u8),
    /// No touch holds the button.
    AtRest,
}

impl ButtonTouchState {
    /// The state of an untouched button.
    pub fn default() -> (r: ButtonTouchState)
        ensures
            r == ButtonTouchState::AtRest,
    {
        ButtonTouchState::AtRest
    }
}

/// The state a button keeps between events.
#[derive(Debug, Clone, Copy, PartialEq, Eq, Structural)]
pub struct ButtonState {
    /// The touch holding the button, if any.
    pub touch: ButtonTouchState,
    /// The focus of the button.
    pub focus: FocusState,
}

/// A button: a view built from its interaction state, and an action run when a tap
/// that started on the button ends on it.
#[derive(Debug)]
pub struct Button<ViewFn, Inner, Action> {
    pub _inner_marker: PhantomData<Inner>,
    pub groups: Groups,
    pub view: ViewFn,
    pub action: Action,
}

impl<ViewFn, Inner, Action> Button<ViewFn, Inner, Action> {
    /// A button that runs `action` and shows `view`, in no input group.
    pub fn new(action: Action, view: ViewFn) -> (r: Self)
        ensures
            r.groups == Groups(0),
            r.view == view,
            r.action == action,
    {
        Button { _inner_marker: PhantomData, groups: Groups::default(), view, action }
    }

    /// The state of the button before any event: held by no touch, and an unfocused
    /// member of its input groups.
    pub fn build_state(&self) -> (r: ButtonState)
        ensures
            r == (ButtonState {
                touch: ButtonTouchState::AtRest,
                focus: FocusState { member: self.groups, focused: Groups(0) },
            }),
    {
        ButtonState { touch: ButtonTouchState::default(), focus: FocusState::new(self.groups) }
    }

    /// A button that runs `action` and shows `view`, in the input `groups`.
    pub fn new_with_groups(action: Action, groups: Groups, view: ViewFn) -> (r: Self)
        ensures
            r.groups == groups,
            r.view == view,
            r.action == action,
    {
        Button { _inner_marker: PhantomData, groups, view, action }
    }

    /// The same button, also in the input `groups`.
    pub fn groups(self, groups: Groups) -> (r: Self)
        ensures
            r.groups == Groups(self.groups.0 | groups.0),
            r.view == self.view,
            r.action == self.action,
    {
        let g = self.groups.union(groups);
        Button { groups: g, ..self }
    }

    /// The interaction a button shows in a state, with `active` the groups whose input
    /// is active: pressed while a touch holds it within its area, focused while it holds
    /// focus in an active group of its own.
    pub fn interaction(&self, state: ButtonState, active: Groups) -> (r: Interaction)
        ensures
            r == Interaction::spec_new()
                .spec_with(state.touch is CaptivePressed, PRESSED)
                .spec_with(state.focus.focused.0 & (active.0 & self.groups.0) != 0, FOCUSED),
    {
        let pressed = matches!(state.touch, ButtonTouchState::CaptivePressed(_));
        let groups = active.intersection(self.groups);
        let focused = state.focus.is_focused_any(groups);
        Interaction::new().with(pressed, PRESSED).with(focused, FOCUSED)
    }
}

impl Interaction {
    /// No interaction.
    pub open spec fn spec_new() -> Interaction {
        Interaction(0)
    }

    /// The interaction with the bits of `flag` set when `condition` holds.
    pub open spec fn spec_with(self, condition: bool, flag: u8) -> Interaction {
        if condition { Interaction(self.0 | flag) } else { self }
    }
}

/// Whether a point lies within the frame of a render tree.
pub open spec fn frame_contains(origin: Point, size: Size, p: Point) -> bool {
    &&& origin.x <= p.x < origin.x + size.width
    &&& origin.y <= p.y < origin.y + size.height
}

/// Whether a point lies within a frame.
pub fn contains(origin: Point, size: Size, p: Point) -> (r: bool)
    ensures
        r == frame_contains(origin, size, p),
{
    let px = p.x as i64;
    let py = p.y as i64;
    origin.x as i64 <= px && px < origin.x as i64 + size.width as i64 && origin.y as i64 <= py && py
        < origin.y as i64 + size.height as i64
}

/// The id of the touch holding the button, if any.
pub open spec fn touch_holder(state: ButtonTouchState) -> Option<u8> {
    match state {
        ButtonTouchState::Captive(id) => Some(id),
        ButtonTouchState::CaptivePressed(id) => Some(id),
        ButtonTouchState::AtRest => None,
    }
}

/// The outcome of a touch on a button in a touch state, given whether the touch is
/// within the button: the new state, the result, and whether the action runs.
///
/// Only the touch that pressed the button is followed. A press within the button holds
/// it; moving out and back in releases and presses it again; lifting the touch releases
/// it and runs the action if the touch is within the button; a cancelled touch releases
/// it without running the action.
pub open spec fn touch_step(state: ButtonTouchState, touch: Touch, inside: bool) -> (ButtonTouchState, EventResult, bool) {
    let none = EventResult { handled: false, recompute_view: false };
    let changed = EventResult { handled: true, recompute_view: true };
    let kept = EventResult { handled: true, recompute_view: false };
    if touch_holder(state) matches Some(id) && touch.id != id {
        (state, none, false)
    } else {
        match touch.phase {
            TouchPhase::Started => if inside {
                (ButtonTouchState::CaptivePressed(touch.id), changed, false)
            } else {
                (state, none, false)
            },
            TouchPhase::Ended => if state != ButtonTouchState::AtRest {
                (ButtonTouchState::AtRest, changed, inside)
            } else {
                (state, none, false)
            },
            TouchPhase::Moved => match state {
                ButtonTouchState::Captive(id) => if inside {
                    (ButtonTouchState::CaptivePressed(id), changed, false)
                } else {
                    (state, kept, false)
                },
                ButtonTouchState::CaptivePressed(id) => if inside {
                    (state, kept, false)
                } else {
                    (ButtonTouchState::Captive(id), changed, false)
                },
                ButtonTouchState::AtRest => (state, none, false),
            },
            TouchPhase::Cancelled => (
                ButtonTouchState::AtRest,
                EventResult { handled: false, recompute_view: state is CaptivePressed },
                false,
            ),
            TouchPhase::Hovering(_) => (state, none, false),
        }
    }
}

impl<ViewFn, Inner, Action> Button<ViewFn, Inner, Action> {
    /// Handles a touch on a button whose render tree covers the frame at `origin` of
    /// `size`. Returns the result and whether the button's action is to run.
    pub fn handle_touch(&self, origin: Point, size: Size, state: &mut ButtonState, touch: &Touch) -> (r: (EventResult, bool))
        ensures
            final(state).focus == old(state).focus,
            (final(state).touch, r.0, r.1) == touch_step(old(state).touch, *touch, frame_contains(origin, size, touch.location)),
    {
        let mut result = EventResult::default();
        match state.touch {
            ButtonTouchState::Captive(id) | ButtonTouchState::CaptivePressed(id) => {
                if touch.id != id {
                    return (result, false);
                }
            },
            ButtonTouchState::AtRest => {},
        }
        let inside = contains(origin, size, touch.location);
        let mut fire = false;
        match touch.phase {
            TouchPhase::Started => {
                if inside {
                    state.touch = ButtonTouchState::CaptivePressed(touch.id);
                    result.recompute_view = true;
                    result.handled = true;
                }
            },
            TouchPhase::Ended => {
                if !matches!(state.touch, ButtonTouchState::AtRest) {
                    fire = inside;
                    state.touch = ButtonTouchState::AtRest;
                    result.recompute_view = true;
                    result.handled = true;
                }
            },
            TouchPhase::Moved => match (inside, state.touch) {
                (true, ButtonTouchState::Captive(id)) => {
                    state.touch = ButtonTouchState::CaptivePressed(id);
                    result.recompute_view = true;
                    result.handled = true;
                },
                (false, ButtonTouchState::CaptivePressed(id)) => {
                    state.touch = ButtonTouchState::Captive(id);
                    result.recompute_view = true;
                    result.handled = true;
                },
                (true, ButtonTouchState::CaptivePressed(_)) | (false, ButtonTouchState::Captive(_)) => {
                    result.handled = true;
                },
                (_, ButtonTouchState::AtRest) => {},
            },
            TouchPhase::Cancelled => {
                if matches!(state.touch, ButtonTouchState::CaptivePressed(_)) {
                    result.recompute_view = true;
                }
                state.touch = ButtonTouchState::AtRest;
                result.handled = false;
            },
            TouchPhase::Hovering(_) => {},
        }
        (result, fire)
    }
}

/// What a button does with a keyboard event.
#[derive(Debug, Clone, Copy, PartialEq, Eq, Structural)]
pub enum KeyboardStep {
    /// Not for the button: answer that nothing was handled.
    Ignore,
    /// Move focus among the leaves of these groups and answer what the move answers.
    MoveFocus(Groups),
    /// Run the action, answering that the event was handled and the view must be rebuilt.
    Activate,
}

/// What a button makes of an event: touches move the touch holding it and may run its
/// action; keyboard events become a [`KeyboardStep`]; other events are not its own.
#[derive(Debug, Clone, Copy, PartialEq, Eq, Structural)]
pub enum ButtonAnswer {
    /// The answer to a touch, and whether to run the action.
    Touched(EventResult, bool),
    /// The step to take for a keyboard event.
    Keyboard(KeyboardStep),
    /// The event is not for the button: nothing was handled.
    Ignored,
}

/// What a button in a focus state does with a keyboard event: events for groups it does
/// not belong to are ignored; moves move focus, as do long presses and cancels while it
/// is focused; a click while focused runs the action.
pub open spec fn keyboard_step(focus: FocusState, event: KeyboardEvent) -> KeyboardStep {
    if focus.member.0 & event.groups.0 == 0 {
        KeyboardStep::Ignore
    } else if event.kind.is_movement_spec() {
        KeyboardStep::MoveFocus(event.groups)
    } else if focus.focused.0 & event.groups.0 != 0 {
        match event.kind {
            KeyboardEventKind::LongPress | KeyboardEventKind::Cancel => KeyboardStep::MoveFocus(event.groups),
            KeyboardEventKind::Click => KeyboardStep::Activate,
            _ => KeyboardStep::Ignore,
        }
    } else {
        KeyboardStep::Ignore
    }
}

impl<ViewFn, Inner, Action> Button<ViewFn, Inner, Action> {
    /// Decides what to do with a keyboard event.
    /// Hands an event to the button drawn at `origin` with `size`: touches go to
    /// [`Self::handle_touch`], keyboard events to [`Self::handle_keyboard`], and other
    /// events leave it untouched.
    pub fn handle_event(&self, origin: Point, size: Size, state: &mut ButtonState, event: &Event) -> (r: ButtonAnswer)
        ensures
            match *event {
                Event::Touch(t) => {
                    let (touch, result, fire) = touch_step(old(state).touch, t, frame_contains(origin, size, t.location));
                    &&& final(state).touch == touch
                    &&& final(state).focus == old(state).focus
                    &&& r == ButtonAnswer::Touched(result, fire)
                },
                Event::Keyboard(k) => {
                    &&& *final(state) == *old(state)
                    &&& r == ButtonAnswer::Keyboard(keyboard_step(old(state).focus, k))
                },
                _ => *final(state) == *old(state) && r == ButtonAnswer::Ignored,
            },
    {
        match event {
            Event::Touch(t) => {
                let (result, fire) = self.handle_touch(origin, size, state, t);
                ButtonAnswer::Touched(result, fire)
            },
            Event::Keyboard(k) => ButtonAnswer::Keyboard(self.handle_keyboard(state, k)),
            _ => ButtonAnswer::Ignored,
        }
    }

    pub fn handle_keyboard(&self, state: &ButtonState, event: &KeyboardEvent) -> (r: KeyboardStep)
        ensures
            r == keyboard_step(state.focus, *event),
    {
        if !state.focus.is_member_of_any(event.groups) {
            return KeyboardStep::Ignore;
        }
        if event.kind.is_movement() {
            return KeyboardStep::MoveFocus(event.groups);
        }
        if state.focus.is_focused_any(event.groups) {
            match event.kind {
                KeyboardEventKind::LongPress | KeyboardEventKind::Cancel => KeyboardStep::MoveFocus(event.groups),
                KeyboardEventKind::Click => KeyboardStep::Activate,
                _ => KeyboardStep::Ignore,
            }
        } else {
            KeyboardStep::Ignore
        }
    }
}

/// A tap on a button at rest that starts within it and ends within it runs the action;
/// one that ends outside it does not, and either way the button comes to rest.
pub proof fn lemma_tap_runs_action(start: Touch, end: Touch, inside_start: bool, inside_end: bool)
    requires
        start.phase == TouchPhase::Started,
        end.phase == TouchPhase::Ended,
        start.id == end.id,
        inside_start,
    ensures
        ({
            let first = touch_step(ButtonTouchState::AtRest, start, inside_start);
            let second = touch_step(first.0, end, inside_end);
            &&& second.2 == inside_end
            &&& second.0 == ButtonTouchState::AtRest
            &&& second.1.handled
        }),
{
}

/// The touch state after following `moves` in order on a button drawn at `origin` with
/// `size`, as [`Button::handle_touch`] follows each, and how many of them ran the action.
pub open spec fn follow_moves(state: ButtonTouchState, moves: Seq<Touch>, origin: Point, size: Size) -> (ButtonTouchState, nat)
    decreases moves.len(),
{
    if moves.len() == 0 {
        (state, 0)
    } else {
        let step = touch_step(state, moves[0], frame_contains(origin, size, moves[0].location));
        let rest = follow_moves(step.0, moves.drop_first(), origin, size);
        (rest.0, rest.1 + if step.2 { 1nat } else { 0nat })
    }
}

/// Whether the touch with `id` holds the button.
pub open spec fn held_by(state: ButtonTouchState, id: u8) -> bool {
    state == ButtonTouchState::Captive(id) || state == ButtonTouchState::CaptivePressed(id)
}

/// Moves of one touch never run the action: a button at rest stays at rest, and a
/// button that touch holds stays held by it.
proof fn lemma_moves_keep_hold(state: ButtonTouchState, id: u8, moves: Seq<Touch>, origin: Point, size: Size)
    requires
        state == ButtonTouchState::AtRest || held_by(state, id),
        forall|i: int| 0 <= i < moves.len() ==> #[trigger] moves[i].phase == TouchPhase::Moved && moves[i].id == id,
    ensures
        follow_moves(state, moves, origin, size).1 == 0,
        state == ButtonTouchState::AtRest ==> follow_moves(state, moves, origin, size).0 == ButtonTouchState::AtRest,
        held_by(state, id) ==> held_by(follow_moves(state, moves, origin, size).0, id),
    decreases moves.len(),
{
    if moves.len() > 0 {
        let m = moves[0];
        assert(m.phase == TouchPhase::Moved && m.id == id);
        let step = touch_step(state, m, frame_contains(origin, size, m.location));
        assert(!step.2);
        assert(state == ButtonTouchState::AtRest ==> step.0 == ButtonTouchState::AtRest);
        assert(held_by(state, id) ==> held_by(step.0, id));
        let rest = moves.drop_first();
        assert forall|i: int| 0 <= i < rest.len() implies #[trigger] rest[i].phase == TouchPhase::Moved && rest[i].id == id by {
            assert(rest[i] == moves[i + 1]);
        }
        lemma_moves_keep_hold(step.0, id, rest, origin, size);
    }
}

/// Over a whole touch on a button at rest drawn at `origin` with `size` (a press, any
/// number of moves of the same touch, and a release, each followed as
/// [`Button::handle_touch`] follows it) the action runs exactly once, on the release,
/// when the press and the release are both within the button's frame, and never
/// otherwise; the button is at rest afterwards.
pub proof fn lemma_tap_sequence(origin: Point, size: Size, start: Touch, moves: Seq<Touch>, end: Touch)
    requires
        start.phase == TouchPhase::Started,
        end.phase == TouchPhase::Ended,
        end.id == start.id,
        forall|i: int| 0 <= i < moves.len() ==> #[trigger] moves[i].phase == TouchPhase::Moved && moves[i].id == start.id,
    ensures
        ({
            let pressed = touch_step(ButtonTouchState::AtRest, start, frame_contains(origin, size, start.location));
            let moved = follow_moves(pressed.0, moves, origin, size);
            let released = touch_step(moved.0, end, frame_contains(origin, size, end.location));
            &&& !pressed.2
            &&& moved.1 == 0
            &&& released.2 == (frame_contains(origin, size, start.location) && frame_contains(origin, size, end.location))
            &&& released.0 == ButtonTouchState::AtRest
        }),
{
    let pressed = touch_step(ButtonTouchState::AtRest, start, frame_contains(origin, size, start.location));
    assert(pressed.0 == ButtonTouchState::AtRest || held_by(pressed.0, start.id));
    lemma_moves_keep_hold(pressed.0, start.id, moves, origin, size);
}

/// A keyboard click reaches a button's action exactly when the button belongs to one of
/// the click's groups and is focused in one of them; no other keyboard event runs it.
pub proof fn lemma_click_activates_focused(focus: FocusState, event: KeyboardEvent)
    ensures
        (keyboard_step(focus, event) == KeyboardStep::Activate) <==> {
            &&& event.kind == KeyboardEventKind::Click
            &&& focus.member.0 & event.groups.0 != 0
            &&& focus.focused.0 & event.groups.0 != 0
        },
{
}

/// A touch other than the one holding a button changes nothing.
pub proof fn lemma_other_touch_ignored(state: ButtonTouchState, touch: Touch, inside: bool)
    requires
        (state matches ButtonTouchState::Captive(id) && id != touch.id)
            || (state matches ButtonTouchState::CaptivePressed(id) && id != touch.id),
    ensures
        touch_step(state, touch, inside) == (state, EventResult { handled: false, recompute_view: false }, false),
{
}

impl<ViewFn: Fn(Interaction) -> Inner, Inner: ViewLayout, Action> Button<ViewFn, Inner, Action> {
    /// The view shown at rest.
    pub open spec fn resting_view(&self) -> Inner {
        choose|v: Inner| call_ensures(self.view, (Interaction(0),), v)
    }

    /// The view function can be called at rest and builds one view only.
    pub open spec fn deterministic_at_rest(&self) -> bool {
        &&& call_requires(self.view, (Interaction(0),))
        &&& forall|a: Inner, b: Inner|
            call_ensures(self.view, (Interaction(0),), a) && call_ensures(self.view, (Interaction(0),), b) ==> a == b
    }
}

impl<ViewFn: Fn(Interaction) -> Inner, Inner: ViewLayout, Action> ViewLayout for Button<ViewFn, Inner, Action> {
    type Sublayout = Inner::Sublayout;
    type Renderables = Container<Inner::Renderables>;

    open spec fn spec_priority(&self) -> i8 { 0 }
    open spec fn spec_is_empty(&self) -> bool { false }

    open spec fn admits(&self, offer: ProposedDimensions, env: DefaultEnvironment) -> bool {
        &&& self.deterministic_at_rest()
        &&& self.resting_view().admits(offer, env)
    }

    open spec fn spec_layout(&self, offer: ProposedDimensions, env: DefaultEnvironment) -> ResolvedLayout<Inner::Sublayout> {
        self.resting_view().spec_layout(offer, env)
    }

    open spec fn render_admits(&self, layout: ResolvedLayout<Inner::Sublayout>, origin: Point, env: DefaultEnvironment) -> bool {
        &&& self.deterministic_at_rest()
        &&& self.resting_view().render_admits(layout, origin, env)
    }

    open spec fn spec_render_tree(&self, layout: ResolvedLayout<Inner::Sublayout>, origin: Point, env: DefaultEnvironment) -> Container<Inner::Renderables> {
        Container { origin, size: size_of(layout.resolved_size), child: self.resting_view().spec_render_tree(layout, origin, env) }
    }

    fn priority(&self) -> (r: i8) { 0 }

    fn is_empty(&self) -> (r: bool) { false }

    fn layout(&self, offer: &ProposedDimensions, env: &DefaultEnvironment) -> (r: ResolvedLayout<Inner::Sublayout>) {
        let view = (self.view)(Interaction::new());
        proof {
            assert(call_ensures(self.view, (Interaction(0),), view));
            assert(self.resting_view() == view);
        }
        view.layout(offer, env)
    }

    fn render_tree(&self, layout: &ResolvedLayout<Inner::Sublayout>, origin: Point, env: &DefaultEnvironment) -> (r: Container<Inner::Renderables>) {
        let view = (self.view)(Interaction::new());
        proof {
            assert(call_ensures(self.view, (Interaction(0),), view));
            assert(self.resting_view() == view);
        }
        let child = view.render_tree(layout, origin, env);
        Container {
            origin,
            size: Size { width: layout.resolved_size.width.0, height: layout.resolved_size.height.0 },
            child,
        }
    }
}

} // verus!
