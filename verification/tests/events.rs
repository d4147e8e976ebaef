use buoyant::event::{answer_views_in_turn, Event, EventResult, KeyboardEvent, KeyboardEventKind, Touch, TouchPhase};
use buoyant::focus::{FocusState, Groups, Interaction};
use buoyant::layout::Alignment;
use buoyant::primitives::{Point, Size};
use buoyant::view::button::{Button, ButtonAnswer, ButtonState, ButtonTouchState, KeyboardStep};
use buoyant::view::foreach::ForEach;
use buoyant::view::modifier::background::BackgroundView;
use buoyant::view::modifier::on_cancel::OnCancel;
use buoyant::view::modifier::overlay::OverlayView;
use buoyant::view::shape::rectangle::Rectangle;

fn handled() -> EventResult {
    EventResult::new(true, false)
}

fn rebuild_only() -> EventResult {
    EventResult::new(false, true)
}

#[test]
fn background_is_asked_only_when_foreground_declines() {
    let view = BackgroundView::new(Rectangle, Rectangle, Alignment::Center);
    assert_eq!(view.handle_event(handled(), None), Some(handled()));
    assert_eq!(view.handle_event(rebuild_only(), None), None);
    assert_eq!(view.handle_event(rebuild_only(), Some(handled())), Some(EventResult::new(true, true)));
    assert_eq!(view.handle_event(EventResult::default(), Some(EventResult::default())), Some(EventResult::default()));
}

#[test]
fn overlay_answers_first() {
    let view = OverlayView::new(Rectangle, Rectangle, Alignment::Center);
    assert_eq!(view.handle_event(handled(), Some(rebuild_only())), Some(handled()));
    assert_eq!(view.handle_event(EventResult::default(), Some(rebuild_only())), Some(rebuild_only()));
}

#[test]
fn children_are_asked_in_turn() {
    let items = [1u32, 2, 3];
    let view = ForEach::<2>::new(&items, |_: &u32| Rectangle);
    assert_eq!(view.handle_event(&vec![]), None);
    assert_eq!(view.handle_event(&vec![rebuild_only()]), None);
    assert_eq!(view.handle_event(&vec![rebuild_only(), EventResult::default()]), Some(rebuild_only()));
    assert_eq!(view.handle_event(&vec![rebuild_only(), handled()]), Some(EventResult::new(true, true)));
    assert_eq!(view.handle_event(&vec![handled()]), Some(handled()));
    assert_eq!(answer_views_in_turn(&vec![EventResult::default(), handled(), rebuild_only()], 3), Some(handled()));
    assert_eq!(answer_views_in_turn(&vec![], 0), Some(EventResult::default()));
    let given = answer_views_in_turn(&vec![rebuild_only(), handled()], 5);
    let with_later = answer_views_in_turn(&vec![rebuild_only(), handled(), handled(), rebuild_only()], 5);
    assert_eq!(given, Some(EventResult::new(true, true)));
    assert_eq!(with_later, given);
}

#[test]
fn unhandled_cancel_runs_the_callback() {
    let view = OnCancel::new(Rectangle, ());
    let cancel = Event::Keyboard(KeyboardEvent { kind: KeyboardEventKind::Cancel, groups: Groups(1) });
    assert_eq!(view.handle_event(&cancel, rebuild_only()), (EventResult::new(true, true), true));
    assert_eq!(view.handle_event(&cancel, handled()), (handled(), false));
    let click = Event::Keyboard(KeyboardEvent { kind: KeyboardEventKind::Click, groups: Groups(1) });
    assert_eq!(view.handle_event(&click, EventResult::default()), (EventResult::default(), false));
}

#[test]
fn button_sorts_events() {
    let button = Button::<_, Rectangle, ()>::new_with_groups((), Groups(1), |_: Interaction| Rectangle);
    let mut state = ButtonState { touch: ButtonTouchState::AtRest, focus: FocusState::new(Groups(1)) };
    let down = Event::Touch(Touch { id: 4, location: Point::new(2, 2), phase: TouchPhase::Started });
    let answer = button.handle_event(Point::new(0, 0), Size::new(10, 10), &mut state, &down);
    assert_eq!(answer, ButtonAnswer::Touched(EventResult::new(true, true), false));
    assert_eq!(state.touch, ButtonTouchState::CaptivePressed(4));
    let right = Event::Keyboard(KeyboardEvent { kind: KeyboardEventKind::Right, groups: Groups(1) });
    let answer = button.handle_event(Point::new(0, 0), Size::new(10, 10), &mut state, &right);
    assert_eq!(answer, ButtonAnswer::Keyboard(KeyboardStep::MoveFocus(Groups(1))));
    let answer = button.handle_event(Point::new(0, 0), Size::new(10, 10), &mut state, &Event::TouchCancelled);
    assert_eq!(answer, ButtonAnswer::Ignored);
    assert_eq!(state.touch, ButtonTouchState::CaptivePressed(4));
}
