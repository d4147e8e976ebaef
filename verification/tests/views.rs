use buoyant::event::{Event, EventResult, KeyboardEvent, KeyboardEventKind, Touch, TouchPhase};
use buoyant::focus::{FocusAction, FocusGroup, FocusResult, FocusState, Groups, Interaction};
use buoyant::layout::DefaultEnvironment;
use buoyant::primitives::{Dimensions, Point, ProposedDimension, ProposedDimensions, Size};
use buoyant::view::button::{Button, ButtonState, ButtonTouchState};
use buoyant::view::empty_view::EmptyView;
use buoyant::view::foreach::ForEach;
use buoyant::view::hstack::HStack;
use buoyant::view::modifier::fixed_frame::FixedFrame;
use buoyant::view::modifier::popover::{Dismissal, Popover, PopoverFocusTree, PopoverRoute, PopoverState};
use buoyant::view::modifier::priority::Priority;
use buoyant::view::paginate::{PageEvent, Paginate, PaginateFocusTree, PaginateStep};
use buoyant::view::pagination::{Pagination, PaginationAction, PaginationState, PaginationStep};
use buoyant::view::shape::rectangle::Rectangle;
use buoyant::view::stack::{layout_n, StackParams};
use buoyant::view::table::{step_focus, Cells, Focus, Move, Table, TableIndex};
use buoyant::layout::LayoutDirection;
use buoyant::view::ViewLayout;

fn exact(width: u32, height: u32) -> ProposedDimensions {
    ProposedDimensions::new(width.into(), height.into())
}

#[test]
fn hstack_shares_width_evenly() {
    let stack = HStack::new((Rectangle, Rectangle)).with_spacing(10);
    let env = DefaultEnvironment::default();
    let layout = stack.layout(&exact(100, 50), &env);
    assert_eq!(layout.resolved_size, Dimensions::new(100, 50));
    assert_eq!(layout.sublayouts.0.resolved_size, Dimensions::new(45, 50));
    assert_eq!(layout.sublayouts.1.resolved_size, Dimensions::new(45, 50));
    let tree = stack.render_tree(&layout, Point::new(1, 2), &env);
    assert_eq!(tree.0.origin, Point::new(1, 2));
    assert_eq!(tree.1.origin, Point::new(56, 2));
}

#[test]
fn hstack_compact_sums_children() {
    let stack = HStack::new((Rectangle, Rectangle, Rectangle)).with_spacing(10);
    let env = DefaultEnvironment::default();
    let layout = stack.layout(&ProposedDimensions::compact(), &env);
    assert_eq!(layout.resolved_size, Dimensions::new(23, 1));
}

#[test]
fn hstack_priority_goes_first() {
    let stack = HStack::new((FixedFrame::new(Rectangle).with_width(30), Priority::new(1, Rectangle)));
    let env = DefaultEnvironment::default();
    let layout = stack.layout(&exact(100, 10), &env);
    assert_eq!(layout.sublayouts.1.resolved_size, Dimensions::new(100, 10));
    assert_eq!(layout.resolved_size, Dimensions::new(100, 10));
}

#[test]
fn hstack_never_exceeds_exact_offer() {
    let stack = HStack::new((FixedFrame::new(Rectangle).with_width(80), FixedFrame::new(Rectangle).with_width(80)));
    let env = DefaultEnvironment::default();
    let layout = stack.layout(&exact(100, 10), &env);
    assert!(layout.resolved_size.width.0 <= 100);
    assert!(layout.resolved_size.height.0 <= 10);
}

#[test]
fn hstack_empty_children_take_no_spacing() {
    let stack = HStack::new((Rectangle, EmptyView, Rectangle)).with_spacing(10);
    let env = DefaultEnvironment::default();
    let layout = stack.layout(&ProposedDimensions::compact(), &env);
    assert_eq!(layout.resolved_size, Dimensions::new(12, 1));
}

#[test]
fn layout_n_vertical_offers() {
    let children = (Rectangle, Rectangle);
    let env = DefaultEnvironment::default();
    let params = StackParams { direction: LayoutDirection::Vertical, spacing: 0, slots: 2, clamp_cross: false };
    let (size, offers) = layout_n(&children, &exact(20, 9), &env, params);
    assert_eq!(size, Dimensions::new(20, 9));
    assert_eq!(offers[0].height, ProposedDimension::Exact(5));
    assert_eq!(offers[1].height, ProposedDimension::Exact(4));
}

#[test]
fn foreach_stacks_items_vertically() {
    let items = [1u32, 2, 3];
    let view = ForEach::<2>::new(&items, |_: &u32| Rectangle).with_spacing(2);
    let env = DefaultEnvironment::default();
    let layout = view.layout(&ProposedDimensions::compact(), &env);
    assert_eq!(layout.resolved_size, Dimensions::new(1, 4));
    assert_eq!(layout.sublayouts.len(), 2);
    let tree = view.render_tree(&layout, Point::new(0, 0), &env);
    assert_eq!(tree.get(1).origin, Point::new(0, 3));
}

#[test]
fn button_tap_runs_action() {
    let button = Button::<_, Rectangle, ()>::new((), |_: Interaction| Rectangle);
    let mut state = ButtonState { touch: ButtonTouchState::AtRest, focus: FocusState::new(Groups(0)) };
    let origin = Point::new(0, 0);
    let size = Size::new(10, 10);
    let down = Touch { id: 1, location: Point::new(5, 5), phase: TouchPhase::Started };
    let (result, fire) = button.handle_touch(origin, size, &mut state, &down);
    assert_eq!(result, EventResult::new(true, true));
    assert!(!fire);
    assert_eq!(state.touch, ButtonTouchState::CaptivePressed(1));
    let other = Touch { id: 2, location: Point::new(50, 50), phase: TouchPhase::Ended };
    let (result, fire) = button.handle_touch(origin, size, &mut state, &other);
    assert_eq!(result, EventResult::default());
    assert!(!fire);
    let up = Touch { id: 1, location: Point::new(6, 6), phase: TouchPhase::Ended };
    let (_, fire) = button.handle_touch(origin, size, &mut state, &up);
    assert!(fire);
    assert_eq!(state.touch, ButtonTouchState::AtRest);
}

#[test]
fn button_release_outside_does_not_fire() {
    let button = Button::<_, Rectangle, ()>::new((), |_: Interaction| Rectangle);
    let mut state = ButtonState { touch: ButtonTouchState::AtRest, focus: FocusState::new(Groups(0)) };
    let origin = Point::new(0, 0);
    let size = Size::new(10, 10);
    let down = Touch { id: 3, location: Point::new(1, 1), phase: TouchPhase::Started };
    button.handle_touch(origin, size, &mut state, &down);
    let moved = Touch { id: 3, location: Point::new(20, 1), phase: TouchPhase::Moved };
    button.handle_touch(origin, size, &mut state, &moved);
    assert_eq!(state.touch, ButtonTouchState::Captive(3));
    let up = Touch { id: 3, location: Point::new(20, 1), phase: TouchPhase::Ended };
    let (result, fire) = button.handle_touch(origin, size, &mut state, &up);
    assert!(!fire);
    assert!(result.handled);
}

#[test]
fn paginate_moves_page_when_child_unfocused() {
    let view = Paginate::new(FocusGroup(1), false, (), Rectangle);
    let mut focus = PaginateFocusTree { child: (), child_holds_focus: false };
    let d = view.decide(&Event::Focus { action: FocusAction::Next, group: FocusGroup(2) }, &mut focus);
    assert_eq!(d.page, Some(PageEvent::Next));
    assert_eq!(d.step, PaginateStep::Answer(FocusResult::HandledFocused));
    let d = view.decide(&Event::Focus { action: FocusAction::Select, group: FocusGroup(2) }, &mut focus);
    assert!(focus.child_holds_focus);
    assert_eq!(d.step, PaginateStep::ChildFocus(FocusGroup(2)));
    let d = view.decide(&Event::Focus { action: FocusAction::Blur, group: FocusGroup(2) }, &mut focus);
    assert_eq!(d.step, PaginateStep::ChildBlur);
    let r = view.answer(&Event::Focus { action: FocusAction::Blur, group: FocusGroup(2) }, d.step, FocusResult::Deferred, &mut focus);
    assert_eq!(r, FocusResult::HandledFocused);
    assert!(!focus.child_holds_focus);
}

#[test]
fn pagination_arrow_changes_page() {
    let view = Pagination::new_horizontal(Groups(1), (), |_: Interaction| Rectangle);
    let mut state = PaginationState { observed_groups: Groups(1), focus: FocusState::new(Groups(1)), entered: FocusState::new(Groups(1)), inner: () };
    let event = Event::Keyboard(KeyboardEvent { kind: KeyboardEventKind::Right, groups: Groups(1) });
    let b = view.begin(&event, Groups(1), true, &mut state);
    assert_eq!(b.action, Some(PaginationAction::Next));
    assert_eq!(b.step, PaginationStep::Answer(EventResult::new(true, false)));
    assert_eq!(b.blur, Some(Groups(1)));
    assert_eq!(state.observed_groups, Groups(0));
}

#[test]
fn pagination_across_leaves_to_focus_move() {
    let view = Pagination::new_horizontal(Groups(1), (), |_: Interaction| Rectangle);
    let mut state = PaginationState { observed_groups: Groups(0), focus: FocusState::new(Groups(1)), entered: FocusState::new(Groups(1)), inner: () };
    let event = Event::Keyboard(KeyboardEvent { kind: KeyboardEventKind::Down, groups: Groups(1) });
    let b = view.begin(&event, Groups(1), true, &mut state);
    assert_eq!(b.step, PaginationStep::AnswerMove(Groups(1)));
    assert_eq!(b.action, None);
}

#[test]
fn popover_routes_events() {
    let value = 5u8;
    let popover = Popover::new(Rectangle, Some(&value), |_: &u8| Rectangle);
    let mut state = PopoverState { inner_state: (), overlay_state: Some(()) };
    let mut focus = PopoverFocusTree { inner: (), overlay: Some(()) };
    assert_eq!(popover.handle_event(&Event::TouchCancelled, false, &mut state, &mut focus, (), ()), PopoverRoute::Deferred);
    assert_eq!(popover.handle_event(&Event::TouchCancelled, true, &mut state, &mut focus, (), ()), PopoverRoute::Overlay);
    let (answer, rebuild) = popover.apply_dismissal(Dismissal::Dismiss, &mut focus);
    assert_eq!(answer, FocusResult::HandledFocused);
    assert!(rebuild);
    assert!(focus.overlay.is_none());

    let none: Option<&u8> = None;
    let plain = Popover::new(Rectangle, none, |_: &u8| Rectangle);
    let route = plain.handle_event(&Event::Focus { action: FocusAction::Next, group: FocusGroup(0) }, true, &mut state, &mut focus, (), ());
    assert_eq!(route, PopoverRoute::Inner);
    assert!(state.overlay_state.is_none());
}

#[test]
fn table_focus_wraps_around() {
    assert_eq!(step_focus(2, 1, Move::Right, 3, 2), (0, 0));
    assert_eq!(step_focus(0, 0, Move::Left, 3, 2), (2, 1));
    assert_eq!(step_focus(2, 0, Move::Right, 3, 2), (0, 1));
    assert_eq!(step_focus(1, 1, Move::Down, 3, 2), (2, 0));
    let mut focus = Focus::default_last(());
    focus.normalize_sentinels(3, 2);
    assert_eq!((focus.x, focus.y), (2, 1));
}

#[test]
fn table_shows_at_most_its_capacity() {
    let cells = Cells::new(5, 1, vec![(0usize, 0usize), (1, 0), (2, 0), (3, 0), (4, 0)]).expect("five cells");
    let table = Table::<2, 3>::new::<Cells<(usize, usize)>, Rectangle, _>(cells, |_: (usize, usize)| Rectangle).with_stroke(2);
    assert_eq!(table.width, 3);
    assert_eq!(table.height, 1);
    assert_eq!(table.row_stroke, 2);
    assert_eq!(table.items.index_row_major(4), (4, 0));
    assert!(Cells::new(2, 2, vec![1u8, 2, 3]).is_none());
}

#[test]
fn initial_states_are_untouched_and_unfocused() {
    let button = Button::<_, Rectangle, ()>::new_with_groups((), Groups(2), |_: Interaction| Rectangle);
    let state = button.build_state();
    assert_eq!(state.touch, ButtonTouchState::AtRest);
    assert_eq!(state.focus, FocusState::new(Groups(2)));

    let pagination = Pagination::new_horizontal(Groups(1), (), |_: Interaction| Rectangle);
    let state: PaginationState<u8> = pagination.build_state(7);
    assert_eq!(state.observed_groups, Groups(0));
    assert_eq!(state.focus, FocusState::new(Groups(1)));
    assert_eq!(state.entered, FocusState::new(Groups(1)));
    assert_eq!(state.inner, 7);

    let value = 4u8;
    let shown = Popover::new(Rectangle, Some(&value), |_: &u8| Rectangle);
    let state = shown.build_state(1u8, 2u8);
    assert_eq!(state.inner_state, 1);
    assert_eq!(state.overlay_state, Some(2));
    let none: Option<&u8> = None;
    let hidden = Popover::new(Rectangle, none, |_: &u8| Rectangle);
    assert_eq!(hidden.build_state(1u8, 2u8).overlay_state, None);
}

#[test]
fn popover_gives_overlay_focus_and_state_before_routing() {
    let value = 5u8;
    let popover = Popover::new(Rectangle, Some(&value), |_: &u8| Rectangle);
    let mut state: PopoverState<(), u8> = PopoverState { inner_state: (), overlay_state: None };
    let mut focus: PopoverFocusTree<(), u8> = PopoverFocusTree { inner: (), overlay: None };
    let blur = Event::Focus { action: FocusAction::Blur, group: FocusGroup(0) };
    assert_eq!(popover.handle_event(&blur, false, &mut state, &mut focus, 1, 2), PopoverRoute::OverlayFocus);
    assert_eq!(focus.overlay, Some(1));
    assert_eq!(state.overlay_state, Some(2));
    let (answer, rebuild) = popover.apply_dismissal(Dismissal::Retain, &mut focus);
    assert_eq!(answer, FocusResult::HandledUnfocused);
    assert!(!rebuild);
    assert_eq!(focus.overlay, Some(1));
    assert_eq!(popover.handle_event(&blur, true, &mut state, &mut focus, 7, 8), PopoverRoute::OverlayFocus);
    assert_eq!(focus.overlay, Some(1));
    assert_eq!(state.overlay_state, Some(2));

    let mut state: PopoverState<(), u8> = PopoverState { inner_state: (), overlay_state: None };
    let mut focus: PopoverFocusTree<(), u8> = PopoverFocusTree { inner: (), overlay: None };
    assert_eq!(popover.handle_event(&Event::TouchCancelled, false, &mut state, &mut focus, 1, 2), PopoverRoute::Deferred);
    assert_eq!(focus.overlay, None);
    assert_eq!(popover.handle_event(&Event::TouchCancelled, true, &mut state, &mut focus, 1, 2), PopoverRoute::Overlay);
    assert_eq!(focus.overlay, Some(1));
    assert_eq!(state.overlay_state, Some(2));
}

#[test]
fn paginate_group_moves_respect_forceful() {
    let gentle = Paginate::new(FocusGroup(1), false, (), Rectangle);
    let mut focus = PaginateFocusTree { child: (), child_holds_focus: true };
    let d = gentle.decide(&Event::Focus { action: FocusAction::Next, group: FocusGroup(1) }, &mut focus);
    assert_eq!(d.page, None);
    assert_eq!(d.step, PaginateStep::Child);
    let forceful = Paginate::new(FocusGroup(1), true, (), Rectangle);
    let d = forceful.decide(&Event::Focus { action: FocusAction::Next, group: FocusGroup(1) }, &mut focus);
    assert_eq!(d.page, Some(PageEvent::Next));
    assert_eq!(d.step, PaginateStep::Answer(FocusResult::HandledFocused));
    let mut free = PaginateFocusTree { child: (), child_holds_focus: false };
    let d = gentle.decide(&Event::Focus { action: FocusAction::Previous, group: FocusGroup(1) }, &mut free);
    assert_eq!(d.page, Some(PageEvent::Previous));
}

#[test]
fn foreach_leaves_one_gap_between_two_items() {
    let items = [0u8, 1u8];
    let view = ForEach::<4>::new(&items, |_: &u8| Rectangle).with_spacing(2);
    let env = DefaultEnvironment::default();
    let layout = view.layout(&exact(5, 10), &env);
    assert_eq!(layout.resolved_size, Dimensions::new(5, 10));
    assert_eq!(layout.sublayouts.get(0).resolved_size.height.0, 4);
    assert_eq!(layout.sublayouts.get(1).resolved_size.height.0, 4);
}

#[test]
fn press_moves_release_runs_action_once() {
    let button = Button::<_, Rectangle, ()>::new((), |_: Interaction| Rectangle);
    let origin = Point::new(0, 0);
    let size = Size::new(10, 10);
    let run = |start: Point, moves: &[Point], end: Point| -> (usize, ButtonTouchState) {
        let mut state = ButtonState { touch: ButtonTouchState::AtRest, focus: FocusState::new(Groups(0)) };
        let mut fired = 0;
        let mut step = |phase: TouchPhase, p: Point, state: &mut ButtonState| {
            let (_, fire) = button.handle_touch(origin, size, state, &Touch { id: 9, location: p, phase });
            if fire { fired += 1; }
        };
        step(TouchPhase::Started, start, &mut state);
        for p in moves {
            step(TouchPhase::Moved, *p, &mut state);
        }
        step(TouchPhase::Ended, end, &mut state);
        (fired, state.touch)
    };
    assert_eq!(run(Point::new(1, 1), &[Point::new(20, 1), Point::new(2, 2)], Point::new(3, 3)), (1, ButtonTouchState::AtRest));
    assert_eq!(run(Point::new(1, 1), &[Point::new(2, 2)], Point::new(30, 3)), (0, ButtonTouchState::AtRest));
    assert_eq!(run(Point::new(40, 1), &[Point::new(2, 2)], Point::new(3, 3)), (0, ButtonTouchState::AtRest));
}
