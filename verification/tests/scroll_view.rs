use buoyant::event::{Event, EventResult};
use buoyant::layout::DefaultEnvironment;
use buoyant::primitives::{Dimensions, Point, ProposedDimensions, Size};
use buoyant::view::scroll_view::{bar_size, ScrollDirection, ScrollInteraction, ScrollView, ScrollViewState};
use buoyant::view::shape::rectangle::Rectangle;
use buoyant::view::ViewLayout;

#[test]
fn smaller_inner() {
    let (bar_y, bar_length) = bar_size(100, 50, 0, 10, 5, 5);
    assert_eq!(bar_y, 5);
    assert_eq!(bar_length, 90);
}

#[test]
fn equal_inner() {
    let (bar_y, bar_length) = bar_size(100, 100, 0, 10, 5, 5);
    assert_eq!(bar_y, 5);
    assert_eq!(bar_length, 90);
}

#[test]
fn double_inner_top() {
    let (bar_y, bar_length) = bar_size(100, 200, 0, 10, 5, 5);
    assert_eq!(bar_y, 5);
    assert_eq!(bar_length, 45);
}

#[test]
fn double_inner_bottom() {
    let (bar_y, bar_length) = bar_size(100, 200, -100, 10, 5, 5);
    assert_eq!(bar_y, 50);
    assert_eq!(bar_length, 45);
}

#[test]
fn double_inner_slight_overscroll_top() {
    let (bar_y, bar_length) = bar_size(100, 200, 20, 10, 5, 5);
    assert_eq!(bar_y, 5);
    assert_eq!(bar_length, 36);
}

#[test]
fn double_inner_slight_overscroll_bottom() {
    let (bar_y, bar_length) = bar_size(100, 200, -120, 10, 5, 5);
    assert_eq!(bar_y, 59);
    assert_eq!(bar_length, 36);
}

#[test]
fn min_length_bar_top_rest() {
    let (bar_y, bar_length) = bar_size(100, 100_000, 0, 7, 10, 10);
    assert_eq!(bar_y, 10);
    assert_eq!(bar_length, 7);
}

#[test]
fn min_length_bar_bottom_rest() {
    let (bar_y, bar_length) = bar_size(100, 100_000, -99900, 9, 2, 5);
    assert_eq!(bar_y, 86);
    assert_eq!(bar_length, 9);
}

#[test]
fn half_length_bar_top_overscrolled() {
    let (bar_y, bar_length) = bar_size(100, 10, 50, 7, 10, 10);
    assert_eq!(bar_y, 10);
    assert_eq!(bar_length, 40);
}

#[test]
fn half_length_bar_bottom_overscrolled() {
    let (bar_y, bar_length) = bar_size(100, 10, -50, 9, 2, 2);
    assert_eq!(bar_y, 50);
    assert_eq!(bar_length, 48);
}

#[test]
fn scroll_view_takes_offered_size() {
    let view = ScrollView::new(Rectangle);
    let env = DefaultEnvironment::default();
    let layout = view.layout(&ProposedDimensions::new(100.into(), 80.into()), &env);
    assert_eq!(layout.resolved_size, Dimensions::new(100, 80));
    // the content is offered the width less the bar space, compact height
    assert_eq!(layout.sublayouts.resolved_size, Dimensions::new(84, 1));
}

#[test]
fn scroll_view_renders_bar_beside_content() {
    let view = ScrollView::new(Rectangle);
    let env = DefaultEnvironment::default();
    let layout = view.layout(&ProposedDimensions::new(100.into(), 80.into()), &env);
    let tree = view.render_tree(&layout, Point::new(3, 4), &env);
    assert_eq!(tree.scroll_size, Size::new(100, 80));
    assert_eq!(tree.inner.offset, Point::new(3, 4));
    let bar = tree.inner.subtree.subtree.1.expect("vertical bar");
    assert_eq!(bar.origin, Point::new(89, 5));
    assert_eq!(bar.size.width, 6);
    assert!(tree.inner.subtree.subtree.2.is_none());
}

#[test]
fn drag_moves_content_and_takes_touch() {
    let view = ScrollView::new(Rectangle).with_direction(ScrollDirection::Vertical);
    let env = DefaultEnvironment::default();
    let layout = view.layout(&ProposedDimensions::new(100.into(), 80.into()), &env);
    let mut state = ScrollViewState::new();
    let mut tree = view.render_with_state(&layout, Point::zero(), &env, &mut state);

    let (result, forward) = view.handle_event(&Event::TouchDown(Point::new(10, 10)), 0, &mut tree, &mut state);
    assert_eq!(result, EventResult::new(true, true));
    assert_eq!(forward, Some(Event::TouchDown(Point::new(10, 10))));

    let (_, forward) = view.handle_event(&Event::TouchMoved(Point::new(10, 20)), 0, &mut tree, &mut state);
    assert_eq!(forward, Some(Event::TouchCancelled));
    assert_eq!(state.scroll_offset, Point::new(0, 10));
    // dragging past the top counts for half
    assert_eq!(tree.inner.subtree.subtree.0.offset, Point::new(0, 5));

    let (_, forward) = view.handle_event(&Event::TouchUp(Point::new(10, 20)), 7, &mut tree, &mut state);
    assert_eq!(forward, None);
    assert_eq!(state.interaction, ScrollInteraction::Idle);
    assert_eq!(tree.inner.subtree.frame_time_ms, 7);

    // at rest the offset snaps back into range
    let _ = view.render_with_state(&layout, Point::zero(), &env, &mut state);
    assert_eq!(state.scroll_offset, Point::new(0, 0));
}

#[test]
fn tap_passes_through() {
    let view = ScrollView::new(Rectangle);
    let env = DefaultEnvironment::default();
    let layout = view.layout(&ProposedDimensions::new(100.into(), 80.into()), &env);
    let mut state = ScrollViewState::new();
    let mut tree = view.render_with_state(&layout, Point::new(5, 5), &env, &mut state);
    let (_, down) = view.handle_event(&Event::TouchDown(Point::new(10, 10)), 0, &mut tree, &mut state);
    assert_eq!(down, Some(Event::TouchDown(Point::new(5, 5))));
    let (_, up) = view.handle_event(&Event::TouchUp(Point::new(11, 10)), 0, &mut tree, &mut state);
    assert_eq!(up, Some(Event::TouchUp(Point::new(6, 5))));
    assert_eq!(state.scroll_offset, Point::new(0, 0));
}

#[test]
fn scroll_view_starts_unscrolled() {
    let view = ScrollView::new(Rectangle);
    let state = view.build_state();
    assert_eq!(state.scroll_offset, Point::new(0, 0));
    assert_eq!(state.interaction, ScrollInteraction::Idle);
    assert_eq!(state, ScrollViewState::new());
}

#[test]
fn vertical_scroll_moves_only_down() {
    let view = ScrollView::new(Rectangle).with_direction(ScrollDirection::Vertical);
    let env = DefaultEnvironment::default();
    let layout = view.layout(&ProposedDimensions::new(100.into(), 80.into()), &env);
    let mut state = ScrollViewState::new();
    let mut tree = view.render_with_state(&layout, Point::zero(), &env, &mut state);
    let (result, forward) = view.handle_event(&Event::Scroll(Point::new(3, -5)), 0, &mut tree, &mut state);
    assert_eq!(result, EventResult::new(true, true));
    assert_eq!(forward, None);
    assert_eq!(state.scroll_offset, Point::new(0, -5));
    assert_eq!(state.interaction, ScrollInteraction::Idle);
}

#[test]
fn vertical_scroll_ignores_sideways_distance() {
    let view = ScrollView::new(Rectangle).with_direction(ScrollDirection::Vertical);
    let env = DefaultEnvironment::default();
    let layout = view.layout(&ProposedDimensions::new(100.into(), 80.into()), &env);
    let mut state = ScrollViewState::new();
    let mut tree = view.render_with_state(&layout, Point::zero(), &env, &mut state);
    let (result, _) = view.handle_event(&Event::Scroll(Point::new(i32::MIN, 5)), 0, &mut tree, &mut state);
    assert_eq!(result, EventResult::new(true, true));
    assert_eq!(state.scroll_offset, Point::new(0, 5));
}
