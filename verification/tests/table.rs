use buoyant::event::{Event, Key};
use buoyant::focus::{FocusAction, FocusGroup, FocusResult};
use buoyant::layout::DefaultEnvironment;
use buoyant::primitives::{Dimensions, Point, ProposedDimension, ProposedDimensions, Size};
use buoyant::render::Rect;
use buoyant::view::shape::rectangle::Rectangle;
use buoyant::view::table::{divider_positions, Cells, Focus, Move, Table, TableAlgorithm, TableRoute, TableState};
use buoyant::view::ViewLayout;

fn grid() -> Cells<u8> {
    Cells::new(2, 2, vec![0, 1, 2, 3]).expect("four cells")
}

#[test]
fn fixed_both_shares_offer() {
    let table = Table::<2, 2>::new::<Cells<u8>, Rectangle, _>(grid(), |_: u8| Rectangle)
        .with_algorithm(TableAlgorithm::FixedBoth)
        .with_stroke(1);
    let env = DefaultEnvironment::default();
    let layout = table.layout(&ProposedDimensions::new(21.into(), 11.into()), &env);
    assert_eq!(layout.resolved_size, Dimensions::new(21, 11));
    assert_eq!(*layout.sublayouts.col_widths.get(0), 10);
    assert_eq!(*layout.sublayouts.row_heights.get(1), 5);
    let tree = table.render_tree(&layout, Point::new(0, 0), &env);
    let cell = tree.renderables.get(1).get(1).as_ref().expect("laid out");
    assert_eq!(cell.origin, Point::new(11, 6));
}

#[test]
fn fixed_width_stacks_rows() {
    let table = Table::<2, 2>::new::<Cells<u8>, Rectangle, _>(grid(), |_: u8| Rectangle).with_stroke(1);
    let env = DefaultEnvironment::default();
    let layout = table.layout(&ProposedDimensions::new(21.into(), ProposedDimension::Compact), &env);
    assert_eq!(layout.resolved_size, Dimensions::new(21, 3));
}

#[test]
fn fixed_width_needs_exact_width() {
    let table = Table::<2, 2>::new::<Cells<u8>, Rectangle, _>(grid(), |_: u8| Rectangle);
    let env = DefaultEnvironment::default();
    let layout = table.layout(&ProposedDimensions::compact(), &env);
    assert_eq!(layout.resolved_size, Dimensions::new(0, 0));
    assert!(layout.sublayouts.sublayouts.get(0).get(0).is_none());
}

#[test]
fn auto_sizes_columns_from_cells() {
    let table = Table::<2, 2>::new::<Cells<u8>, Rectangle, _>(grid(), |_: u8| Rectangle)
        .with_algorithm(TableAlgorithm::Auto)
        .with_stroke(1);
    let env = DefaultEnvironment::default();
    let layout = table.layout(&ProposedDimensions::new(21.into(), 11.into()), &env);
    assert_eq!(layout.resolved_size, Dimensions::new(21, 11));
}

#[test]
fn arrow_starts_navigation() {
    let table = Table::<2, 2>::new::<Cells<u8>, Rectangle, _>(grid(), |_: u8| Rectangle);
    let mut state: TableState<(), 2, 2> = TableState::new([[(), ()], [(), ()]]);
    let mut focus = Focus::default_last(());
    let route = table.route_event(&Event::KeyDown(Key::RightArrow), &mut state, &mut focus);
    assert_eq!(state.captive, Some(FocusGroup(0)));
    assert_eq!((focus.x, focus.y), (1, 1));
    match route {
        TableRoute::Navigate { mov, steps, .. } => {
            assert_eq!(mov, Move::Right);
            assert_eq!(steps, 3);
        },
        other => panic!("unexpected route {:?}", other),
    }
    let route = table.route_event(&Event::Focus { action: FocusAction::Blur, group: FocusGroup(0) }, &mut state, &mut focus);
    assert_eq!(state.captive, None);
    assert_eq!(route, TableRoute::Focused(Event::Focus { action: FocusAction::Blur, group: FocusGroup(0) }));
}

#[test]
fn strokes_lie_between_cells() {
    let table = Table::<2, 2>::new::<Cells<u8>, Rectangle, _>(grid(), |_: u8| Rectangle)
        .with_algorithm(TableAlgorithm::FixedBoth)
        .with_stroke(1);
    let env = DefaultEnvironment::default();
    let layout = table.layout(&ProposedDimensions::new(21.into(), 11.into()), &env);
    let tree = table.render_tree(&layout, Point::new(3, 4), &env);
    let lines = tree.stroke_rects();
    assert_eq!(lines.len(), 2);
    assert_eq!(lines[0], Rect { origin: Point::new(13, 4), size: Size::new(1, 11) });
    assert_eq!(lines[1], Rect { origin: Point::new(3, 9), size: Size::new(21, 1) });
}

#[test]
fn divider_positions_follow_tracks() {
    let sizes = buoyant::view::foreach::list_from_vec(vec![4u32, 6, 8]);
    assert_eq!(divider_positions(10, &sizes, 2, 3), vec![14, 22]);
    assert_eq!(divider_positions(10, &sizes, 2, 1), Vec::<i32>::new());
    assert_eq!(divider_positions(10, &sizes, 2, 0), Vec::<i32>::new());
}

#[test]
fn navigation_walks_every_cell_while_cells_defer() {
    let table = Table::<2, 2>::new::<Cells<u8>, Rectangle, _>(grid(), |_: u8| Rectangle);
    let mut state: TableState<(), 2, 2> = TableState::new([[(), ()], [(), ()]]);
    let mut focus = Focus::default_first(());
    let answer = table.handle_event(&Event::KeyDown(Key::RightArrow), &mut state, &mut focus);
    assert_eq!(answer, FocusResult::Deferred);
    assert_eq!(state.captive, Some(FocusGroup(0)));
    assert_eq!((focus.x, focus.y), (1, 1));

    let mut focus = Focus::default_last(());
    let mut state: TableState<(), 2, 2> = TableState::new([[(), ()], [(), ()]]);
    let answer = table.handle_event(&Event::KeyDown(Key::LeftArrow), &mut state, &mut focus);
    assert_eq!(answer, FocusResult::Deferred);
    assert_eq!((focus.x, focus.y), (0, 0));
}

#[test]
fn events_without_navigation_are_offered_to_every_cell() {
    let table = Table::<2, 2>::new::<Cells<u8>, Rectangle, _>(grid(), |_: u8| Rectangle);
    let mut state: TableState<(), 2, 2> = TableState::new([[(), ()], [(), ()]]);
    let mut focus = Focus::default_first(());
    let answer = table.handle_event(&Event::TouchCancelled, &mut state, &mut focus);
    assert_eq!(answer, FocusResult::Deferred);
    assert_eq!(state.captive, None);
    assert_eq!((focus.x, focus.y), (0, 0));
}
