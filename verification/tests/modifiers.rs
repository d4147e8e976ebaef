use buoyant::layout::{DefaultEnvironment, HorizontalAlignment, VerticalAlignment};
use buoyant::primitives::{Dimension, Dimensions, Point, ProposedDimensions};
use buoyant::view::modifier::fixed_frame::FixedFrame;
use buoyant::view::modifier::flex_frame::FlexFrame;
use buoyant::view::modifier::padding::{Edges, Padding};
use buoyant::view::modifier::ViewModifier;
use buoyant::view::shape::rectangle::Rectangle;
use buoyant::view::ViewLayout;

fn exact(width: u32, height: u32) -> ProposedDimensions {
    ProposedDimensions::new(width.into(), height.into())
}

#[test]
fn padding_modifier_insets_the_child() {
    let view = Rectangle.padding(Edges::All, 10);
    let direct = Padding::new(Edges::All, 10, Rectangle);
    assert_eq!(view.edges, direct.edges);
    assert_eq!(view.padding, direct.padding);
    let env = DefaultEnvironment::default();
    let layout = view.layout(&exact(100, 50), &env);
    assert_eq!(layout.resolved_size, Dimensions::new(100, 50));
    assert_eq!(layout.sublayouts.resolved_size, Dimensions::new(80, 30));
}

#[test]
fn frame_sized_modifier_fixes_both_dimensions() {
    let view = Rectangle.frame_sized(40, 20);
    assert_eq!(view.width, Some(40));
    assert_eq!(view.height, Some(20));
    let env = DefaultEnvironment::default();
    let layout = view.layout(&exact(100, 50), &env);
    assert_eq!(layout.resolved_size, Dimensions::new(40, 20));
    let unset = FixedFrame::new(Rectangle);
    assert_eq!(Rectangle.frame().width, unset.width);
}

#[test]
fn flex_infinite_width_modifier_takes_the_offered_width() {
    let view = Rectangle.flex_infinite_width(HorizontalAlignment::Leading);
    assert_eq!(view.max_width, Some(Dimension::infinite()));
    assert_eq!(view.horizontal_alignment, HorizontalAlignment::Leading);
    assert_eq!(view.vertical_alignment, VerticalAlignment::Center);
    assert_eq!(view.max_height, FlexFrame::new(Rectangle).max_height);
}

#[test]
fn priority_and_offset_modifiers() {
    let view = Rectangle.priority(3);
    assert_eq!(ViewLayout::priority(&view), 3);
    let moved = Rectangle.offset(5, -2);
    assert_eq!(moved.offset, Point::new(5, -2));
}

#[test]
fn paddings_compare_by_edges_and_amount() {
    assert!(Padding::new(Edges::All, 10, 1u8) == Padding::new(Edges::All, 10, 2u8));
    assert!(Padding::new(Edges::All, 10, 1u8) != Padding::new(Edges::Top, 10, 1u8));
    assert!(Padding::new(Edges::All, 10, 1u8) != Padding::new(Edges::All, 11, 1u8));
}
