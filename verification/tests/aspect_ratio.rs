use buoyant::layout::DefaultEnvironment;
use buoyant::primitives::{Dimensions, ProposedDimension, ProposedDimensions};
use buoyant::view::modifier::aspect_ratio::{AspectRatio, ContentMode, Ratio};
use buoyant::view::modifier::flex_frame::FlexFrame;
use buoyant::view::shape::circle::Circle;
use buoyant::view::shape::rectangle::Rectangle;
use buoyant::view::ViewLayout;

fn offer(width: ProposedDimension, height: ProposedDimension) -> ProposedDimensions {
    ProposedDimensions::new(width, height)
}

fn ideal(width: u16, height: u16) -> FlexFrame<Rectangle> {
    FlexFrame::new(Rectangle).with_ideal_width(width).with_ideal_height(height)
}

#[test]
fn ideal_aspect_ratio_fit() {
    let env = DefaultEnvironment::default();
    let aspect_ratio = AspectRatio::new(ideal(5, 10), Ratio::Ideal, ContentMode::Fit);
    let check = |o: ProposedDimensions, d: Dimensions| assert_eq!(aspect_ratio.layout(&o, &env).resolved_size, d);
    check(offer(100.into(), 100.into()), Dimensions::new(50, 100));
    check(offer(100.into(), 1000.into()), Dimensions::new(100, 200));
    check(offer(ProposedDimension::Infinite, 100.into()), Dimensions::new(50, 100));
    check(offer(ProposedDimension::Compact, 100.into()), Dimensions::new(50, 100));
    check(offer(100.into(), ProposedDimension::Infinite), Dimensions::new(100, 200));
    check(offer(100.into(), ProposedDimension::Compact), Dimensions::new(100, 200));
    check(ProposedDimensions::compact(), Dimensions::new(5, 10));
}

#[test]
fn ideal_aspect_ratio_fill() {
    let env = DefaultEnvironment::default();
    let aspect_ratio = AspectRatio::new(ideal(5, 10), Ratio::Ideal, ContentMode::Fill);
    let check = |o: ProposedDimensions, d: Dimensions| assert_eq!(aspect_ratio.layout(&o, &env).resolved_size, d);
    check(offer(100.into(), 100.into()), Dimensions::new(100, 200));
    check(offer(100.into(), 1000.into()), Dimensions::new(500, 1000));
    check(offer(ProposedDimension::Infinite, 100.into()), Dimensions::infinite());
    check(offer(ProposedDimension::Compact, 100.into()), Dimensions::new(50, 100));
    check(offer(100.into(), ProposedDimension::Infinite), Dimensions::infinite());
    check(offer(100.into(), ProposedDimension::Compact), Dimensions::new(100, 200));
    check(ProposedDimensions::compact(), Dimensions::new(5, 10));
}

#[test]
fn fixed_aspect_ratio_fit() {
    let env = DefaultEnvironment::default();
    let aspect_ratio = AspectRatio::new(ideal(10, 10), Ratio::Fixed(1, 2), ContentMode::Fit);
    let check = |o: ProposedDimensions, d: Dimensions| assert_eq!(aspect_ratio.layout(&o, &env).resolved_size, d);
    check(offer(100.into(), 100.into()), Dimensions::new(50, 100));
    check(offer(100.into(), 1000.into()), Dimensions::new(100, 200));
    check(offer(ProposedDimension::Infinite, 100.into()), Dimensions::new(50, 100));
    check(offer(ProposedDimension::Compact, 100.into()), Dimensions::new(50, 100));
    check(offer(100.into(), ProposedDimension::Infinite), Dimensions::new(100, 200));
    check(offer(100.into(), ProposedDimension::Compact), Dimensions::new(100, 200));
    check(ProposedDimensions::compact(), Dimensions::new(10, 10));
}

#[test]
fn fixed_aspect_ratio_fill() {
    let env = DefaultEnvironment::default();
    let aspect_ratio = AspectRatio::new(ideal(10, 10), Ratio::Fixed(1, 2), ContentMode::Fill);
    let check = |o: ProposedDimensions, d: Dimensions| assert_eq!(aspect_ratio.layout(&o, &env).resolved_size, d);
    check(offer(100.into(), 100.into()), Dimensions::new(100, 200));
    check(offer(100.into(), 1000.into()), Dimensions::new(500, 1000));
    check(offer(ProposedDimension::Infinite, 100.into()), Dimensions::infinite());
    check(offer(ProposedDimension::Compact, 100.into()), Dimensions::new(50, 100));
    check(offer(100.into(), ProposedDimension::Infinite), Dimensions::infinite());
    check(offer(100.into(), ProposedDimension::Compact), Dimensions::new(100, 200));
    check(ProposedDimensions::compact(), Dimensions::new(10, 10));
}

#[test]
fn aspect_ratio_fit_inherits_fixed_child_size() {
    let env = DefaultEnvironment::default();
    let aspect_ratio = AspectRatio::new(Circle, Ratio::Fixed(1, 2), ContentMode::Fit);
    let layout = aspect_ratio.layout(&offer(100.into(), 100.into()), &env);
    assert_eq!(layout.resolved_size, Dimensions::new(50, 50));
}

#[test]
fn aspect_ratio_fill_inherits_fixed_child_size() {
    let env = DefaultEnvironment::default();
    let aspect_ratio = AspectRatio::new(Circle, Ratio::Fixed(1, 2), ContentMode::Fill);
    let layout = aspect_ratio.layout(&offer(100.into(), 100.into()), &env);
    assert_eq!(layout.resolved_size, Dimensions::new(100, 100));
}

#[test]
fn zeros_should_not_panic() {
    let env = DefaultEnvironment::default();
    let layout = AspectRatio::new(Circle, Ratio::Fixed(0, 2), ContentMode::Fill).layout(&offer(1.into(), 1.into()), &env);
    assert_eq!(layout.resolved_size, Dimensions::new(1, 1));

    let layout = AspectRatio::new(Circle, Ratio::Fixed(2, 0), ContentMode::Fill).layout(&offer(1.into(), 1.into()), &env);
    assert_eq!(layout.resolved_size, Dimensions::new(1, 1));

    let layout = AspectRatio::new(Circle, Ratio::Fixed(0, 0), ContentMode::Fill).layout(&offer(1.into(), 1.into()), &env);
    assert_eq!(layout.resolved_size, Dimensions::new(1, 1));

    let layout = AspectRatio::new(Circle, Ratio::Ideal, ContentMode::Fit).layout(&offer(1.into(), 0.into()), &env);
    assert_eq!(layout.resolved_size, Dimensions::new(0, 0));

    let layout = AspectRatio::new(Circle, Ratio::Ideal, ContentMode::Fit).layout(&offer(0.into(), 1.into()), &env);
    assert_eq!(layout.resolved_size, Dimensions::new(0, 0));

    let layout = AspectRatio::new(Circle, Ratio::Ideal, ContentMode::Fill).layout(&offer(0.into(), 0.into()), &env);
    assert_eq!(layout.resolved_size, Dimensions::new(0, 0));
}
