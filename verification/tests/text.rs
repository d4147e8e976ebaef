use buoyant::font::MonospaceFont;
use buoyant::layout::DefaultEnvironment;
use buoyant::primitives::{Dimensions, ProposedDimension, ProposedDimensions};
use buoyant::view::text::{Text, WrapStrategy};
use buoyant::view::ViewLayout;

fn exact(width: u32, height: u32) -> ProposedDimensions {
    ProposedDimensions::new(width.into(), height.into())
}

#[test]
fn test_single_character() {
    let font = MonospaceFont::new(10, 5);
    let text = Text::new("A", &font);
    let env = DefaultEnvironment::non_animated();
    let layout = text.layout(&exact(100, 100), &env);
    assert_eq!(layout.resolved_size, Dimensions::new(5, 10));
}

#[test]
fn test_single_character_constrained() {
    let font = MonospaceFont::new(10, 5);
    let text = Text::new("A", &font);
    let env = DefaultEnvironment::non_animated();
    let layout = text.layout(&exact(4, 10), &env);
    assert_eq!(layout.resolved_size, Dimensions::new(5, 10));
}

#[test]
fn test_text_layout() {
    let font = MonospaceFont::new(10, 5);
    let text = Text::new("Hello, world!", &font);
    let env = DefaultEnvironment::non_animated();
    let layout = text.layout(&exact(100, 100), &env);
    assert_eq!(layout.resolved_size, Dimensions::new(5 * 13, 10));
}

#[test]
fn test_text_layout_wraps() {
    let font = MonospaceFont::new(10, 5);
    let text = Text::new("Hello, world!", &font);
    let env = DefaultEnvironment::non_animated();
    let layout = text.layout(&exact(50, 100), &env);
    assert_eq!(layout.resolved_size, Dimensions::new(6 * 5, 20));
}

#[test]
fn test_wraps_partial_words() {
    let font = MonospaceFont::new(10, 5);
    let text = Text::new("123412341234", &font);
    let env = DefaultEnvironment::non_animated();
    let layout = text.layout(&exact(20, 100), &env);
    assert_eq!(layout.resolved_size, Dimensions::new(20, 30));
}

#[test]
fn test_newline() {
    let font = MonospaceFont::new(10, 5);
    let text = Text::new("1234\n12\n\n123\n", &font);
    let env = DefaultEnvironment::non_animated();
    let layout = text.layout(&exact(25, 100), &env);
    assert_eq!(layout.resolved_size, Dimensions::new(20, 40));
}

#[test]
fn test_infinite_width() {
    let font = MonospaceFont::new(1, 1);
    let text = Text::new("abc defg", &font);
    let offer = ProposedDimensions { width: ProposedDimension::Infinite, height: 100.into() };
    let env = DefaultEnvironment::non_animated();
    let layout = text.layout(&offer, &env);
    assert_eq!(layout.resolved_size, Dimensions::new(8, 1));
}

#[test]
fn test_compact_width() {
    let font = MonospaceFont::new(1, 1);
    let text = Text::new("abc defg", &font);
    let offer = ProposedDimensions { width: ProposedDimension::Compact, height: 100.into() };
    let env = DefaultEnvironment::non_animated();
    let layout = text.layout(&offer, &env);
    assert_eq!(layout.resolved_size, Dimensions::new(8, 1));
}

#[test]
fn test_infinite_height() {
    let font = MonospaceFont::new(1, 1);
    let text = Text::new("abc defg h", &font);
    let offer = ProposedDimensions { width: 10.into(), height: ProposedDimension::Infinite };
    let env = DefaultEnvironment::non_animated();
    let layout = text.layout(&offer, &env);
    assert_eq!(layout.resolved_size, Dimensions::new(10, 1));
}

#[test]
fn test_compact_height() {
    let font = MonospaceFont::new(1, 1);
    let text = Text::new("abc defg h", &font);
    let offer = ProposedDimensions { width: 10.into(), height: ProposedDimension::Compact };
    let env = DefaultEnvironment::non_animated();
    let layout = text.layout(&offer, &env);
    assert_eq!(layout.resolved_size, Dimensions::new(10, 1));
}

#[test]
fn test_infinite_height_wrapping() {
    let font = MonospaceFont::new(1, 1);
    let text = Text::new("abc defg hij", &font);
    let offer = ProposedDimensions { width: 10.into(), height: ProposedDimension::Infinite };
    let env = DefaultEnvironment::non_animated();
    let layout = text.layout(&offer, &env);
    assert_eq!(layout.resolved_size, Dimensions::new(8, 2));
}

#[test]
fn test_compact_height_wrapping() {
    let font = MonospaceFont::new(1, 1);
    let text = Text::new("abc defg hij", &font);
    let offer = ProposedDimensions { width: 10.into(), height: ProposedDimension::Compact };
    let env = DefaultEnvironment::non_animated();
    let layout = text.layout(&offer, &env);
    assert_eq!(layout.resolved_size, Dimensions::new(8, 2));
}

#[test]
fn text_stops_at_exact_height() {
    let font = MonospaceFont::new(10, 5);
    let text = Text::new("1\n2\n3\n4", &font);
    let env = DefaultEnvironment::non_animated();
    let layout = text.layout(&exact(100, 25), &env);
    assert_eq!(layout.resolved_size, Dimensions::new(5, 30));
}

#[test]
fn text_break_word_ignores_spaces() {
    let font = MonospaceFont::new(1, 1);
    let text = Text::new("ab cdef", &font).with_wrap_strategy(WrapStrategy::BreakWord);
    let env = DefaultEnvironment::non_animated();
    let layout = text.layout(&exact(4, 100), &env);
    assert_eq!(layout.resolved_size, Dimensions::new(4, 2));
}

#[test]
fn text_empty_has_no_lines() {
    let font = MonospaceFont::new(10, 5);
    let text = Text::new("", &font);
    let env = DefaultEnvironment::non_animated();
    let layout = text.layout(&exact(100, 100), &env);
    assert_eq!(layout.resolved_size, Dimensions::new(0, 0));
}

#[test]
fn text_lines_fit_exact_width() {
    let font = MonospaceFont::new(2, 3);
    let text = Text::new("aa bb cc dd ee", &font);
    let env = DefaultEnvironment::non_animated();
    let layout = text.layout(&exact(16, 100), &env);
    assert!(layout.resolved_size.width.0 <= 16);
    assert_eq!(layout.resolved_size, Dimensions::new(15, 6));
}
