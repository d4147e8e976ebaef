//! Text laid out in a font, wrapped to the width it is offered.

use vstd::prelude::*;
use vstd::string::StrSliceExecFns;
use crate::font::FontMetrics;
use crate::layout::{half_toward_zero, DefaultEnvironment, ResolvedLayout};
use crate::primitives::{Dimension, Dimensions, Point, ProposedDimension, ProposedDimensions, Size};
use crate::render::size_of;
use crate::view::ViewLayout;

verus! {

/// Where lines of text may be broken.
#[derive(Debug, Clone, Copy, PartialEq, Eq, Structural)]
pub enum WrapStrategy {
    /// Break lines at whitespace, and inside a word only when it alone is too wide.
    Whitespace,
    /// Break lines at any character.
    BreakWord,
}

/// The alignment of the lines of multiline text.
#[derive(Debug, Clone, Copy, PartialEq, Eq, Structural)]
pub enum HorizontalTextAlignment {
    /// Lines start at the leading edge.
    Leading,
    /// Lines are centered.
    Center,
    /// Lines end at the trailing edge.
    Trailing,
}

/// The offset of a line of width `content` aligned within `available`.
pub open spec fn text_align_offset(a: HorizontalTextAlignment, available: int, content: int) -> int {
    match a {
        HorizontalTextAlignment::Leading => 0,
        HorizontalTextAlignment::Center => half_toward_zero(available - content),
        HorizontalTextAlignment::Trailing => available - content,
    }
}

impl HorizontalTextAlignment {
    /// The default alignment, [`HorizontalTextAlignment::Leading`].
    pub fn default() -> (r: HorizontalTextAlignment)
        ensures
            r == HorizontalTextAlignment::Leading,
    {
        HorizontalTextAlignment::Leading
    }

    /// The x offset of a line of width `content` aligned within `available`.
    pub fn align(self, available: i32, content: i32) -> (r: i32)
        requires
            i32::MIN <= available - content <= i32::MAX,
        ensures
            r == text_align_offset(self, available as int, content as int),
    {
        match self {
            HorizontalTextAlignment::Leading => 0,
            HorizontalTextAlignment::Center => (available - content) / 2,
            HorizontalTextAlignment::Trailing => available - content,
        }
    }
}

/// Text drawn in a font. Multiline text is leading-aligned by default.
#[derive(Debug, Clone)]
pub struct Text<'a, F> {
    pub text: &'a str,
    pub font: &'a F,
    pub alignment: HorizontalTextAlignment,
    pub wrap: WrapStrategy,
}

impl<'a, F> Text<'a, F> {
    /// `text` in `font`, leading-aligned and wrapped at whitespace.
    pub fn new(text: &'a str, font: &'a F) -> (r: Self)
        ensures
            r == (Text { text, font, alignment: HorizontalTextAlignment::Leading, wrap: WrapStrategy::Whitespace }),
    {
        Text { text, font, alignment: HorizontalTextAlignment::default(), wrap: WrapStrategy::Whitespace }
    }

    /// The same text wrapped with `strategy`.
    pub fn with_wrap_strategy(self, strategy: WrapStrategy) -> (r: Self)
        ensures
            r == (Text { wrap: strategy, ..self }),
    {
        Text { wrap: strategy, ..self }
    }

    /// The same text with its lines aligned by `alignment`.
    pub fn multiline_text_alignment(self, alignment: HorizontalTextAlignment) -> (r: Self)
        ensures
            r == (Text { alignment, ..self }),
    {
        Text { alignment, ..self }
    }
}

/// The render tree of a text: the text, its font and the frame it fills.
#[derive(Debug, Clone)]
pub struct TextRender<'a, F> {
    pub origin: Point,
    pub size: Size,
    pub font: &'a F,
    pub text: &'a str,
    pub alignment: HorizontalTextAlignment,
    pub wrap: WrapStrategy,
}

/// Whitespace at which a line may be broken.
pub open spec fn is_break_space(c: char) -> bool {
    c == ' ' || c == '\t' || c == '\r' || c == '\u{0b}' || c == '\u{0c}'
}

/// The widest a line may be for a proposed width; none for a compact or infinite one.
pub open spec fn width_limit(p: ProposedDimension) -> Option<u32> {
    match p {
        ProposedDimension::Exact(w) => Some(w),
        _ => None,
    }
}

/// The total advance of the characters of `s` from `a` up to `b`.
pub open spec fn run_width<F: FontMetrics>(font: &F, s: Seq<char>, a: int, b: int) -> int
    decreases b - a,
{
    if b <= a {
        0
    } else {
        run_width(font, s, a, b - 1) + font.spec_advance(s[b - 1])
    }
}

/// Where the line that begins at `start` ends, and where the next one begins, having
/// scanned up to `i` with `width` so far and the last break space at `space` (before
/// `start` for none).
///
/// A newline ends the line. A character that takes the line past `limit` ends it at the
/// last break space, which is dropped, or else just before that character; the first
/// character of a line always stays on it.
pub open spec fn line_break<F: FontMetrics>(
    font: &F,
    s: Seq<char>,
    limit: Option<u32>,
    word: bool,
    start: int,
    i: int,
    width: int,
    space: int,
) -> (int, int)
    decreases s.len() - i,
{
    if i >= s.len() || i < start {
        (s.len() as int, s.len() as int)
    } else if s[i] == '\n' {
        (i, i + 1)
    } else {
        let w = width + font.spec_advance(s[i]);
        let sp = if !word && is_break_space(s[i]) { i } else { space };
        if limit matches Some(l) && w > l && i > start {
            if sp >= start { (sp, sp + 1) } else { (i, i) }
        } else {
            line_break(font, s, limit, word, start, i + 1, w, sp)
        }
    }
}

/// The width and height of the lines from `start` on, given the width and height of
/// the lines before it. Lines stop once they reach an exact height limit.
pub open spec fn text_extent<F: FontMetrics>(
    font: &F,
    s: Seq<char>,
    limit: Option<u32>,
    word: bool,
    height_limit: Option<u32>,
    start: int,
    width: int,
    height: int,
) -> (int, int)
    decreases s.len() - start,
{
    if start < 0 || start >= s.len() {
        (width, height)
    } else {
        let lb = line_break(font, s, limit, word, start, start, 0, start - 1);
        let line = run_width(font, s, start, lb.0);
        let w2 = if line > width { line } else { width };
        let h2 = height + font.spec_line_height();
        if (height_limit matches Some(h) && h2 >= h) || lb.1 <= start || lb.1 > s.len() {
            (w2, h2)
        } else {
            text_extent(font, s, limit, word, height_limit, lb.1, w2, h2)
        }
    }
}

/// The size of text laid out in a font for a proposal.
pub open spec fn text_size<F: FontMetrics>(font: &F, s: Seq<char>, wrap: WrapStrategy, offer: ProposedDimensions) -> Dimensions {
    let e = text_extent(font, s, width_limit(offer.width), wrap == WrapStrategy::BreakWord, width_limit(offer.height), 0, 0, 0);
    Dimensions { width: Dimension(e.0 as u32), height: Dimension(e.1 as u32) }
}

/// Part of a run of characters is no wider than the whole run.
proof fn lemma_run_width_within<F: FontMetrics>(font: &F, s: Seq<char>, a: int, b: int, c: int, d: int)
    requires
        c <= a <= b <= d,
    ensures
        0 <= run_width(font, s, a, b) <= run_width(font, s, c, d),
    decreases (d - c) + (b - a),
{
    if d > b {
        lemma_run_width_within(font, s, a, b, c, d - 1);
    } else if c < a {
        lemma_run_width_within(font, s, a, b, c + 1, d);
        lemma_run_width_shift(font, s, c, d);
    } else if b > a {
        lemma_run_width_within(font, s, a, b - 1, c, d - 1);
    }
}

/// A run is its first character's advance wider than the run after it.
proof fn lemma_run_width_shift<F: FontMetrics>(font: &F, s: Seq<char>, c: int, d: int)
    requires
        c < d,
    ensures
        run_width(font, s, c, d) == font.spec_advance(s[c]) + run_width(font, s, c + 1, d),
    decreases d - c,
{
    if d > c + 1 {
        lemma_run_width_shift(font, s, c, d - 1);
    } else {
        assert(run_width(font, s, c, c) == 0);
    }
}

/// Every character of `s` advances by at most `l`.
pub open spec fn characters_fit<F: FontMetrics>(font: &F, s: Seq<char>, l: u32) -> bool {
    forall|i: int| 0 <= i < s.len() ==> #[trigger] font.spec_advance(s[i]) <= l
}

/// A line broken at `limit` is no wider than the limit when every character fits in it.
proof fn lemma_line_within_limit<F: FontMetrics>(
    font: &F,
    s: Seq<char>,
    l: u32,
    word: bool,
    start: int,
    i: int,
    width: int,
    space: int,
)
    requires
        0 <= start <= i <= s.len(),
        width == run_width(font, s, start, i),
        width <= l,
        characters_fit(font, s, l),
        space == start - 1 || start <= space < i,
    ensures
        run_width(font, s, start, line_break(font, s, Some(l), word, start, i, width, space).0) <= l,
        start <= line_break(font, s, Some(l), word, start, i, width, space).0,
    decreases s.len() - i,
{
    if i >= s.len() {
    } else if s[i] == '\n' {
    } else {
        let w = width + font.spec_advance(s[i]);
        let sp = if !word && is_break_space(s[i]) { i } else { space };
        if w > l && i > start {
            if sp >= start {
                lemma_run_width_within(font, s, start, sp, start, i);
            }
        } else {
            assert(font.spec_advance(s[i]) <= l);
            assert(run_width(font, s, start, i + 1) == width + font.spec_advance(s[i]));
            lemma_line_within_limit(font, s, l, word, start, i + 1, w, sp);
        }
    }
}

/// Lines laid out at an exact width are no wider than it when every character fits.
proof fn lemma_extent_within_limit<F: FontMetrics>(
    font: &F,
    s: Seq<char>,
    l: u32,
    word: bool,
    height_limit: Option<u32>,
    start: int,
    width: int,
    height: int,
)
    requires
        0 <= width <= l,
        characters_fit(font, s, l),
    ensures
        0 <= text_extent(font, s, Some(l), word, height_limit, start, width, height).0 <= l,
    decreases s.len() - start,
{
    if start < 0 || start >= s.len() {
    } else {
        assert(run_width(font, s, start, start) == 0);
        lemma_line_within_limit(font, s, l, word, start, start, 0, start - 1);
        let lb = line_break(font, s, Some(l), word, start, start, 0, start - 1);
        lemma_run_width_within(font, s, start, lb.0, start, lb.0);
        let line = run_width(font, s, start, lb.0);
        let w2 = if line > width { line } else { width };
        let h2 = height + font.spec_line_height();
        if (height_limit matches Some(h) && h2 >= h) || lb.1 <= start || lb.1 > s.len() {
        } else {
            lemma_extent_within_limit(font, s, l, word, height_limit, lb.1, w2, h2);
        }
    }
}

/// Where the line that begins at `a` ends.
pub open spec fn line_end<F: FontMetrics>(font: &F, s: Seq<char>, limit: Option<u32>, word: bool, a: int) -> int {
    line_break(font, s, limit, word, a, a, 0, a - 1).0
}

/// Whether a line beginning at `a` is laid out when lines are laid out from `start`
/// on, `height` high so far: each line begins where the one before it left off, and
/// lines stop at the end of the text, once they reach an exact height limit, or once a
/// line makes no progress.
pub open spec fn lays_out_line<F: FontMetrics>(
    font: &F,
    s: Seq<char>,
    limit: Option<u32>,
    word: bool,
    height_limit: Option<u32>,
    start: int,
    height: int,
    a: int,
) -> bool
    decreases s.len() - start,
{
    if start < 0 || start >= s.len() {
        false
    } else {
        let next = line_break(font, s, limit, word, start, start, 0, start - 1).1;
        let h2 = height + font.spec_line_height();
        let stops = (height_limit matches Some(h) && h2 >= h) || next <= start || next > s.len();
        a == start || (!stops && lays_out_line(font, s, limit, word, height_limit, next, h2, a))
    }
}

/// The width of lines laid out from `start`, given `width` so far, is at least that
/// width and the width of every line laid out, and is that width or the width of one of
/// those lines.
proof fn lemma_extent_is_widest_line<F: FontMetrics>(
    font: &F,
    s: Seq<char>,
    limit: Option<u32>,
    word: bool,
    height_limit: Option<u32>,
    start: int,
    width: int,
    height: int,
)
    ensures
        ({
            let w = text_extent(font, s, limit, word, height_limit, start, width, height).0;
            &&& w >= width
            &&& forall|a: int| #[trigger] lays_out_line(font, s, limit, word, height_limit, start, height, a)
                ==> w >= run_width(font, s, a, line_end(font, s, limit, word, a))
            &&& w == width || exists|a: int| #[trigger] lays_out_line(font, s, limit, word, height_limit, start, height, a)
                && w == run_width(font, s, a, line_end(font, s, limit, word, a))
        }),
    decreases s.len() - start,
{
    if start < 0 || start >= s.len() {
    } else {
        let lb = line_break(font, s, limit, word, start, start, 0, start - 1);
        let line = run_width(font, s, start, lb.0);
        let w2 = if line > width { line } else { width };
        let h2 = height + font.spec_line_height();
        let w = text_extent(font, s, limit, word, height_limit, start, width, height).0;
        assert(lays_out_line(font, s, limit, word, height_limit, start, height, start));
        if (height_limit matches Some(h) && h2 >= h) || lb.1 <= start || lb.1 > s.len() {
            assert forall|a: int| #[trigger] lays_out_line(font, s, limit, word, height_limit, start, height, a)
                implies w >= run_width(font, s, a, line_end(font, s, limit, word, a)) by {
                assert(a == start);
            }
        } else {
            lemma_extent_is_widest_line(font, s, limit, word, height_limit, lb.1, w2, h2);
            assert forall|a: int| #[trigger] lays_out_line(font, s, limit, word, height_limit, start, height, a)
                implies w >= run_width(font, s, a, line_end(font, s, limit, word, a)) by {
                if a != start {
                    assert(lays_out_line(font, s, limit, word, height_limit, lb.1, h2, a));
                }
            }
            if w != w2 {
                let a = choose|a: int| #[trigger] lays_out_line(font, s, limit, word, height_limit, lb.1, h2, a)
                    && w == run_width(font, s, a, line_end(font, s, limit, word, a));
                assert(lays_out_line(font, s, limit, word, height_limit, start, height, a));
            }
        }
    }
}

/// Laid-out text is exactly as wide as its widest line: at least as wide as every line
/// laid out, and as wide as one of them (no wider than nothing when nothing is laid out).
pub proof fn lemma_text_as_wide_as_widest_line<F: FontMetrics>(font: &F, s: Seq<char>, word: bool, limit: Option<u32>, height_limit: Option<u32>)
    ensures
        ({
            let w = text_extent(font, s, limit, word, height_limit, 0, 0, 0).0;
            &&& forall|a: int| #[trigger] lays_out_line(font, s, limit, word, height_limit, 0, 0, a)
                ==> w >= run_width(font, s, a, line_end(font, s, limit, word, a))
            &&& w == 0 || exists|a: int| #[trigger] lays_out_line(font, s, limit, word, height_limit, 0, 0, a)
                && w == run_width(font, s, a, line_end(font, s, limit, word, a))
        }),
{
    lemma_extent_is_widest_line(font, s, limit, word, height_limit, 0, 0, 0);
}

/// Text offered an exact width is never wider than that width, as long as no single
/// character is.
pub proof fn lemma_text_within_width<F: FontMetrics>(font: &F, s: Seq<char>, wrap: WrapStrategy, offer: ProposedDimensions)
    requires
        offer.width matches ProposedDimension::Exact(l) && characters_fit(font, s, l),
    ensures
        offer.width matches ProposedDimension::Exact(l) && text_size(font, s, wrap, offer).width.0 <= l,
{
    let l = offer.width->Exact_0;
    lemma_extent_within_limit(font, s, l, wrap == WrapStrategy::BreakWord, width_limit(offer.height), 0, 0, 0);
}

/// The characters of a string.
fn chars_of(text: &str) -> (r: Vec<char>)
    ensures
        r@ == text@,
{
    let n = text.unicode_len();
    let mut v: Vec<char> = Vec::new();
    let mut i: usize = 0;
    while i < n
        invariant
            n == text@.len(),
            i <= n,
            v@ == text@.take(i as int),
        decreases n - i,
    {
        v.push(text.get_char(i));
        proof {
            assert(v@ =~= text@.take(i + 1));
        }
        i = i + 1;
    }
    proof {
        assert(v@ =~= text@);
    }
    v
}

/// Whether `c` is whitespace at which a line may be broken.
fn break_space(c: char) -> (r: bool)
    ensures
        r == is_break_space(c),
{
    c == ' ' || c == '\t' || c == '\r' || c == '\u{0b}' || c == '\u{0c}'
}

/// Where the line beginning at `start` ends, and where the next line begins.
fn next_line<F: FontMetrics>(font: &F, s: &Vec<char>, limit: Option<u32>, word: bool, start: usize) -> (r: (usize, usize))
    requires
        start < s.len(),
        run_width(font, s@, 0, s.len() as int) <= u32::MAX,
    ensures
        (r.0 as int, r.1 as int) == line_break(font, s@, limit, word, start as int, start as int, 0, start - 1),
        start <= r.0 <= r.1 <= s.len(),
        start < r.1,
{
    let n = s.len();
    let mut i: usize = start;
    let mut width: u32 = 0;
    let mut found: bool = false;
    let mut space: usize = 0;
    loop
        invariant
            n == s.len(),
            start < n,
            start <= i <= n,
            run_width(font, s@, 0, n as int) <= u32::MAX,
            width == run_width(font, s@, start as int, i as int),
            found ==> start <= space < i,
            line_break(font, s@, limit, word, start as int, i as int, width as int, if found { space as int } else { start - 1 })
                == line_break(font, s@, limit, word, start as int, start as int, 0, start - 1),
        decreases n - i,
    {
        if i >= n {
            return (n, n);
        }
        let c = s[i];
        if c == '\n' {
            return (i, i + 1);
        }
        proof {
            lemma_run_width_within(font, s@, start as int, i + 1, 0, n as int);
        }
        let w = width + font.advance(c);
        if !word && break_space(c) {
            found = true;
            space = i;
        }
        if let Some(l) = limit {
            if w > l && i > start {
                if found {
                    return (space, space + 1);
                } else {
                    return (i, i);
                }
            }
        }
        width = w;
        i = i + 1;
    }
}

/// The total advance of the characters of `s` from `a` up to `b`.
fn width_of<F: FontMetrics>(font: &F, s: &Vec<char>, a: usize, b: usize) -> (r: u32)
    requires
        a <= b <= s.len(),
        run_width(font, s@, 0, s.len() as int) <= u32::MAX,
    ensures
        r == run_width(font, s@, a as int, b as int),
{
    let mut i: usize = a;
    let mut w: u32 = 0;
    while i < b
        invariant
            a <= i <= b <= s.len(),
            run_width(font, s@, 0, s.len() as int) <= u32::MAX,
            w == run_width(font, s@, a as int, i as int),
        decreases b - i,
    {
        proof {
            lemma_run_width_within(font, s@, a as int, i + 1, 0, s.len() as int);
        }
        w = w + font.advance(s[i]);
        i = i + 1;
    }
    w
}

impl<'a, F: FontMetrics> Text<'a, F> {
    /// Whether laying the text out stays within machine arithmetic: its whole width and
    /// a line for every character fit in a `u32`.
    pub open spec fn fits(&self) -> bool {
        &&& run_width(self.font, self.text@, 0, self.text@.len() as int) <= u32::MAX
        &&& self.font.spec_line_height() * self.text@.len() <= u32::MAX
    }
}

impl<'a, F: FontMetrics> ViewLayout for Text<'a, F> {
    type Sublayout = ();
    type Renderables = TextRender<'a, F>;

    open spec fn spec_priority(&self) -> i8 { 0 }
    open spec fn spec_is_empty(&self) -> bool { false }

    open spec fn admits(&self, offer: ProposedDimensions, env: DefaultEnvironment) -> bool {
        self.fits()
    }

    open spec fn spec_layout(&self, offer: ProposedDimensions, env: DefaultEnvironment) -> ResolvedLayout<()> {
        ResolvedLayout { sublayouts: (), resolved_size: text_size(self.font, self.text@, self.wrap, offer) }
    }

    open spec fn render_admits(&self, layout: ResolvedLayout<()>, origin: Point, env: DefaultEnvironment) -> bool {
        true
    }

    open spec fn spec_render_tree(&self, layout: ResolvedLayout<()>, origin: Point, env: DefaultEnvironment) -> TextRender<'a, F> {
        TextRender {
            origin,
            size: size_of(layout.resolved_size),
            font: self.font,
            text: self.text,
            alignment: self.alignment,
            wrap: self.wrap,
        }
    }

    fn priority(&self) -> (r: i8) { 0 }

    fn is_empty(&self) -> (r: bool) { false }

    fn layout(&self, offer: &ProposedDimensions, env: &DefaultEnvironment) -> (r: ResolvedLayout<()>) {
        let chars = chars_of(self.text);
        let n = chars.len();
        let limit = match offer.width {
            ProposedDimension::Exact(w) => Some(w),
            _ => None,
        };
        let height_limit = match offer.height {
            ProposedDimension::Exact(h) => Some(h),
            _ => None,
        };
        let word = matches!(self.wrap, WrapStrategy::BreakWord);
        let line_height = self.font.default_line_height();
        let ghost total = text_extent(self.font, chars@, limit, word, height_limit, 0, 0, 0);
        let mut width: u32 = 0;
        let mut height: u32 = 0;
        let mut start: usize = 0;
        proof {
            lemma_run_width_within(self.font, chars@, 0, 0, 0, n as int);
        }
        while start < n
            invariant_except_break
                start <= n,
                height <= line_height * start,
                width <= run_width(self.font, chars@, 0, n as int),
                text_extent(self.font, chars@, limit, word, height_limit, start as int, width as int, height as int) == total,
            invariant
                n == chars.len(),
                chars@ == self.text@,
                self.fits(),
                line_height == self.font.spec_line_height(),
            ensures
                (width as int, height as int) == total,
            decreases n - start,
        {
            let (end, next) = next_line(self.font, &chars, limit, word, start);
            proof {
                lemma_run_width_within(self.font, chars@, start as int, end as int, 0, n as int);
                assert(line_height * start + line_height <= line_height * next) by (nonlinear_arith)
                    requires
                        next >= start + 1,
                ;
                assert(line_height * next <= line_height * n) by (nonlinear_arith)
                    requires
                        next <= n,
                ;
            }
            let line = width_of(self.font, &chars, start, end);
            if line > width {
                width = line;
            }
            height = height + line_height;
            if let Some(h) = height_limit {
                if height >= h {
                    break;
                }
            }
            start = next;
        }
        ResolvedLayout { sublayouts: (), resolved_size: Dimensions::new(width, height) }
    }

    fn render_tree(&self, layout: &ResolvedLayout<()>, origin: Point, env: &DefaultEnvironment) -> (r: TextRender<'a, F>) {
        TextRender {
            origin,
            size: Size { width: layout.resolved_size.width.0, height: layout.resolved_size.height.0 },
            font: self.font,
            text: self.text,
            alignment: self.alignment,
            wrap: self.wrap,
        }
    }
}

} // verus!
