//! A table of views built from indexed items, with strokes between rows and columns and
//! keyboard navigation between cells.

use vstd::prelude::*;
use core::marker::PhantomData;
use crate::event::{Event, Key};
use crate::focus::{FocusAction, FocusDirection, FocusGroup, FocusResult};
use crate::layout::{
    align_offset_h, align_offset_v, dimension_to_i32, length_i32, DefaultEnvironment, HorizontalAlignment,
    LayoutDirection, ResolvedLayout, VerticalAlignment,
};
use crate::primitives::{
    max_u32, sat_sub, Dimension, Dimensions, Point, ProposedDimension, ProposedDimensions, Size, INFINITE_LENGTH,
};
use crate::view::stack::{layout_n, stack_admits, stack_offers, stack_size, with_main, StackChildren, StackParams};
use crate::view::foreach::{list_from_vec, list_of, List};
use crate::view::{EventView, ViewLayout};
use crate::render::Rect;

verus! {

/// Items arranged in columns and rows that a table shows.
pub trait TableIndex {
    /// What the table builds a cell's view from.
    type Output;

    /// The number of columns.
    spec fn spec_cols(&self) -> usize;

    /// The number of rows.
    spec fn spec_rows(&self) -> usize;

    /// The item in column `x` and row `y`.
    spec fn spec_index(&self, x: usize, y: usize) -> Self::Output;

    /// The number of columns.
    fn cols(&self) -> (r: usize)
        ensures
            r == self.spec_cols(),
    ;

    /// The number of rows.
    fn rows(&self) -> (r: usize)
        ensures
            r == self.spec_rows(),
    ;

    /// The item in column `x` and row `y`; only asked within the table.
    fn index(&self, x: usize, y: usize) -> (r: Self::Output)
        requires
            x < self.spec_cols(),
            y < self.spec_rows(),
        ensures
            r == self.spec_index(x, y),
    ;

    /// The item at position `i`, counting along the rows.
    fn index_row_major(&self, i: usize) -> (r: Self::Output)
        requires
            self.spec_cols() > 0,
            i < self.spec_cols() * self.spec_rows(),
        ensures
            r == self.spec_index((i % self.spec_cols()) as usize, (i / self.spec_cols()) as usize),
    {
        let cols = self.cols();
        proof {
            let r = self.spec_rows();
            assert((i / cols) < r) by (nonlinear_arith)
                requires
                    cols > 0,
                    i < cols * r,
            ;
            assert(i % cols < cols) by (nonlinear_arith)
                requires
                    cols > 0,
            ;
        }
        self.index(i % cols, i / cols)
    }
}

/// Items stored row after row in a vector: the item in column `x` and row `y` is at
/// position `y * cols + x`.
#[derive(Debug)]
pub struct Cells<T> {
    cols: usize,
    rows: usize,
    items: Vec<T>,
}

impl<T> Cells<T> {
    #[verifier::type_invariant]
    spec fn cells_fit(self) -> bool {
        self.items.len() == self.cols * self.rows
    }

    /// The items as a grid of `cols` by `rows`, if there are exactly that many.
    pub fn new(cols: usize, rows: usize, items: Vec<T>) -> (r: Option<Cells<T>>)
        ensures
            r is Some <==> items.len() == cols * rows,
            r matches Some(c) ==> c.spec_cols() == cols && c.spec_rows() == rows && c.items() == items@,
    {
        if cols == 0 || rows == 0 {
            if items.len() == 0 {
                assert(cols * rows == 0) by (nonlinear_arith)
                    requires
                        cols == 0 || rows == 0,
                ;
                return Some(Cells { cols, rows, items });
            }
            assert(cols * rows == 0) by (nonlinear_arith)
                requires
                    cols == 0 || rows == 0,
            ;
            return None;
        }
        if items.len() / cols == rows && items.len() % cols == 0 {
            proof {
                let n = items.len() as int;
                vstd::arithmetic::div_mod::lemma_fundamental_div_mod(n, cols as int);
                assert(n == cols * rows);
            }
            Some(Cells { cols, rows, items })
        } else {
            proof {
                if items.len() == cols * rows {
                    let n = items.len() as int;
                    vstd::arithmetic::div_mod::lemma_fundamental_div_mod_converse(n, cols as int, rows as int, 0);
                }
            }
            None
        }
    }

    /// The items, row after row.
    pub closed spec fn items(self) -> Seq<T> {
        self.items@
    }

    /// The number of columns.
    pub closed spec fn spec_cols(self) -> usize {
        self.cols
    }

    /// The number of rows.
    pub closed spec fn spec_rows(self) -> usize {
        self.rows
    }
}

impl<T: Copy> TableIndex for Cells<T> {
    type Output = T;

    closed spec fn spec_cols(&self) -> usize {
        self.cols
    }

    closed spec fn spec_rows(&self) -> usize {
        self.rows
    }

    closed spec fn spec_index(&self, x: usize, y: usize) -> T {
        self.items@[y * self.cols + x]
    }

    fn cols(&self) -> (r: usize) {
        self.cols
    }

    fn rows(&self) -> (r: usize) {
        self.rows
    }

    fn index(&self, x: usize, y: usize) -> (r: T) {
        proof {
            use_type_invariant(self);
            assert(y * self.cols + x < self.rows * self.cols) by (nonlinear_arith)
                requires
                    x < self.cols,
                    y < self.rows,
            ;
            assert(self.rows * self.cols == self.cols * self.rows) by (nonlinear_arith);
        }
        self.items[y * self.cols + x]
    }
}

/// How a table sizes its columns and rows.
#[derive(Debug, Clone, Copy, PartialEq, Eq, Structural)]
pub enum TableAlgorithm {
    /// Columns share the width equally; rows are as tall as their cells.
    FixedWidth,
    /// Columns share the width and rows the height equally.
    FixedBoth,
    /// Columns and rows are sized from their cells.
    Auto,
}

impl TableAlgorithm {
    /// The default algorithm, [`TableAlgorithm::FixedWidth`].
    pub fn default() -> (r: TableAlgorithm)
        ensures
            r == TableAlgorithm::FixedWidth,
    {
        TableAlgorithm::FixedWidth
    }
}

/// The alignment of a view within its cell.
#[derive(Debug, Clone, Copy, PartialEq, Eq, Structural)]
pub struct CellAlignment(pub HorizontalAlignment, pub VerticalAlignment);

/// The offset of an item of size `item` aligned within a cell of size `cell`.
pub open spec fn cell_offset(a: CellAlignment, cell: Dimensions, item: Dimensions) -> Point {
    Point {
        x: align_offset_h(a.0, length_i32(cell.width) as int, length_i32(item.width) as int) as i32,
        y: align_offset_v(a.1, length_i32(cell.height) as int, length_i32(item.height) as int) as i32,
    }
}

impl CellAlignment {
    /// The offset of an item of size `item` aligned within a cell of size `cell`.
    pub fn align(self, cell: Dimensions, item: Dimensions) -> (r: Point)
        ensures
            r == cell_offset(self, cell, item),
    {
        let h = self.0.align(dimension_to_i32(cell.width), dimension_to_i32(item.width));
        let v = self.1.align(dimension_to_i32(cell.height), dimension_to_i32(item.height));
        Point::new(h, v)
    }
}

/// A move of focus between cells.
#[derive(Debug, Clone, Copy, PartialEq, Eq, Structural)]
pub enum Move {
    Up,
    Down,
    Left,
    Right,
}

/// The move an arrow key asks for.
pub open spec fn move_of_key(key: Key) -> Option<Move> {
    match key {
        Key::UpArrow => Some(Move::Up),
        Key::DownArrow => Some(Move::Down),
        Key::LeftArrow => Some(Move::Left),
        Key::RightArrow => Some(Move::Right),
        _ => None,
    }
}

/// The move an event asks for: arrow keys move that way, and focus moves forward go
/// right and backward go left.
pub open spec fn move_of_event(event: Event) -> Option<Move> {
    match event {
        Event::KeyDown(key) => move_of_key(key),
        Event::Focus { action, group } => match action {
            FocusAction::Next => Some(Move::Right),
            FocusAction::Previous => Some(Move::Left),
            FocusAction::Focus(FocusDirection::Forward) => Some(Move::Right),
            FocusAction::Focus(FocusDirection::Backward) => Some(Move::Left),
            _ => None,
        },
        _ => None,
    }
}

impl Move {
    /// The move an event asks for, if any.
    pub fn from_event(event: &Event) -> (r: Option<Move>)
        ensures
            r == move_of_event(*event),
    {
        match event {
            Event::KeyDown(key) => Move::from_key(*key),
            Event::Focus { action, group: _ } => match action {
                FocusAction::Next => Some(Move::Right),
                FocusAction::Previous => Some(Move::Left),
                FocusAction::Focus(f) => match f {
                    FocusDirection::Forward => Some(Move::Right),
                    FocusDirection::Backward => Some(Move::Left),
                },
                _ => None,
            },
            _ => None,
        }
    }

    /// The move an arrow key asks for, if any.
    pub fn from_key(key: Key) -> (r: Option<Move>)
        ensures
            r == move_of_key(key),
    {
        match key {
            Key::UpArrow => Some(Move::Up),
            Key::DownArrow => Some(Move::Down),
            Key::LeftArrow => Some(Move::Left),
            Key::RightArrow => Some(Move::Right),
            _ => None,
        }
    }

    /// The focus request that enters a cell by this move: up and left enter backward,
    /// down and right forward.
    pub fn focus_event(self, group: FocusGroup) -> (r: Event)
        ensures
            r == (Event::Focus {
                action: FocusAction::Focus(
                    if self is Up || self is Left { FocusDirection::Backward } else { FocusDirection::Forward },
                ),
                group,
            }),
    {
        Event::Focus {
            action: FocusAction::Focus(match self {
                Move::Up | Move::Left => FocusDirection::Backward,
                Move::Down | Move::Right => FocusDirection::Forward,
            }),
            group,
        }
    }
}

/// The cell focus moves to from (`x`, `y`) in a table of `width` by `height` cells.
///
/// Moves go along rows for left and right and along columns for up and down, and carry
/// over to the next row or column at an edge; moving forward from the last cell goes to
/// the first, and backward from the first to the last.
pub open spec fn next_cell(x: int, y: int, m: Move, width: int, height: int) -> (int, int) {
    let (dx, dy) = match m {
        Move::Up => (0int, -1int),
        Move::Down => (0int, 1int),
        Move::Left => (-1int, 0int),
        Move::Right => (1int, 0int),
    };
    let dir = dx + dy;
    if x == 0 && y == 0 && dir < 0 {
        (width - 1, height - 1)
    } else if x == width - 1 && y == height - 1 && dir > 0 {
        (0, 0)
    } else {
        let nx = x + dx;
        let ny = y + dy;
        if nx == width {
            (0, ny + dy + dx)
        } else if ny == height {
            (nx + dx + dy, 0)
        } else if nx == -1 {
            (width - 1, ny + dy + dx)
        } else if ny == -1 {
            (nx + dx + dy, height - 1)
        } else {
            (nx, ny)
        }
    }
}

/// The cell focus moves to from (`x`, `y`) in a table of `width` by `height` cells.
pub fn step_focus(x: usize, y: usize, m: Move, width: usize, height: usize) -> (r: (usize, usize))
    requires
        x < width,
        y < height,
    ensures
        (r.0 as int, r.1 as int) == next_cell(x as int, y as int, m, width as int, height as int),
        r.0 < width,
        r.1 < height,
{
    match m {
        Move::Right => {
            if x == width - 1 && y == height - 1 {
                (0, 0)
            } else if x + 1 == width {
                (0, y + 1)
            } else {
                (x + 1, y)
            }
        },
        Move::Left => {
            if x == 0 && y == 0 {
                (width - 1, height - 1)
            } else if x == 0 {
                (width - 1, y - 1)
            } else {
                (x - 1, y)
            }
        },
        Move::Down => {
            if x == width - 1 && y == height - 1 {
                (0, 0)
            } else if y + 1 == height {
                (x + 1, 0)
            } else {
                (x, y + 1)
            }
        },
        Move::Up => {
            if x == 0 && y == 0 {
                (width - 1, height - 1)
            } else if y == 0 {
                (x - 1, height - 1)
            } else {
                (x, y - 1)
            }
        },
    }
}

/// Moving focus right and then left, or down and then up, comes back to the same cell.
pub proof fn lemma_step_back(x: int, y: int, width: int, height: int)
    requires
        0 <= x < width,
        0 <= y < height,
    ensures
        ({
            let (rx, ry) = next_cell(x, y, Move::Right, width, height);
            next_cell(rx, ry, Move::Left, width, height) == (x, y)
        }),
        ({
            let (dx, dy) = next_cell(x, y, Move::Down, width, height);
            next_cell(dx, dy, Move::Up, width, height) == (x, y)
        }),
{
}

/// The focus within a table: the focused cell, and the focus within that cell. A cell
/// coordinate of `usize::MAX` stands for the last cell along that axis.
#[derive(Debug, Clone)]
pub struct Focus<T> {
    pub x: usize,
    pub y: usize,
    pub tree: T,
}

impl<T> Focus<T> {
    /// Focus on the first cell.
    pub fn default_first(tree: T) -> (r: Focus<T>)
        ensures
            r == (Focus { x: 0, y: 0, tree }),
    {
        Focus { x: 0, y: 0, tree }
    }

    /// Focus on the last cell, whatever the size of the table.
    pub fn default_last(tree: T) -> (r: Focus<T>)
        ensures
            r == (Focus { x: usize::MAX, y: usize::MAX, tree }),
    {
        Focus { x: usize::MAX, y: usize::MAX, tree }
    }

    /// Replaces the stand-ins for the last cell by its coordinates in a table of
    /// `width` by `height` cells.
    pub fn normalize_sentinels(&mut self, width: usize, height: usize)
        ensures
            final(self).x == (if old(self).x == usize::MAX { if width > 0 { width - 1 } else { 0 } } else { old(self).x as int }),
            final(self).y == (if old(self).y == usize::MAX { if height > 0 { height - 1 } else { 0 } } else { old(self).y as int }),
            final(self).tree == old(self).tree,
    {
        if self.x == usize::MAX {
            self.x = width.saturating_sub(1);
        }
        if self.y == usize::MAX {
            self.y = height.saturating_sub(1);
        }
    }
}

/// The state of a table: the state of each cell, the sizes of the columns and rows,
/// and the focus group the table holds navigation in, if any.
#[derive(Debug, Clone)]
pub struct TableState<VState, const R: usize, const C: usize> {
    pub cell_states: [[VState; R]; C],
    pub col_widths: Vec<u32>,
    pub row_heights: Vec<u32>,
    pub captive: Option<FocusGroup>,
}

/// A sequence of `n` zeros.
fn zeros(n: usize) -> (r: Vec<u32>)
    ensures
        r@ == Seq::new(n as nat, |i: int| 0u32),
{
    let mut v: Vec<u32> = Vec::new();
    let mut i: usize = 0;
    while i < n
        invariant
            i <= n,
            v@ == Seq::new(i as nat, |k: int| 0u32),
        decreases n - i,
    {
        v.push(0);
        proof {
            assert(v@ =~= Seq::new((i + 1) as nat, |k: int| 0u32));
        }
        i = i + 1;
    }
    v
}

impl<VState, const R: usize, const C: usize> TableState<VState, R, C> {
    /// The state of a table with the given cell states, no sizes yet and no captive
    /// navigation. A table has at least one row and one column.
    pub fn new(cell_states: [[VState; R]; C]) -> (r: Self)
        requires
            R > 0,
            C > 0,
            R * C <= usize::MAX,
            R + C <= usize::MAX,
        ensures
            r.cell_states == cell_states,
            r.col_widths@ == Seq::new(C as nat, |i: int| 0u32),
            r.row_heights@ == Seq::new(R as nat, |i: int| 0u32),
            r.captive is None,
    {
        TableState { cell_states, col_widths: zeros(C), row_heights: zeros(R), captive: None }
    }
}

/// The constructor of tables of at most `R` rows and `C` columns.
#[derive(Debug, Clone, Copy)]
pub struct Table<const R: usize, const C: usize>;

/// A table of the views `build_view` makes of the items.
#[derive(Debug)]
pub struct TableView<const R: usize, const C: usize, M, V, F> {
    pub items: M,
    pub build_view: F,
    pub width: usize,
    pub height: usize,
    pub algorithm: TableAlgorithm,
    pub row_stroke: u32,
    pub col_stroke: u32,
    pub cell_alignment: CellAlignment,
    pub _marker: PhantomData<V>,
}

impl<const R: usize, const C: usize> Table<R, C> {
    /// A table of the views `build_view` makes of `items`, showing at most `C` columns
    /// and `R` rows, centered in their cells, without strokes.
    pub fn new<M: TableIndex, V, F>(items: M, build_view: F) -> (r: TableView<R, C, M, V, F>)
        ensures
            r.width == (if items.spec_cols() < C { items.spec_cols() } else { C }),
            r.height == (if items.spec_rows() < R { items.spec_rows() } else { R }),
            r.items == items,
            r.build_view == build_view,
            r.algorithm == TableAlgorithm::FixedWidth,
            r.row_stroke == 0,
            r.col_stroke == 0,
            r.cell_alignment == CellAlignment(HorizontalAlignment::Center, VerticalAlignment::Center),
    {
        let cols = items.cols();
        let rows = items.rows();
        let width = if cols < C { cols } else { C };
        let height = if rows < R { rows } else { R };
        TableView {
            items,
            build_view,
            width,
            height,
            algorithm: TableAlgorithm::default(),
            row_stroke: 0,
            col_stroke: 0,
            cell_alignment: CellAlignment(HorizontalAlignment::Center, VerticalAlignment::Center),
            _marker: PhantomData,
        }
    }
}

impl<const R: usize, const C: usize, M, V, F> TableView<R, C, M, V, F> {
    /// The same table sized by `algorithm`.
    pub fn with_algorithm(self, algorithm: TableAlgorithm) -> (r: Self)
        ensures
            r == (TableView { algorithm, ..self }),
    {
        TableView { algorithm, ..self }
    }

    /// The same table with strokes `stroke` wide between rows and between columns.
    pub fn with_stroke(self, stroke: u32) -> (r: Self)
        ensures
            r == (TableView { row_stroke: stroke, col_stroke: stroke, ..self }),
    {
        TableView { row_stroke: stroke, col_stroke: stroke, ..self }
    }

    /// The same table with strokes `stroke` wide between rows.
    pub fn with_row_stroke(self, stroke: u32) -> (r: Self)
        ensures
            r == (TableView { row_stroke: stroke, ..self }),
    {
        TableView { row_stroke: stroke, ..self }
    }

    /// The same table with strokes `stroke` wide between columns.
    pub fn with_col_stroke(self, stroke: u32) -> (r: Self)
        ensures
            r == (TableView { col_stroke: stroke, ..self }),
    {
        TableView { col_stroke: stroke, ..self }
    }

    /// The same table with cells aligned by `h` and `v`.
    pub fn with_cell_alignment(self, h: HorizontalAlignment, v: VerticalAlignment) -> (r: Self)
        ensures
            r == (TableView { cell_alignment: CellAlignment(h, v), ..self }),
    {
        TableView { cell_alignment: CellAlignment(h, v), ..self }
    }

    /// The same table with cells aligned horizontally by `h`.
    pub fn with_horizontal_cell_alignment(self, h: HorizontalAlignment) -> (r: Self)
        ensures
            r == (TableView { cell_alignment: CellAlignment(h, self.cell_alignment.1), ..self }),
    {
        let v = self.cell_alignment.1;
        TableView { cell_alignment: CellAlignment(h, v), ..self }
    }

    /// The same table with cells aligned vertically by `v`.
    pub fn with_vertical_cell_alignment(self, v: VerticalAlignment) -> (r: Self)
        ensures
            r == (TableView { cell_alignment: CellAlignment(self.cell_alignment.0, v), ..self }),
    {
        let h = self.cell_alignment.0;
        TableView { cell_alignment: CellAlignment(h, v), ..self }
    }
}

impl<const R: usize, const C: usize, M: TableIndex, V: ViewLayout, F: Fn(M::Output) -> V> TableView<R, C, M, V, F> {
    /// The view of the cell in column `c` and row `r`.
    pub open spec fn cell(&self, c: int, r: int) -> V {
        choose|v: V| #[trigger] call_ensures(self.build_view, (self.items.spec_index(c as usize, r as usize),), v)
    }

    /// The builder can be called on every shown cell's item and builds one view for each.
    pub open spec fn builds(&self) -> bool {
        &&& self.width <= self.items.spec_cols()
        &&& self.height <= self.items.spec_rows()
        &&& forall|c: usize, r: usize| c < self.width && r < self.height ==> {
            &&& call_requires(self.build_view, (#[trigger] self.items.spec_index(c, r),))
            &&& forall|a: V, b: V|
                #[trigger] call_ensures(self.build_view, (self.items.spec_index(c, r),), a)
                    && #[trigger] call_ensures(self.build_view, (self.items.spec_index(c, r),), b) ==> a == b
        }
    }

    /// The view of the cell in column `c` and row `r`.
    fn build_cell(&self, c: usize, r: usize) -> (v: V)
        requires
            self.builds(),
            c < self.width,
            r < self.height,
        ensures
            v == self.cell(c as int, r as int),
    {
        let item = self.items.index(c, r);
        let v = (self.build_view)(item);
        proof {
            assert(call_ensures(self.build_view, (self.items.spec_index(c, r),), v));
        }
        v
    }
}

/// One column of a table, as the children of a vertical stack.
#[derive(Debug)]
pub struct TableColumn<'t, const R: usize, const C: usize, M, V, F> {
    pub table: &'t TableView<R, C, M, V, F>,
    pub col: usize,
}

impl<'t, const R: usize, const C: usize, M: TableIndex, V: ViewLayout, F: Fn(M::Output) -> V> StackChildren
    for TableColumn<'t, R, C, M, V, F> {
    open spec fn child_count(&self) -> nat { self.table.height as nat }
    open spec fn children_ready(&self) -> bool { self.table.builds() && self.col < self.table.width }
    open spec fn child_priority(&self, i: int) -> i8 { self.table.cell(self.col as int, i).spec_priority() }
    open spec fn child_is_empty(&self, i: int) -> bool { self.table.cell(self.col as int, i).spec_is_empty() }

    open spec fn child_admits(&self, i: int, offer: ProposedDimensions, env: DefaultEnvironment) -> bool {
        self.table.cell(self.col as int, i).admits(offer, env)
    }

    open spec fn child_size(&self, i: int, offer: ProposedDimensions, env: DefaultEnvironment) -> Dimensions {
        self.table.cell(self.col as int, i).spec_layout(offer, env).resolved_size
    }

    fn count(&self) -> (r: usize) { self.table.height }

    fn priority_at(&self, i: usize) -> (r: i8) { self.table.build_cell(self.col, i).priority() }

    fn is_empty_at(&self, i: usize) -> (r: bool) { self.table.build_cell(self.col, i).is_empty() }

    fn size_at(&self, i: usize, offer: &ProposedDimensions, env: &DefaultEnvironment) -> (r: Dimensions) {
        self.table.build_cell(self.col, i).layout(offer, env).resolved_size
    }
}

/// The columns of a table, each standing for the cells in it, as the children of a
/// horizontal stack: a column is as urgent as its most urgent cell, empty when all its
/// cells are, and as large as its largest cell, or unbounded along an axis offered
/// compactly.
#[derive(Debug)]
pub struct TableColumns<'t, const R: usize, const C: usize, M, V, F> {
    pub table: &'t TableView<R, C, M, V, F>,
}

impl<const R: usize, const C: usize, M: TableIndex, V: ViewLayout, F: Fn(M::Output) -> V> TableView<R, C, M, V, F> {
    /// The highest priority among the first `n` cells of column `c`.
    pub open spec fn column_priority(&self, c: int, n: int) -> i8
        decreases n,
    {
        if n <= 0 {
            i8::MIN
        } else {
            let p = self.column_priority(c, n - 1);
            let q = self.cell(c, n - 1).spec_priority();
            if q > p { q } else { p }
        }
    }

    /// Whether the first `n` cells of column `c` are all empty.
    pub open spec fn column_empty(&self, c: int, n: int) -> bool
        decreases n,
    {
        if n <= 0 {
            true
        } else {
            self.column_empty(c, n - 1) && self.cell(c, n - 1).spec_is_empty()
        }
    }

    /// The size of the first `n` cells of column `c` laid out for a proposal, taken
    /// together.
    pub open spec fn column_extent(&self, c: int, n: int, offer: ProposedDimensions, env: DefaultEnvironment) -> Dimensions
        decreases n,
    {
        if n <= 0 {
            Dimensions {
                width: Dimension(if offer.width is Compact { INFINITE_LENGTH } else { 0 }),
                height: Dimension(if offer.height is Compact { INFINITE_LENGTH } else { 0 }),
            }
        } else {
            let d = self.column_extent(c, n - 1, offer, env);
            let s = self.cell(c, n - 1).spec_layout(offer, env).resolved_size;
            Dimensions { width: Dimension(max_u32(d.width.0, s.width.0)), height: Dimension(max_u32(d.height.0, s.height.0)) }
        }
    }
}

impl<'t, const R: usize, const C: usize, M: TableIndex, V: ViewLayout, F: Fn(M::Output) -> V> StackChildren
    for TableColumns<'t, R, C, M, V, F> {
    open spec fn child_count(&self) -> nat { self.table.width as nat }
    open spec fn children_ready(&self) -> bool { self.table.builds() }
    open spec fn child_priority(&self, i: int) -> i8 { self.table.column_priority(i, self.table.height as int) }
    open spec fn child_is_empty(&self, i: int) -> bool { self.table.column_empty(i, self.table.height as int) }

    open spec fn child_admits(&self, i: int, offer: ProposedDimensions, env: DefaultEnvironment) -> bool {
        forall|r: int| 0 <= r < self.table.height ==> #[trigger] self.table.cell(i, r).admits(offer, env)
    }

    open spec fn child_size(&self, i: int, offer: ProposedDimensions, env: DefaultEnvironment) -> Dimensions {
        self.table.column_extent(i, self.table.height as int, offer, env)
    }

    fn count(&self) -> (r: usize) { self.table.width }

    fn priority_at(&self, i: usize) -> (r: i8) {
        let mut p: i8 = -128;
        let mut k: usize = 0;
        while k < self.table.height
            invariant
                k <= self.table.height,
                i < self.table.width,
                self.table.builds(),
                p == self.table.column_priority(i as int, k as int),
            decreases self.table.height - k,
        {
            let q = self.table.build_cell(i, k).priority();
            if q > p {
                p = q;
            }
            k = k + 1;
        }
        p
    }

    fn is_empty_at(&self, i: usize) -> (r: bool) {
        let mut e = true;
        let mut k: usize = 0;
        while k < self.table.height
            invariant
                k <= self.table.height,
                i < self.table.width,
                self.table.builds(),
                e == self.table.column_empty(i as int, k as int),
            decreases self.table.height - k,
        {
            e = e && self.table.build_cell(i, k).is_empty();
            k = k + 1;
        }
        e
    }

    fn size_at(&self, i: usize, offer: &ProposedDimensions, env: &DefaultEnvironment) -> (r: Dimensions) {
        let mut w: u32 = if matches!(offer.width, ProposedDimension::Compact) { 0xffff_ffff } else { 0 };
        let mut h: u32 = if matches!(offer.height, ProposedDimension::Compact) { 0xffff_ffff } else { 0 };
        let mut k: usize = 0;
        while k < self.table.height
            invariant
                k <= self.table.height,
                i < self.table.width,
                self.table.builds(),
                forall|r: int| 0 <= r < self.table.height ==> #[trigger] self.table.cell(i as int, r).admits(*offer, *env),
                (Dimensions { width: Dimension(w), height: Dimension(h) }) == self.table.column_extent(i as int, k as int, *offer, *env),
            decreases self.table.height - k,
        {
            let d = self.table.build_cell(i, k).layout(offer, env).resolved_size;
            if d.width.0 > w {
                w = d.width.0;
            }
            if d.height.0 > h {
                h = d.height.0;
            }
            k = k + 1;
        }
        Dimensions { width: Dimension(w), height: Dimension(h) }
    }
}

/// `n` equal parts of `total` less the strokes between them, the remainder going one
/// each to the first parts.
pub open spec fn equal_parts(total: u32, n: usize, stroke: u32) -> Seq<u32> {
    let strokes = stroke * (if n > 0 { n - 1 } else { 0int });
    let available = sat_sub(total as int, strokes) as int;
    let div = if n > 0 { n as int } else { 1int };
    Seq::new(n as nat, |i: int| (available / div + if i < available % div { 1int } else { 0int }) as u32)
}

/// The total of a sequence of lengths.
pub open spec fn seq_sum(s: Seq<u32>) -> int
    decreases s.len(),
{
    if s.len() == 0 {
        0
    } else {
        seq_sum(s.drop_last()) + s.last()
    }
}

/// The total length of `n` parts and the strokes between them.
pub open spec fn strokes(stroke: u32, n: usize) -> int {
    stroke * (if n > 0 { n - 1 } else { 0int })
}

/// `n` equal parts of `total` less the strokes between them.
fn equal_parts_of(total: u32, n: usize, stroke: u32) -> (r: Vec<u32>)
    requires
        strokes(stroke, n) <= u32::MAX,
        n <= u32::MAX,
    ensures
        r@ == equal_parts(total, n, stroke),
{
    let gaps: u32 = if n > 0 { (n - 1) as u32 } else { 0 };
    let stroke_total = stroke * gaps;
    let div: u32 = if n > 0 { n as u32 } else { 1 };
    let available = total.saturating_sub(stroke_total);
    let base = available / div;
    let rem = available % div;
    let ghost parts = equal_parts(total, n, stroke);
    let mut out: Vec<u32> = Vec::new();
    let mut i: usize = 0;
    while i < n
        invariant
            i <= n,
            n <= u32::MAX,
            div == (if n > 0 { n as int } else { 1int }),
            available == sat_sub(total as int, strokes(stroke, n)),
            base == available as int / div as int,
            rem == available as int % div as int,
            parts == equal_parts(total, n, stroke),
            out@ == parts.take(i as int),
        decreases n - i,
    {
        proof {
            if rem > 0 {
                assert(div >= 2);
                assert(base <= u32::MAX / 2) by (nonlinear_arith)
                    requires
                        div >= 2,
                        base == available as int / div as int,
                        available <= u32::MAX,
                ;
            }
        }
        let extra: u32 = if (i as u32) < rem { 1 } else { 0 };
        out.push(base + extra);
        proof {
            assert(out@ =~= parts.take(i + 1));
        }
        i = i + 1;
    }
    proof {
        assert(out@ =~= parts);
    }
    out
}

/// A list of `n` absent values.
fn absent_list<T>(n: usize) -> (r: List<Option<T>>)
    ensures
        r == list_of(Seq::new(n as nat, |i: int| None::<T>)),
{
    let mut v: Vec<Option<T>> = Vec::new();
    let mut i: usize = 0;
    while i < n
        invariant
            i <= n,
            v@ == Seq::new(i as nat, |k: int| None::<T>),
        decreases n - i,
    {
        v.push(None);
        proof {
            assert(v@ =~= Seq::new((i + 1) as nat, |k: int| None::<T>));
        }
        i = i + 1;
    }
    list_from_vec(v)
}

/// The layout of a table: the layouts of the cells column by column, none for a cell
/// that was not laid out, the size, and the widths of the columns and heights of the
/// rows.
#[derive(Debug)]
pub struct TableLayout<L> {
    pub sublayouts: List<List<Option<ResolvedLayout<L>>>>,
    pub resolved_size_cache: Dimensions,
    pub col_widths: List<u32>,
    pub row_heights: List<u32>,
}

impl<L> TableLayout<L> {
    /// The layout of a table of the given size from its cell layouts and track sizes.
    pub fn new(
        sublayouts: List<List<Option<ResolvedLayout<L>>>>,
        size: Dimensions,
        col_widths: List<u32>,
        row_heights: List<u32>,
    ) -> (r: ResolvedLayout<TableLayout<L>>)
        ensures
            r == (ResolvedLayout {
                sublayouts: TableLayout { sublayouts, resolved_size_cache: size, col_widths, row_heights },
                resolved_size: size,
            }),
    {
        ResolvedLayout { sublayouts: TableLayout { sublayouts, resolved_size_cache: size, col_widths, row_heights }, resolved_size: size }
    }

    /// Cell layouts for `width` columns of `height` rows, none of them laid out.
    pub fn default(width: usize, height: usize) -> (r: List<List<Option<ResolvedLayout<L>>>>)
        ensures
            r == list_of(Seq::new(width as nat, |c: int| list_of(Seq::new(height as nat, |i: int| None::<ResolvedLayout<L>>)))),
    {
        let mut v: Vec<List<Option<ResolvedLayout<L>>>> = Vec::new();
        let mut c: usize = 0;
        while c < width
            invariant
                c <= width,
                v@ == Seq::new(c as nat, |k: int| list_of(Seq::new(height as nat, |i: int| None::<ResolvedLayout<L>>))),
            decreases width - c,
        {
            v.push(absent_list(height));
            proof {
                assert(v@ =~= Seq::new((c + 1) as nat, |k: int| list_of(Seq::new(height as nat, |i: int| None::<ResolvedLayout<L>>))));
            }
            c = c + 1;
        }
        list_from_vec(v)
    }
}

/// A prefix of a sequence of lengths adds up to no more than the whole.
proof fn lemma_seq_sum_prefix(s: Seq<u32>, i: int)
    requires
        0 <= i <= s.len(),
    ensures
        0 <= seq_sum(s.take(i)) <= seq_sum(s),
        i < s.len() ==> seq_sum(s.take(i + 1)) == seq_sum(s.take(i)) + s[i],
    decreases s.len() - i,
{
    if i < s.len() {
        assert(s.take(i + 1).drop_last() =~= s.take(i));
        lemma_seq_sum_prefix(s, i + 1);
        lemma_seq_sum_nonneg(s.take(i));
    } else {
        assert(s.take(i) =~= s);
        lemma_seq_sum_nonneg(s);
    }
}

/// A sum of lengths is not negative.
proof fn lemma_seq_sum_nonneg(s: Seq<u32>)
    ensures
        seq_sum(s) >= 0,
    decreases s.len(),
{
    if s.len() > 0 {
        lemma_seq_sum_nonneg(s.drop_last());
    }
}

/// The total of the lengths, if it fits in a `u32`.
fn checked_sum(v: &Vec<u32>) -> (r: Option<u32>)
    ensures
        r == (if seq_sum(v@) <= u32::MAX { Some(seq_sum(v@) as u32) } else { None::<u32> }),
{
    let mut acc: u32 = 0;
    let mut i: usize = 0;
    while i < v.len()
        invariant
            i <= v.len(),
            acc == seq_sum(v@.take(i as int)),
        decreases v.len() - i,
    {
        proof {
            lemma_seq_sum_prefix(v@, i as int);
        }
        if v[i] > 0xffff_ffffu32 - acc {
            proof {
                lemma_seq_sum_prefix(v@, i + 1);
            }
            return None;
        }
        acc = acc + v[i];
        i = i + 1;
    }
    proof {
        assert(v@.take(v.len() as int) =~= v@);
    }
    Some(acc)
}

/// The total length of `n` parts and the strokes between them, saturating.
fn total_length(parts: &Vec<u32>, stroke: u32, n: usize) -> (r: u32)
    requires
        strokes(stroke, n) <= u32::MAX,
        n <= u32::MAX,
    ensures
        r == (if seq_sum(parts@) + strokes(stroke, n) <= u32::MAX { (seq_sum(parts@) + strokes(stroke, n)) as u32 } else { u32::MAX }),
{
    let gaps: u32 = if n > 0 { (n - 1) as u32 } else { 0 };
    let stroke_total = stroke * gaps;
    proof {
        lemma_seq_sum_nonneg(parts@);
    }
    match checked_sum(parts) {
        Some(sum) => match sum.checked_add(stroke_total) {
            Some(t) => t,
            None => 0xffff_ffff,
        },
        None => 0xffff_ffff,
    }
}

/// The list of the values of a vector, kept beside it.
fn list_copy(v: &Vec<u32>) -> (r: List<u32>)
    ensures
        r == list_of(v@),
{
    let mut w: Vec<u32> = Vec::new();
    let mut i: usize = 0;
    while i < v.len()
        invariant
            i <= v.len(),
            w@ == v@.take(i as int),
        decreases v.len() - i,
    {
        w.push(v[i]);
        proof {
            assert(w@ =~= v@.take(i + 1));
        }
        i = i + 1;
    }
    proof {
        assert(w@ =~= v@);
    }
    list_from_vec(w)
}

/// `n` zeros.
pub open spec fn zero_lengths(n: usize) -> Seq<u32> {
    Seq::new(n as nat, |i: int| 0u32)
}

impl<const R: usize, const C: usize, M: TableIndex, V: ViewLayout, F: Fn(M::Output) -> V> TableView<R, C, M, V, F> {
    /// Every cell can be laid out for every proposal.
    pub open spec fn cells_admit(&self, env: DefaultEnvironment) -> bool {
        forall|c: int, r: int, o: ProposedDimensions| #[trigger] self.cell(c, r).admits(o, env)
    }

    /// How a column lays out its cells.
    pub open spec fn column_params(&self) -> StackParams {
        StackParams { direction: LayoutDirection::Vertical, spacing: self.row_stroke, slots: self.height, clamp_cross: false }
    }

    /// Column `c` as the children of a stack.
    pub open spec fn column_of(&self, c: int) -> TableColumn<'_, R, C, M, V, F> {
        TableColumn { table: self, col: c as usize }
    }

    /// The layout of the cell in column `c` and row `r` when the column is stacked at its
    /// width.
    pub open spec fn stacked_cell(&self, widths: Seq<u32>, c: int, r: int, offer: ProposedDimensions, env: DefaultEnvironment) -> ResolvedLayout<V::Sublayout> {
        let column_offer = ProposedDimensions { width: ProposedDimension::Exact(widths[c]), height: offer.height };
        let offers = stack_offers(&self.column_of(c), column_offer, env, self.column_params());
        self.cell(c, r).spec_layout(offers[r], env)
    }

    /// The height of row `r` over the first `n` stacked columns.
    pub open spec fn row_height_upto(&self, widths: Seq<u32>, r: int, n: int, offer: ProposedDimensions, env: DefaultEnvironment) -> u32
        decreases n,
    {
        if n <= 0 {
            0
        } else {
            max_u32(self.row_height_upto(widths, r, n - 1, offer, env), self.stacked_cell(widths, n - 1, r, offer, env).resolved_size.height.0)
        }
    }

    /// The heights of the rows once every column is stacked at its width.
    pub open spec fn stacked_heights(&self, widths: Seq<u32>, offer: ProposedDimensions, env: DefaultEnvironment) -> Seq<u32> {
        Seq::new(self.height as nat, |r: int| self.row_height_upto(widths, r, self.width as int, offer, env))
    }

    /// The cell layouts of column `c` stacked at its width.
    pub open spec fn stacked_column(&self, widths: Seq<u32>, c: int, offer: ProposedDimensions, env: DefaultEnvironment) -> List<Option<ResolvedLayout<V::Sublayout>>> {
        list_of(Seq::new(self.height as nat, |r: int| Some(self.stacked_cell(widths, c, r, offer, env))))
    }

    /// The cell layouts of every column stacked at its width.
    pub open spec fn stacked_cells(&self, widths: Seq<u32>, offer: ProposedDimensions, env: DefaultEnvironment) -> List<List<Option<ResolvedLayout<V::Sublayout>>>> {
        list_of(Seq::new(self.width as nat, |c: int| self.stacked_column(widths, c, offer, env)))
    }

    /// Stacks every column at its width. Returns the cell layouts and the row heights.
    fn stack_columns(&self, widths: &Vec<u32>, offer: &ProposedDimensions, env: &DefaultEnvironment) -> (r: (
        List<List<Option<ResolvedLayout<V::Sublayout>>>>,
        Vec<u32>,
    ))
        requires
            self.builds(),
            self.cells_admit(*env),
            widths.len() == self.width,
        ensures
            r.0 == self.stacked_cells(widths@, *offer, *env),
            r.1@ == self.stacked_heights(widths@, *offer, *env),
    {
        let params = StackParams { direction: LayoutDirection::Vertical, spacing: self.row_stroke, slots: self.height, clamp_cross: false };
        let mut columns: Vec<List<Option<ResolvedLayout<V::Sublayout>>>> = Vec::new();
        let mut heights = zeros(self.height);
        let mut c: usize = 0;
        while c < self.width
            invariant
                c <= self.width,
                self.builds(),
                self.cells_admit(*env),
                widths.len() == self.width,
                params == self.column_params(),
                heights.len() == self.height,
                forall|r: int| 0 <= r < self.height ==> heights@[r] == self.row_height_upto(widths@, r, c as int, *offer, *env),
                columns@ == Seq::new(c as nat, |k: int| self.stacked_column(widths@, k, *offer, *env)),
            decreases self.width - c,
        {
            let column = TableColumn { table: self, col: c };
            let column_offer = ProposedDimensions { width: ProposedDimension::Exact(widths[c]), height: offer.height };
            assert(stack_admits(&column, column_offer, *env, LayoutDirection::Vertical)) by {
                assert forall|i: int, p: ProposedDimension| 0 <= i < column.child_count() implies #[trigger] column.child_admits(i, with_main(column_offer, LayoutDirection::Vertical, p), *env) by {
                    assert(self.cell(c as int, i).admits(with_main(column_offer, LayoutDirection::Vertical, p), *env));
                }
            }
            let (_, offers) = layout_n(&column, &column_offer, env, params);
            let ghost expected = Seq::new(self.height as nat, |r: int| Some(self.stacked_cell(widths@, c as int, r, *offer, *env)));
            let mut cells: Vec<Option<ResolvedLayout<V::Sublayout>>> = Vec::new();
            let mut r: usize = 0;
            while r < self.height
                invariant
                    r <= self.height,
                    c < self.width,
                    self.builds(),
                    self.cells_admit(*env),
                    widths.len() == self.width,
                    column == self.column_of(c as int),
                    column_offer == (ProposedDimensions { width: ProposedDimension::Exact(widths@[c as int]), height: offer.height }),
                    offers@ == stack_offers(&column, column_offer, *env, params),
                    params == self.column_params(),
                    offers@.len() == self.height,
                    heights.len() == self.height,
                    forall|k: int| 0 <= k < r ==> heights@[k] == self.row_height_upto(widths@, k, c + 1, *offer, *env),
                    forall|k: int| r <= k < self.height ==> heights@[k] == self.row_height_upto(widths@, k, c as int, *offer, *env),
                    expected == Seq::new(self.height as nat, |r: int| Some(self.stacked_cell(widths@, c as int, r, *offer, *env))),
                    cells@ == expected.take(r as int),
                decreases self.height - r,
            {
                assert(self.cell(c as int, r as int).admits(offers@[r as int], *env));
                let l = self.build_cell(c, r).layout(&offers[r], env);
                let h = l.resolved_size.height.0;
                if h > heights[r] {
                    heights.set(r, h);
                }
                cells.push(Some(l));
                proof {
                    assert(cells@ =~= expected.take(r + 1));
                }
                r = r + 1;
            }
            proof {
                assert(cells@ =~= expected);
            }
            columns.push(list_from_vec(cells));
            proof {
                assert(columns@ =~= Seq::new((c + 1) as nat, |k: int| self.stacked_column(widths@, k, *offer, *env)));
            }
            c = c + 1;
        }
        proof {
            assert(heights@ =~= self.stacked_heights(widths@, *offer, *env));
        }
        (list_from_vec(columns), heights)
    }
}

impl<const R: usize, const C: usize, M: TableIndex, V: ViewLayout, F: Fn(M::Output) -> V> TableView<R, C, M, V, F> {
    /// The height offered to each row while sizing columns automatically: an even share
    /// of an exact height less the strokes.
    pub open spec fn auto_height_offer(&self, offer: ProposedDimensions) -> ProposedDimension {
        match offer.height {
            ProposedDimension::Exact(h) => ProposedDimension::Exact(
                (sat_sub(h as int, strokes(self.row_stroke, self.height)) as int / (if self.height > 0 { self.height as int } else { 1int })) as u32,
            ),
            other => other,
        }
    }

    /// How the columns are laid out side by side when sized automatically.
    pub open spec fn row_params(&self) -> StackParams {
        StackParams { direction: LayoutDirection::Horizontal, spacing: self.col_stroke, slots: self.width, clamp_cross: false }
    }

    /// The columns as the children of a stack.
    pub open spec fn columns_of(&self) -> TableColumns<'_, R, C, M, V, F> {
        TableColumns { table: self }
    }

    /// The widths of the columns when sized automatically: the columns are laid out side
    /// by side, each as wide as its widest cell.
    pub open spec fn auto_widths(&self, offer: ProposedDimensions, env: DefaultEnvironment) -> Seq<u32> {
        let o = ProposedDimensions { width: offer.width, height: self.auto_height_offer(offer) };
        let offers = stack_offers(&self.columns_of(), o, env, self.row_params());
        Seq::new(self.width as nat, |c: int| self.column_extent(c, self.height as int, offers[c], env).width.0)
    }

    /// The cell layouts when every cell is offered its column's width and row's height.
    pub open spec fn fixed_cells(&self, widths: Seq<u32>, heights: Seq<u32>, env: DefaultEnvironment) -> List<List<Option<ResolvedLayout<V::Sublayout>>>> {
        list_of(Seq::new(self.width as nat, |c: int| list_of(Seq::new(self.height as nat, |r: int| Some(
            self.cell(c, r).spec_layout(ProposedDimensions { width: ProposedDimension::Exact(widths[c]), height: ProposedDimension::Exact(heights[r]) }, env),
        )))))
    }

    /// The layout of a table whose algorithm needs an exact proposal it did not get: no
    /// cell laid out, and as large as the proposal resolved with no minimum or ideal.
    pub open spec fn unlaid(&self, offer: ProposedDimensions) -> ResolvedLayout<TableLayout<V::Sublayout>> {
        let size = Dimensions {
            width: crate::primitives::resolve_flexible(offer.width, 0, 0),
            height: crate::primitives::resolve_flexible(offer.height, 0, 0),
        };
        ResolvedLayout {
            sublayouts: TableLayout {
                sublayouts: list_of(Seq::new(self.width as nat, |c: int| list_of(Seq::new(self.height as nat, |i: int| None::<ResolvedLayout<V::Sublayout>>)))),
                resolved_size_cache: size,
                col_widths: list_of(zero_lengths(self.width)),
                row_heights: list_of(zero_lengths(self.height)),
            },
            resolved_size: size,
        }
    }

    /// A laid-out table of cells with the given track sizes and total size.
    pub open spec fn laid_out(
        &self,
        cells: List<List<Option<ResolvedLayout<V::Sublayout>>>>,
        widths: Seq<u32>,
        heights: Seq<u32>,
        size: Dimensions,
    ) -> ResolvedLayout<TableLayout<V::Sublayout>> {
        ResolvedLayout {
            sublayouts: TableLayout { sublayouts: cells, resolved_size_cache: size, col_widths: list_of(widths), row_heights: list_of(heights) },
            resolved_size: size,
        }
    }

    /// The layout of the table for a proposal.
    ///
    /// With fixed sizes for both, an exact proposal is shared equally among the columns
    /// and among the rows. With fixed widths, an exact width is shared equally among the
    /// columns; each column then stacks its cells at its width, and a row is as tall as
    /// its tallest cell. Sized automatically, the columns are first laid out side by side
    /// as wide as their widest cells, and then stacked as with fixed widths.
    pub open spec fn table_layout(&self, offer: ProposedDimensions, env: DefaultEnvironment) -> ResolvedLayout<TableLayout<V::Sublayout>> {
        match self.algorithm {
            TableAlgorithm::FixedBoth => match (offer.width, offer.height) {
                (ProposedDimension::Exact(w), ProposedDimension::Exact(h)) => {
                    let widths = equal_parts(w, self.width, self.col_stroke);
                    let heights = equal_parts(h, self.height, self.row_stroke);
                    self.laid_out(self.fixed_cells(widths, heights, env), widths, heights, Dimensions { width: Dimension(w), height: Dimension(h) })
                },
                _ => self.unlaid(offer),
            },
            TableAlgorithm::FixedWidth => match offer.width {
                ProposedDimension::Exact(w) => {
                    let widths = equal_parts(w, self.width, self.col_stroke);
                    let heights = self.stacked_heights(widths, offer, env);
                    let total = |parts: Seq<u32>, stroke: u32, n: usize| if seq_sum(parts) + strokes(stroke, n) <= u32::MAX {
                        (seq_sum(parts) + strokes(stroke, n)) as u32
                    } else {
                        u32::MAX
                    };
                    self.laid_out(
                        self.stacked_cells(widths, offer, env),
                        widths,
                        heights,
                        Dimensions { width: Dimension(total(widths, self.col_stroke, self.width)), height: Dimension(total(heights, self.row_stroke, self.height)) },
                    )
                },
                _ => self.unlaid(offer),
            },
            TableAlgorithm::Auto => {
                let widths = self.auto_widths(offer, env);
                let heights = self.stacked_heights(widths, offer, env);
                self.laid_out(
                    self.stacked_cells(widths, offer, env),
                    widths,
                    heights,
                    Dimensions {
                        width: Dimension((seq_sum(widths) + strokes(self.col_stroke, self.width)) as u32),
                        height: Dimension((seq_sum(heights) + strokes(self.row_stroke, self.height)) as u32),
                    },
                )
            },
        }
    }

    /// Whether laying the table out for a proposal stays within machine arithmetic.
    pub open spec fn table_admits(&self, offer: ProposedDimensions, env: DefaultEnvironment) -> bool {
        &&& self.builds()
        &&& self.cells_admit(env)
        &&& self.width <= u32::MAX
        &&& self.height <= u32::MAX
        &&& strokes(self.col_stroke, self.width) <= u32::MAX
        &&& strokes(self.row_stroke, self.height) <= u32::MAX
        &&& self.algorithm == TableAlgorithm::Auto ==> {
            let widths = self.auto_widths(offer, env);
            let heights = self.stacked_heights(widths, offer, env);
            &&& seq_sum(widths) + strokes(self.col_stroke, self.width) <= u32::MAX
            &&& seq_sum(heights) + strokes(self.row_stroke, self.height) <= u32::MAX
        }
    }

    /// The widths of the columns when sized automatically.
    fn auto_widths_of(&self, offer: &ProposedDimensions, env: &DefaultEnvironment) -> (r: Vec<u32>)
        requires
            self.builds(),
            self.cells_admit(*env),
            self.height <= u32::MAX,
            strokes(self.row_stroke, self.height) <= u32::MAX,
        ensures
            r@ == self.auto_widths(*offer, *env),
    {
        let height_offer = match offer.height {
            ProposedDimension::Exact(h) => {
                let gaps: u32 = if self.height > 0 { (self.height - 1) as u32 } else { 0 };
                let div: u32 = if self.height > 0 { self.height as u32 } else { 1 };
                ProposedDimension::Exact(h.saturating_sub(self.row_stroke * gaps) / div)
            },
            other => other,
        };
        let o = ProposedDimensions { width: offer.width, height: height_offer };
        let columns = TableColumns { table: self };
        let params = StackParams { direction: LayoutDirection::Horizontal, spacing: self.col_stroke, slots: self.width, clamp_cross: false };
        assert(stack_admits(&columns, o, *env, LayoutDirection::Horizontal)) by {
            assert forall|i: int, p: ProposedDimension| 0 <= i < columns.child_count() implies #[trigger] columns.child_admits(i, with_main(o, LayoutDirection::Horizontal, p), *env) by {
                assert forall|r: int| 0 <= r < self.height implies #[trigger] self.cell(i, r).admits(with_main(o, LayoutDirection::Horizontal, p), *env) by {
                }
            }
        }
        let (_, offers) = layout_n(&columns, &o, env, params);
        let ghost expected = self.auto_widths(*offer, *env);
        let mut widths: Vec<u32> = Vec::new();
        let mut c: usize = 0;
        while c < self.width
            invariant
                c <= self.width,
                self.builds(),
                self.cells_admit(*env),
                columns == self.columns_of(),
                o == (ProposedDimensions { width: offer.width, height: self.auto_height_offer(*offer) }),
                params == self.row_params(),
                offers@ == stack_offers(&columns, o, *env, params),
                offers@.len() == self.width,
                expected == self.auto_widths(*offer, *env),
                widths@ == expected.take(c as int),
            decreases self.width - c,
        {
            assert forall|r: int| 0 <= r < self.height implies #[trigger] self.cell(c as int, r).admits(offers@[c as int], *env) by {
            }
            let d = columns.size_at(c, &offers[c], env);
            widths.push(d.width.0);
            proof {
                assert(widths@ =~= expected.take(c + 1));
            }
            c = c + 1;
        }
        proof {
            assert(widths@ =~= expected);
        }
        widths
    }

    /// Lays every cell out at its column's width and row's height.
    fn lay_out_fixed(&self, widths: &Vec<u32>, heights: &Vec<u32>, env: &DefaultEnvironment) -> (r: List<List<Option<ResolvedLayout<V::Sublayout>>>>)
        requires
            self.builds(),
            self.cells_admit(*env),
            widths.len() == self.width,
            heights.len() == self.height,
        ensures
            r == self.fixed_cells(widths@, heights@, *env),
    {
        let ghost all = Seq::new(self.width as nat, |c: int| list_of(Seq::new(self.height as nat, |r: int| Some(
            self.cell(c, r).spec_layout(ProposedDimensions { width: ProposedDimension::Exact(widths@[c]), height: ProposedDimension::Exact(heights@[r]) }, *env),
        ))));
        let mut columns: Vec<List<Option<ResolvedLayout<V::Sublayout>>>> = Vec::new();
        let mut c: usize = 0;
        while c < self.width
            invariant
                c <= self.width,
                self.builds(),
                self.cells_admit(*env),
                widths.len() == self.width,
                heights.len() == self.height,
                all == Seq::new(self.width as nat, |c: int| list_of(Seq::new(self.height as nat, |r: int| Some(
                    self.cell(c, r).spec_layout(ProposedDimensions { width: ProposedDimension::Exact(widths@[c]), height: ProposedDimension::Exact(heights@[r]) }, *env),
                )))),
                columns@ == all.take(c as int),
            decreases self.width - c,
        {
            let ghost column = Seq::new(self.height as nat, |r: int| Some(
                self.cell(c as int, r).spec_layout(ProposedDimensions { width: ProposedDimension::Exact(widths@[c as int]), height: ProposedDimension::Exact(heights@[r]) }, *env),
            ));
            let mut cells: Vec<Option<ResolvedLayout<V::Sublayout>>> = Vec::new();
            let mut r: usize = 0;
            while r < self.height
                invariant
                    r <= self.height,
                    c < self.width,
                    self.builds(),
                    self.cells_admit(*env),
                    widths.len() == self.width,
                    heights.len() == self.height,
                    column == Seq::new(self.height as nat, |r: int| Some(
                        self.cell(c as int, r).spec_layout(ProposedDimensions { width: ProposedDimension::Exact(widths@[c as int]), height: ProposedDimension::Exact(heights@[r]) }, *env),
                    )),
                    cells@ == column.take(r as int),
                decreases self.height - r,
            {
                let o = ProposedDimensions { width: ProposedDimension::Exact(widths[c]), height: ProposedDimension::Exact(heights[r]) };
                assert(self.cell(c as int, r as int).admits(o, *env));
                cells.push(Some(self.build_cell(c, r).layout(&o, env)));
                proof {
                    assert(cells@ =~= column.take(r + 1));
                }
                r = r + 1;
            }
            proof {
                assert(cells@ =~= column);
            }
            columns.push(list_from_vec(cells));
            proof {
                assert(columns@ =~= all.take(c + 1));
            }
            c = c + 1;
        }
        proof {
            assert(columns@ =~= all);
        }
        list_from_vec(columns)
    }

    /// The layout of a table that could not be laid out for the proposal.
    fn unlaid_of(&self, offer: &ProposedDimensions) -> (r: ResolvedLayout<TableLayout<V::Sublayout>>)
        ensures
            r == self.unlaid(*offer),
    {
        let size = Dimensions {
            width: offer.width.resolve_most_flexible(0, 0),
            height: offer.height.resolve_most_flexible(0, 0),
        };
        let widths = zeros(self.width);
        let heights = zeros(self.height);
        ResolvedLayout {
            sublayouts: TableLayout {
                sublayouts: TableLayout::default(self.width, self.height),
                resolved_size_cache: size,
                col_widths: list_copy(&widths),
                row_heights: list_copy(&heights),
            },
            resolved_size: size,
        }
    }

    /// Lays the table out for a proposal.
    pub fn lay_out(&self, offer: &ProposedDimensions, env: &DefaultEnvironment) -> (r: ResolvedLayout<TableLayout<V::Sublayout>>)
        requires
            self.table_admits(*offer, *env),
        ensures
            r == self.table_layout(*offer, *env),
    {
        match self.algorithm {
            TableAlgorithm::FixedBoth => match (offer.width, offer.height) {
                (ProposedDimension::Exact(w), ProposedDimension::Exact(h)) => {
                    let widths = equal_parts_of(w, self.width, self.col_stroke);
                    let heights = equal_parts_of(h, self.height, self.row_stroke);
                    let cells = self.lay_out_fixed(&widths, &heights, env);
                    let size = Dimensions::new(w, h);
                    TableLayout::new(cells, size, list_copy(&widths), list_copy(&heights))
                },
                _ => self.unlaid_of(offer),
            },
            TableAlgorithm::FixedWidth => match offer.width {
                ProposedDimension::Exact(w) => {
                    let widths = equal_parts_of(w, self.width, self.col_stroke);
                    let (cells, heights) = self.stack_columns(&widths, offer, env);
                    let size = Dimensions::new(
                        total_length(&widths, self.col_stroke, self.width),
                        total_length(&heights, self.row_stroke, self.height),
                    );
                    TableLayout::new(cells, size, list_copy(&widths), list_copy(&heights))
                },
                _ => self.unlaid_of(offer),
            },
            TableAlgorithm::Auto => {
                let widths = self.auto_widths_of(offer, env);
                let (cells, heights) = self.stack_columns(&widths, offer, env);
                let size = Dimensions::new(
                    total_length(&widths, self.col_stroke, self.width),
                    total_length(&heights, self.row_stroke, self.height),
                );
                TableLayout::new(cells, size, list_copy(&widths), list_copy(&heights))
            },
        }
    }
}

/// The position of track `k` from `base`: each track before it moves it by its size and
/// one stroke.
pub open spec fn track_offset(base: int, sizes: Seq<u32>, stroke: u32, k: int) -> int
    decreases k,
{
    if k <= 0 {
        base
    } else {
        track_offset(base, sizes, stroke, k - 1) + ((sizes[k - 1] as i32) + (stroke as i32))
    }
}

/// Whether the positions of the first `n` tracks, and the one after them, stay in range.
pub open spec fn tracks_fit(base: int, sizes: Seq<u32>, stroke: u32, n: int) -> bool {
    &&& forall|k: int| 0 <= k <= n ==> i32::MIN <= #[trigger] track_offset(base, sizes, stroke, k) <= i32::MAX
    &&& forall|k: int| 0 <= k < n ==> i32::MIN <= #[trigger] sizes[k] as i32 + (stroke as i32) <= i32::MAX
}

/// The render tree of a table: the render trees of the cells column by column, none for
/// a cell that was not laid out, with the geometry the strokes are drawn from.
#[derive(Debug)]
pub struct TableRenderable<T> {
    pub renderables: List<List<Option<T>>>,
    pub origin: Point,
    pub resolved_size: Dimensions,
    pub width: usize,
    pub height: usize,
    pub col_widths: List<u32>,
    pub row_heights: List<u32>,
    pub col_stroke: u32,
    pub row_stroke: u32,
}

/// Where the divider after track `c - 1` starts, for `c >= 1`: the first lies just past
/// the first track, and each further one a stroke and a track further on.
pub open spec fn divider_at(base: int, sizes: Seq<u32>, stroke: u32, c: int) -> int
    decreases c,
{
    if c <= 1 {
        base + (sizes[0] as i32)
    } else {
        divider_at(base, sizes, stroke, c - 1) + ((stroke as i32) + (sizes[c - 1] as i32))
    }
}

/// Whether placing the dividers among `n` tracks stays within `i32`, the position past
/// the last track included.
pub open spec fn dividers_fit(base: int, sizes: Seq<u32>, stroke: u32, n: int) -> bool {
    n >= 1 ==> {
        &&& forall|c: int| 1 <= c <= n ==> i32::MIN <= #[trigger] divider_at(base, sizes, stroke, c) <= i32::MAX
        &&& forall|c: int| 1 <= c < n ==> i32::MIN <= (stroke as i32) + (#[trigger] sizes[c] as i32) <= i32::MAX
    }
}

/// The starts of the dividers between the first `n` tracks, in order: one fewer than the
/// tracks, none when there are none.
pub fn divider_positions(base: i32, sizes: &List<u32>, stroke: u32, n: usize) -> (r: Vec<i32>)
    requires
        n <= sizes.values().len(),
        dividers_fit(base as int, sizes.values(), stroke, n as int),
    ensures
        r@.len() == (if n == 0 { 0 } else { n - 1 }),
        forall|i: int| 0 <= i < r@.len() ==> r@[i] == divider_at(base as int, sizes.values(), stroke, i + 1),
{
    let mut out: Vec<i32> = Vec::new();
    if n == 0 {
        return out;
    }
    let first: u32 = *sizes.get(0);
    assert(i32::MIN <= divider_at(base as int, sizes.values(), stroke, 1) <= i32::MAX);
    let mut x: i32 = base + (first as i32);
    let mut c: usize = 1;
    while c < n
        invariant
            1 <= c <= n,
            n <= sizes.values().len(),
            dividers_fit(base as int, sizes.values(), stroke, n as int),
            x == divider_at(base as int, sizes.values(), stroke, c as int),
            out@.len() == c - 1,
            forall|i: int| 0 <= i < out@.len() ==> out@[i] == divider_at(base as int, sizes.values(), stroke, i + 1),
        decreases n - c,
    {
        out.push(x);
        let size: u32 = *sizes.get(c);
        assert(i32::MIN <= (stroke as i32) + (sizes.values()[c as int] as i32) <= i32::MAX);
        let step: i32 = (stroke as i32) + (size as i32);
        assert(i32::MIN <= divider_at(base as int, sizes.values(), stroke, c + 1) <= i32::MAX);
        x = x + step;
        c = c + 1;
    }
    out
}

impl<T> TableRenderable<T> {
    /// The line between column `c - 1` and column `c`, for `c >= 1`: a column stroke wide
    /// and as tall as the table.
    pub open spec fn column_line(&self, c: int) -> Rect {
        Rect {
            origin: Point {
                x: divider_at(self.origin.x as int, self.col_widths.values(), self.col_stroke, c) as i32,
                y: self.origin.y,
            },
            size: Size { width: self.col_stroke, height: self.resolved_size.height.0 },
        }
    }

    /// The line between row `r - 1` and row `r`, for `r >= 1`: a row stroke high and as
    /// wide as the table.
    pub open spec fn row_line(&self, r: int) -> Rect {
        Rect {
            origin: Point {
                x: self.origin.x,
                y: divider_at(self.origin.y as int, self.row_heights.values(), self.row_stroke, r) as i32,
            },
            size: Size { width: self.resolved_size.width.0, height: self.row_stroke },
        }
    }

    /// The number of lines between `n` tracks.
    pub open spec fn lines_between(n: usize) -> int {
        if n == 0 { 0 } else { n - 1 }
    }

    /// Whether the lines of the table can be placed: there is a size for each column and
    /// row, and their positions stay within `i32`.
    pub open spec fn lines_admit(&self) -> bool {
        &&& self.width <= self.col_widths.values().len()
        &&& self.height <= self.row_heights.values().len()
        &&& dividers_fit(self.origin.x as int, self.col_widths.values(), self.col_stroke, self.width as int)
        &&& dividers_fit(self.origin.y as int, self.row_heights.values(), self.row_stroke, self.height as int)
    }

    /// The rectangles the strokes of the table are drawn as: the lines between columns
    /// from the leading edge on, then the lines between rows from the top down.
    pub fn stroke_rects(&self) -> (r: Vec<Rect>)
        requires
            self.lines_admit(),
        ensures
            r@ == Seq::new(Self::lines_between(self.width) as nat, |i: int| self.column_line(i + 1))
                + Seq::new(Self::lines_between(self.height) as nat, |i: int| self.row_line(i + 1)),
    {
        let xs = divider_positions(self.origin.x, &self.col_widths, self.col_stroke, self.width);
        let ys = divider_positions(self.origin.y, &self.row_heights, self.row_stroke, self.height);
        let height: u32 = self.resolved_size.height.0;
        let width: u32 = self.resolved_size.width.0;
        let ghost cols = Seq::new(Self::lines_between(self.width) as nat, |i: int| self.column_line(i + 1));
        let ghost rows = Seq::new(Self::lines_between(self.height) as nat, |i: int| self.row_line(i + 1));
        let mut out: Vec<Rect> = Vec::new();
        let mut i: usize = 0;
        while i < xs.len()
            invariant
                i <= xs@.len(),
                xs@.len() == cols.len(),
                forall|k: int| 0 <= k < xs@.len() ==> xs@[k] == divider_at(self.origin.x as int, self.col_widths.values(), self.col_stroke, k + 1),
                height == self.resolved_size.height.0,
                cols == Seq::new(Self::lines_between(self.width) as nat, |i: int| self.column_line(i + 1)),
                out@ == cols.take(i as int),
            decreases xs@.len() - i,
        {
            out.push(Rect { origin: Point { x: xs[i], y: self.origin.y }, size: Size { width: self.col_stroke, height } });
            assert(out@ =~= cols.take(i + 1));
            i = i + 1;
        }
        assert(out@ =~= cols);
        let mut j: usize = 0;
        while j < ys.len()
            invariant
                j <= ys@.len(),
                ys@.len() == rows.len(),
                forall|k: int| 0 <= k < ys@.len() ==> ys@[k] == divider_at(self.origin.y as int, self.row_heights.values(), self.row_stroke, k + 1),
                width == self.resolved_size.width.0,
                rows == Seq::new(Self::lines_between(self.height) as nat, |i: int| self.row_line(i + 1)),
                out@ == cols + rows.take(j as int),
            decreases ys@.len() - j,
        {
            out.push(Rect { origin: Point { x: self.origin.x, y: ys[j] }, size: Size { width, height: self.row_stroke } });
            assert(out@ =~= cols + rows.take(j + 1));
            j = j + 1;
        }
        assert(out@ =~= cols + rows);
        out
    }
}

/// A list holds the list of its own values.
pub proof fn lemma_list_of_own_values<T>(l: List<T>)
    ensures
        list_of(l.values()) == l,
    decreases l,
{
    match l {
        List::Nil => {},
        List::Cons(x, rest) => {
            lemma_list_of_own_values(*rest);
            assert((seq![x] + (*rest).values()).drop_first() =~= (*rest).values());
        },
    }
}

/// A copy of a list of lengths.
fn copy_lengths(l: &List<u32>) -> (r: List<u32>)
    requires
        l.values().len() <= usize::MAX,
    ensures
        r == *l,
{
    let n = l.len();
    let mut v: Vec<u32> = Vec::new();
    let mut i: usize = 0;
    while i < n
        invariant
            i <= n,
            n == l.values().len(),
            v@ == l.values().take(i as int),
        decreases n - i,
    {
        v.push(*l.get(i));
        proof {
            assert(v@ =~= l.values().take(i + 1));
        }
        i = i + 1;
    }
    proof {
        assert(v@ =~= l.values());
        lemma_list_of_own_values(*l);
    }
    list_from_vec(v)
}

impl<const R: usize, const C: usize, M: TableIndex, V: ViewLayout, F: Fn(M::Output) -> V> TableView<R, C, M, V, F> {
    /// The layout of the cell in column `c` and row `r`, if it was laid out.
    pub open spec fn cell_layout(&self, layout: TableLayout<V::Sublayout>, c: int, r: int) -> Option<ResolvedLayout<V::Sublayout>> {
        layout.sublayouts.values()[c].values()[r]
    }

    /// Where the cell in column `c` and row `r` of a laid-out cell is drawn.
    pub open spec fn cell_origin(&self, layout: TableLayout<V::Sublayout>, origin: Point, c: int, r: int, l: ResolvedLayout<V::Sublayout>) -> Point {
        let widths = layout.col_widths.values();
        let heights = layout.row_heights.values();
        let dims = Dimensions { width: Dimension(widths[c]), height: Dimension(heights[r]) };
        let offset = cell_offset(self.cell_alignment, dims, l.resolved_size);
        Point {
            x: (offset.x + track_offset(origin.x as int, widths, self.col_stroke, c)) as i32,
            y: (offset.y + track_offset(origin.y as int, heights, self.row_stroke, r)) as i32,
        }
    }

    /// Whether drawing the table stays within machine arithmetic and its layout covers
    /// every cell.
    pub open spec fn table_render_admits(&self, layout: TableLayout<V::Sublayout>, origin: Point, env: DefaultEnvironment) -> bool {
        let widths = layout.col_widths.values();
        let heights = layout.row_heights.values();
        &&& self.builds()
        &&& widths.len() == self.width
        &&& heights.len() == self.height
        &&& layout.sublayouts.values().len() == self.width
        &&& forall|c: int| 0 <= c < self.width ==> #[trigger] layout.sublayouts.values()[c].values().len() == self.height
        &&& tracks_fit(origin.x as int, widths, self.col_stroke, self.width as int)
        &&& tracks_fit(origin.y as int, heights, self.row_stroke, self.height as int)
        &&& forall|c: int, r: int| 0 <= c < self.width && 0 <= r < self.height ==> (#[trigger] self.cell_layout(layout, c, r) matches Some(l) ==> {
            let dims = Dimensions { width: Dimension(widths[c]), height: Dimension(heights[r]) };
            let offset = cell_offset(self.cell_alignment, dims, l.resolved_size);
            &&& i32::MIN <= offset.x + track_offset(origin.x as int, widths, self.col_stroke, c) <= i32::MAX
            &&& i32::MIN <= offset.y + track_offset(origin.y as int, heights, self.row_stroke, r) <= i32::MAX
            &&& self.cell(c, r).render_admits(l, self.cell_origin(layout, origin, c, r, l), env)
        })
    }

    /// The render tree of the cell in column `c` and row `r`, if it was laid out.
    pub open spec fn cell_tree(&self, layout: TableLayout<V::Sublayout>, origin: Point, env: DefaultEnvironment, c: int, r: int) -> Option<V::Renderables> {
        match self.cell_layout(layout, c, r) {
            Some(l) => Some(self.cell(c, r).spec_render_tree(l, self.cell_origin(layout, origin, c, r, l), env)),
            None => None,
        }
    }

    /// The render tree of the table laid out as `layout` and placed at `origin`.
    pub open spec fn table_render(&self, layout: ResolvedLayout<TableLayout<V::Sublayout>>, origin: Point, env: DefaultEnvironment) -> TableRenderable<V::Renderables> {
        let t = layout.sublayouts;
        TableRenderable {
            renderables: list_of(Seq::new(self.width as nat, |c: int| list_of(Seq::new(self.height as nat, |r: int| self.cell_tree(t, origin, env, c, r))))),
            origin,
            resolved_size: t.resolved_size_cache,
            width: self.width,
            height: self.height,
            col_widths: t.col_widths,
            row_heights: t.row_heights,
            col_stroke: self.col_stroke,
            row_stroke: self.row_stroke,
        }
    }

    /// Draws the cells of the table laid out as `layout` from `origin`.
    fn render_cells(&self, layout: &TableLayout<V::Sublayout>, origin: Point, env: &DefaultEnvironment) -> (r: List<List<Option<V::Renderables>>>)
        requires
            self.table_render_admits(*layout, origin, *env),
        ensures
            r == list_of(Seq::new(self.width as nat, |c: int| list_of(Seq::new(self.height as nat, |r: int| self.cell_tree(*layout, origin, *env, c, r))))),
    {
        let ghost widths = layout.col_widths.values();
        let ghost heights = layout.row_heights.values();
        let ghost all = Seq::new(self.width as nat, |c: int| list_of(Seq::new(self.height as nat, |r: int| self.cell_tree(*layout, origin, *env, c, r))));
        let col_stroke = #[verifier::truncate] (self.col_stroke as i32);
        let row_stroke = #[verifier::truncate] (self.row_stroke as i32);
        let mut columns: Vec<List<Option<V::Renderables>>> = Vec::new();
        let mut x: i32 = origin.x;
        let mut c: usize = 0;
        while c < self.width
            invariant
                c <= self.width,
                self.table_render_admits(*layout, origin, *env),
                widths == layout.col_widths.values(),
                heights == layout.row_heights.values(),
                col_stroke == (self.col_stroke as i32),
                row_stroke == (self.row_stroke as i32),
                x == track_offset(origin.x as int, widths, self.col_stroke, c as int),
                all == Seq::new(self.width as nat, |c: int| list_of(Seq::new(self.height as nat, |r: int| self.cell_tree(*layout, origin, *env, c, r)))),
                columns@ == all.take(c as int),
            decreases self.width - c,
        {
            let cell_w = *layout.col_widths.get(c);
            let column = layout.sublayouts.get(c);
            assert(column.values().len() == self.height);
            let ghost expected = Seq::new(self.height as nat, |r: int| self.cell_tree(*layout, origin, *env, c as int, r));
            let mut cells: Vec<Option<V::Renderables>> = Vec::new();
            let mut y: i32 = origin.y;
            let mut r: usize = 0;
            while r < self.height
                invariant
                    r <= self.height,
                    c < self.width,
                    self.table_render_admits(*layout, origin, *env),
                    widths == layout.col_widths.values(),
                    heights == layout.row_heights.values(),
                    row_stroke == (self.row_stroke as i32),
                    cell_w == widths[c as int],
                    x == track_offset(origin.x as int, widths, self.col_stroke, c as int),
                    *column == layout.sublayouts.values()[c as int],
                    column.values().len() == self.height,
                    y == track_offset(origin.y as int, heights, self.row_stroke, r as int),
                    expected == Seq::new(self.height as nat, |r: int| self.cell_tree(*layout, origin, *env, c as int, r)),
                    cells@ == expected.take(r as int),
                decreases self.height - r,
            {
                let cell_h = *layout.row_heights.get(r);
                match column.get(r) {
                    Some(l) => {
                        assert(self.cell_layout(*layout, c as int, r as int) == Some(*l));
                        let dims = Dimensions::new(cell_w, cell_h);
                        let offset = self.cell_alignment.align(dims, l.resolved_size);
                        let cell_origin = Point::new(offset.x + x, offset.y + y);
                        let tree = self.build_cell(c, r).render_tree(l, cell_origin, env);
                        cells.push(Some(tree));
                    },
                    None => {
                        cells.push(None);
                    },
                }
                proof {
                    assert(cells@ =~= expected.take(r + 1));
                    assert(i32::MIN <= track_offset(origin.y as int, heights, self.row_stroke, r + 1) <= i32::MAX);
                    assert(i32::MIN <= heights[r as int] as i32 + (self.row_stroke as i32) <= i32::MAX);
                }
                let step = #[verifier::truncate] (cell_h as i32) + row_stroke;
                y = y + step;
                r = r + 1;
            }
            proof {
                assert(cells@ =~= expected);
                assert(i32::MIN <= track_offset(origin.x as int, widths, self.col_stroke, c + 1) <= i32::MAX);
                assert(i32::MIN <= widths[c as int] as i32 + (self.col_stroke as i32) <= i32::MAX);
            }
            columns.push(list_from_vec(cells));
            proof {
                assert(columns@ =~= all.take(c + 1));
            }
            let step = #[verifier::truncate] (cell_w as i32) + col_stroke;
            x = x + step;
            c = c + 1;
        }
        proof {
            assert(columns@ =~= all);
        }
        list_from_vec(columns)
    }
}

impl<const R: usize, const C: usize, M: TableIndex, V: ViewLayout, F: Fn(M::Output) -> V> ViewLayout for TableView<R, C, M, V, F> {
    type Sublayout = TableLayout<V::Sublayout>;
    type Renderables = TableRenderable<V::Renderables>;

    open spec fn spec_priority(&self) -> i8 { 0 }
    open spec fn spec_is_empty(&self) -> bool { false }

    open spec fn admits(&self, offer: ProposedDimensions, env: DefaultEnvironment) -> bool {
        self.table_admits(offer, env)
    }

    open spec fn spec_layout(&self, offer: ProposedDimensions, env: DefaultEnvironment) -> ResolvedLayout<TableLayout<V::Sublayout>> {
        self.table_layout(offer, env)
    }

    open spec fn render_admits(&self, layout: ResolvedLayout<TableLayout<V::Sublayout>>, origin: Point, env: DefaultEnvironment) -> bool {
        self.table_render_admits(layout.sublayouts, origin, env)
    }

    open spec fn spec_render_tree(&self, layout: ResolvedLayout<TableLayout<V::Sublayout>>, origin: Point, env: DefaultEnvironment) -> TableRenderable<V::Renderables> {
        self.table_render(layout, origin, env)
    }

    fn priority(&self) -> (r: i8) { 0 }

    fn is_empty(&self) -> (r: bool) { false }

    fn layout(&self, offer: &ProposedDimensions, env: &DefaultEnvironment) -> (r: ResolvedLayout<TableLayout<V::Sublayout>>) {
        self.lay_out(offer, env)
    }

    fn render_tree(&self, layout: &ResolvedLayout<TableLayout<V::Sublayout>>, origin: Point, env: &DefaultEnvironment) -> (r: TableRenderable<V::Renderables>) {
        let renderables = self.render_cells(&layout.sublayouts, origin, env);
        TableRenderable {
            renderables,
            origin,
            resolved_size: layout.sublayouts.resolved_size_cache,
            width: self.width,
            height: self.height,
            col_widths: copy_lengths(&layout.sublayouts.col_widths),
            row_heights: copy_lengths(&layout.sublayouts.row_heights),
            col_stroke: self.col_stroke,
            row_stroke: self.row_stroke,
        }
    }
}

/// Where a table sends an event.
#[derive(Debug, Clone, Copy, PartialEq, Eq, Structural)]
pub enum TableRoute {
    /// Pass `event` to the focused cell; while cells defer, blur the focused cell in
    /// `group`, move focus by `mov` (see [`step_focus`]) and pass the move's focus request
    /// to the newly focused cell, at most `steps` times; answer the last cell's answer.
    Navigate { event: Event, mov: Move, group: FocusGroup, steps: usize },
    /// Pass the event to the focused cell and answer what it answers.
    Focused(Event),
    /// Answer without asking any cell.
    Deferred,
    /// Offer the event to each cell, row after row, until one handles it.
    Broadcast(Event),
}

/// The group a table navigates in when a move starts navigation.
pub open spec fn navigation_group() -> FocusGroup {
    FocusGroup(0)
}

/// Where a table of `width` by `height` cells that holds navigation in `captive` sends
/// an event, and the group it holds navigation in afterwards.
///
/// A blur gives up navigation. A move starts navigation when none is held, and a select
/// starts it in the select's group, entering forward. Held navigation routes moves
/// through the cells and other events to the focused cell; without it, events go to
/// every cell in turn.
pub open spec fn table_route(width: usize, height: usize, captive: Option<FocusGroup>, event: Event) -> (TableRoute, Option<FocusGroup>) {
    let mov = move_of_event(event);
    let is_blur = event matches Event::Focus { action: FocusAction::Blur, .. };
    let held = if is_blur && captive is Some { None } else { captive };
    let steps = if width * height > 0 { (width * height - 1) as usize } else { 0usize };
    let (new_captive, mov2, event2, local) = if held is Some {
        (held, mov, event, captive)
    } else if mov is Some {
        (Some(navigation_group()), mov, event_for_move(mov->0, navigation_group()), Some(navigation_group()))
    } else if event matches Event::Focus { action: FocusAction::Select, .. } {
        let group = event->group;
        (Some(group), Some(Move::Right), Event::Focus { action: FocusAction::Focus(FocusDirection::Forward), group }, Some(group))
    } else {
        (held, mov, event, captive)
    };
    if mov2 is Some && local is Some {
        (TableRoute::Navigate { event: event2, mov: mov2->0, group: local->0, steps }, new_captive)
    } else if local is Some {
        (TableRoute::Focused(event2), new_captive)
    } else if mov2 is Some {
        (TableRoute::Deferred, new_captive)
    } else {
        (TableRoute::Broadcast(event2), new_captive)
    }
}

/// The focus request that enters a cell by a move.
pub open spec fn event_for_move(m: Move, group: FocusGroup) -> Event {
    Event::Focus {
        action: FocusAction::Focus(if m is Up || m is Left { FocusDirection::Backward } else { FocusDirection::Forward }),
        group,
    }
}

impl<const R: usize, const C: usize, M, V, F> TableView<R, C, M, V, F> {
    /// Decides where an event goes: brings the focus within the table and updates the
    /// group the table holds navigation in. The caller passes the event on as the route
    /// says.
    pub fn route_event<S, T>(&self, event: &Event, state: &mut TableState<S, R, C>, focus: &mut Focus<T>) -> (r: TableRoute)
        requires
            self.width * self.height <= usize::MAX,
        ensures
            (r, final(state).captive) == table_route(self.width, self.height, old(state).captive, *event),
            final(state).cell_states == old(state).cell_states,
            final(state).col_widths == old(state).col_widths,
            final(state).row_heights == old(state).row_heights,
            final(focus).x == (if old(focus).x == usize::MAX { if self.width > 0 { self.width - 1 } else { 0 } } else { old(focus).x as int }),
            final(focus).y == (if old(focus).y == usize::MAX { if self.height > 0 { self.height - 1 } else { 0 } } else { old(focus).y as int }),
            final(focus).tree == old(focus).tree,
    {
        focus.normalize_sentinels(self.width, self.height);
        let captive = state.captive;
        let mut local = captive;
        let mut mov = Move::from_event(event);
        let mut ev = *event;
        let is_blur = matches!(event, Event::Focus { action: FocusAction::Blur, .. });
        if is_blur && state.captive.is_some() {
            state.captive = None;
        }
        if state.captive.is_none() {
            match mov {
                Some(m) => {
                    let group = FocusGroup(0);
                    state.captive = Some(group);
                    local = Some(group);
                    ev = m.focus_event(group);
                },
                None => {
                    if let Event::Focus { action: FocusAction::Select, group } = *event {
                        state.captive = Some(group);
                        local = Some(group);
                        ev = Event::Focus { action: FocusAction::Focus(FocusDirection::Forward), group };
                        mov = Some(Move::Right);
                    }
                },
            }
        }
        let product = self.width * self.height;
        let steps = if product > 0 { product - 1 } else { 0 };
        match (mov, local) {
            (Some(m), Some(group)) => TableRoute::Navigate { event: ev, mov: m, group, steps },
            (_, Some(_)) => TableRoute::Focused(ev),
            (Some(_), None) => TableRoute::Deferred,
            (None, None) => TableRoute::Broadcast(ev),
        }
    }
}

/// An arrow key with no navigation held starts navigation in the navigation group and
/// routes through the cells, entering from the key's direction.
pub proof fn lemma_arrow_starts_navigation(width: usize, height: usize, key: Key)
    requires
        move_of_key(key) is Some,
    ensures
        ({
            let (route, captive) = table_route(width, height, None, Event::KeyDown(key));
            &&& captive == Some(navigation_group())
            &&& route matches TableRoute::Navigate { mov, group, .. } && mov == move_of_key(key)->0 && group == navigation_group()
        }),
{
}

/// The states of a table's cells, column by column.
pub open spec fn cells_of<S, const R: usize, const C: usize>(a: [[S; R]; C]) -> Seq<Seq<S>> {
    Seq::new(C as nat, |i: int| a@[i]@)
}

/// The states of the cells with the state of cell (`x`, `y`) replaced by `s`.
pub open spec fn with_cell<S>(cells: Seq<Seq<S>>, x: int, y: int, s: S) -> Seq<Seq<S>> {
    cells.update(x, cells[x].update(y, s))
}

/// A focus position brought within `n` places: `usize::MAX` stands for the last.
pub open spec fn within(p: usize, n: usize) -> int {
    if p == usize::MAX {
        if n > 0 { n - 1 } else { 0 }
    } else {
        p as int
    }
}

impl<const R: usize, const C: usize, M: TableIndex, V: EventView, F: Fn(M::Output) -> V> TableView<R, C, M, V, F> {
    /// Hands `event` to the cell in column `x` and row `y` with the given focus: its
    /// answer, the cells' states afterwards, and the focus afterwards.
    pub open spec fn ask(&self, x: int, y: int, event: Event, cells: Seq<Seq<V::State>>, focus: V::FocusTree) -> (FocusResult, Seq<Seq<V::State>>, V::FocusTree) {
        let a = self.cell(x, y).spec_handle_event(event, cells[x][y], focus);
        (a.0, with_cell(cells, x, y, a.1), a.2)
    }

    /// Navigation from the cell at (`x`, `y`), which deferred: up to `steps` times, the
    /// focused cell is blurred in `group`, focus moves by `mov`, and the newly focused
    /// cell is asked to take focus from the move's direction, until one does not defer.
    /// The answer, the cells' states, and the focused cell and its focus at the end.
    pub open spec fn navigate(
        &self,
        mov: Move,
        group: FocusGroup,
        x: int,
        y: int,
        cells: Seq<Seq<V::State>>,
        focus: V::FocusTree,
        steps: nat,
    ) -> (FocusResult, Seq<Seq<V::State>>, int, int, V::FocusTree)
        decreases steps,
    {
        if steps == 0 {
            (FocusResult::Deferred, cells, x, y, focus)
        } else {
            let blurred = self.ask(x, y, Event::Focus { action: FocusAction::Blur, group }, cells, focus);
            let next = next_cell(x, y, mov, self.width as int, self.height as int);
            let asked = self.ask(next.0, next.1, event_for_move(mov, group), blurred.1, blurred.2);
            if asked.0 is Deferred {
                self.navigate(mov, group, next.0, next.1, asked.1, asked.2, (steps - 1) as nat)
            } else {
                (asked.0, asked.1, next.0, next.1, asked.2)
            }
        }
    }

    /// Offering `event` to the cells from column `c` of row `r` on, row after row, until
    /// one handles it: the focused cell at (`fx`, `fy`) is asked with the table's focus,
    /// every other cell with focus on its first element, which is then dropped.
    pub open spec fn broadcast(
        &self,
        event: Event,
        fx: int,
        fy: int,
        cells: Seq<Seq<V::State>>,
        focus: V::FocusTree,
        c: int,
        r: int,
    ) -> (FocusResult, Seq<Seq<V::State>>, V::FocusTree)
        decreases self.height - r, self.width - c,
    {
        if r >= self.height || r < 0 || c < 0 {
            (FocusResult::Deferred, cells, focus)
        } else if c >= self.width {
            self.broadcast(event, fx, fy, cells, focus, 0, r + 1)
        } else {
            let focused = c == fx && r == fy;
            let a = self.ask(c, r, event, cells, if focused { focus } else { V::spec_first_focus() });
            let kept = if focused { a.2 } else { focus };
            if a.0 is Deferred {
                self.broadcast(event, fx, fy, a.1, kept, c + 1, r)
            } else {
                (a.0, a.1, kept)
            }
        }
    }

    /// What a table answers to an event, the group it holds navigation in afterwards,
    /// the cells' states and the focus afterwards. The event is routed as
    /// [`table_route`] says: navigation asks the focused cell and then walks focus
    /// through the cells while they defer; a focused event goes to the focused cell; a
    /// broadcast goes to every cell in turn.
    pub open spec fn table_walk(
        &self,
        event: Event,
        captive: Option<FocusGroup>,
        cells: Seq<Seq<V::State>>,
        focus: Focus<V::FocusTree>,
    ) -> (FocusResult, Option<FocusGroup>, Seq<Seq<V::State>>, Focus<V::FocusTree>) {
        let fx = within(focus.x, self.width);
        let fy = within(focus.y, self.height);
        let (route, held) = table_route(self.width, self.height, captive, event);
        match route {
            TableRoute::Navigate { event: ev, mov, group, steps } => {
                let first = self.ask(fx, fy, ev, cells, focus.tree);
                if first.0 is Deferred {
                    let n = self.navigate(mov, group, fx, fy, first.1, first.2, steps as nat);
                    (n.0, held, n.1, Focus { x: n.2 as usize, y: n.3 as usize, tree: n.4 })
                } else {
                    (first.0, held, first.1, Focus { x: fx as usize, y: fy as usize, tree: first.2 })
                }
            },
            TableRoute::Focused(ev) => {
                let a = self.ask(fx, fy, ev, cells, focus.tree);
                (a.0, held, a.1, Focus { x: fx as usize, y: fy as usize, tree: a.2 })
            },
            TableRoute::Deferred => (FocusResult::Deferred, held, cells, Focus { x: fx as usize, y: fy as usize, tree: focus.tree }),
            TableRoute::Broadcast(ev) => {
                let b = self.broadcast(ev, fx, fy, cells, focus.tree, 0, 0);
                (b.0, held, b.1, Focus { x: fx as usize, y: fy as usize, tree: b.2 })
            },
        }
    }

    /// Hands `event` to the cell in column `x` and row `y`.
    fn ask_cell(&self, x: usize, y: usize, event: &Event, cells: &mut [[V::State; R]; C], focus: &mut V::FocusTree) -> (r: FocusResult)
        requires
            self.builds(),
            x < self.width <= C,
            y < self.height <= R,
        ensures
            (r, cells_of(*final(cells)), *final(focus)) == self.ask(x as int, y as int, *event, cells_of(*old(cells)), *old(focus)),
    {
        let view = self.build_cell(x, y);
        let ghost before = *cells;
        let r = view.handle_event(event, &mut cells[x][y], focus);
        proof {
            let a = self.cell(x as int, y as int).spec_handle_event(*event, cells_of(before)[x as int][y as int], *old(focus));
            let expected = with_cell(cells_of(before), x as int, y as int, a.1);
            assert forall|i: int| 0 <= i < C implies #[trigger] cells_of(*cells)[i] =~= expected[i] by {
                if i == x as int {
                    assert(cells_of(*cells)[i] =~= cells_of(before)[i].update(y as int, a.1));
                }
            }
            assert(cells_of(*cells) =~= expected);
        }
        r
    }

    /// Walks focus through the cells from the focused one; see [`Self::navigate`].
    fn navigate_cells(
        &self,
        mov: Move,
        group: FocusGroup,
        steps: usize,
        cells: &mut [[V::State; R]; C],
        focus: &mut Focus<V::FocusTree>,
    ) -> (r: FocusResult)
        requires
            self.builds(),
            old(focus).x < self.width <= C,
            old(focus).y < self.height <= R,
        ensures
            ({
                let n = self.navigate(mov, group, old(focus).x as int, old(focus).y as int, cells_of(*old(cells)), old(focus).tree, steps as nat);
                &&& r == n.0
                &&& cells_of(*final(cells)) == n.1
                &&& final(focus).x == n.2
                &&& final(focus).y == n.3
                &&& final(focus).tree == n.4
            }),
    {
        let ghost target = self.navigate(mov, group, focus.x as int, focus.y as int, cells_of(*cells), focus.tree, steps as nat);
        let mut left = steps;
        while left > 0
            invariant
                self.builds(),
                focus.x < self.width <= C,
                focus.y < self.height <= R,
                self.navigate(mov, group, focus.x as int, focus.y as int, cells_of(*cells), focus.tree, left as nat) == target,
                target == self.navigate(mov, group, old(focus).x as int, old(focus).y as int, cells_of(*old(cells)), old(focus).tree, steps as nat),
            decreases left,
        {
            let ghost before = (focus.x as int, focus.y as int, cells_of(*cells), focus.tree, left as nat);
            let blur = Event::Focus { action: FocusAction::Blur, group };
            let _ = self.ask_cell(focus.x, focus.y, &blur, cells, &mut focus.tree);
            let (nx, ny) = step_focus(focus.x, focus.y, mov, self.width, self.height);
            focus.x = nx;
            focus.y = ny;
            let enter = mov.focus_event(group);
            let r = self.ask_cell(nx, ny, &enter, cells, &mut focus.tree);
            left = left - 1;
            proof {
                assert(self.navigate(mov, group, before.0, before.1, before.2, before.3, before.4)
                    == (if r is Deferred {
                        self.navigate(mov, group, nx as int, ny as int, cells_of(*cells), focus.tree, left as nat)
                    } else {
                        (r, cells_of(*cells), nx as int, ny as int, focus.tree)
                    }));
            }
            if r.is_handled() {
                return r;
            }
        }
        FocusResult::Deferred
    }

    /// Offers an event to every cell in turn; see [`Self::broadcast`].
    fn broadcast_cells(&self, event: &Event, fx: usize, fy: usize, cells: &mut [[V::State; R]; C], focus: &mut V::FocusTree) -> (r: FocusResult)
        requires
            self.builds(),
            self.width <= C,
            self.height <= R,
        ensures
            (r, cells_of(*final(cells)), *final(focus)) == self.broadcast(*event, fx as int, fy as int, cells_of(*old(cells)), *old(focus), 0, 0),
    {
        let ghost target = self.broadcast(*event, fx as int, fy as int, cells_of(*cells), *focus, 0, 0);
        let mut row: usize = 0;
        while row < self.height
            invariant
                self.builds(),
                self.width <= C,
                self.height <= R,
                row <= self.height,
                self.broadcast(*event, fx as int, fy as int, cells_of(*cells), *focus, 0, row as int) == target,
                target == self.broadcast(*event, fx as int, fy as int, cells_of(*old(cells)), *old(focus), 0, 0),
            decreases self.height - row,
        {
            let mut col: usize = 0;
            while col < self.width
                invariant
                    self.builds(),
                    self.width <= C,
                    self.height <= R,
                    row < self.height,
                    col <= self.width,
                    self.broadcast(*event, fx as int, fy as int, cells_of(*cells), *focus, col as int, row as int) == target,
                    target == self.broadcast(*event, fx as int, fy as int, cells_of(*old(cells)), *old(focus), 0, 0),
                decreases self.width - col,
            {
                let ghost before = (cells_of(*cells), *focus);
                let r = if col == fx && row == fy {
                    self.ask_cell(col, row, event, cells, focus)
                } else {
                    let mut first = V::first_focus();
                    self.ask_cell(col, row, event, cells, &mut first)
                };
                proof {
                    assert(self.broadcast(*event, fx as int, fy as int, before.0, before.1, col as int, row as int)
                        == (if r is Deferred {
                            self.broadcast(*event, fx as int, fy as int, cells_of(*cells), *focus, col + 1, row as int)
                        } else {
                            (r, cells_of(*cells), *focus)
                        }));
                }
                if r.is_handled() {
                    return r;
                }
                col = col + 1;
            }
            row = row + 1;
        }
        FocusResult::Deferred
    }

    /// Answers an event: routes it as [`table_route`] says and walks it through the
    /// cells as [`Self::table_walk`] says.
    pub fn handle_event(&self, event: &Event, state: &mut TableState<V::State, R, C>, focus: &mut Focus<V::FocusTree>) -> (r: FocusResult)
        requires
            self.builds(),
            self.width <= C,
            self.height <= R,
            self.width * self.height <= usize::MAX,
            ({
                let route = table_route(self.width, self.height, old(state).captive, *event).0;
                route is Navigate || route is Focused ==> {
                    &&& within(old(focus).x, self.width) < self.width
                    &&& within(old(focus).y, self.height) < self.height
                }
            }),
        ensures
            ({
                let w = self.table_walk(*event, old(state).captive, cells_of(old(state).cell_states), *old(focus));
                &&& r == w.0
                &&& final(state).captive == w.1
                &&& cells_of(final(state).cell_states) == w.2
                &&& *final(focus) == w.3
            }),
            final(state).col_widths == old(state).col_widths,
            final(state).row_heights == old(state).row_heights,
    {
        let route = self.route_event(event, state, focus);
        match route {
            TableRoute::Navigate { event: ev, mov, group, steps } => {
                let (x, y) = (focus.x, focus.y);
                let first = self.ask_cell(x, y, &ev, &mut state.cell_states, &mut focus.tree);
                if first.is_handled() {
                    return first;
                }
                self.navigate_cells(mov, group, steps, &mut state.cell_states, focus)
            },
            TableRoute::Focused(ev) => {
                let (x, y) = (focus.x, focus.y);
                self.ask_cell(x, y, &ev, &mut state.cell_states, &mut focus.tree)
            },
            TableRoute::Deferred => FocusResult::Deferred,
            TableRoute::Broadcast(ev) => {
                let (x, y) = (focus.x, focus.y);
                self.broadcast_cells(&ev, x, y, &mut state.cell_states, &mut focus.tree)
            },
        }
    }
}

/// Each arrow key moves focus one cell its own way: from a cell away from the table's
/// edges, up goes to the cell above, down to the cell below, left to the cell before
/// and right to the cell after; other keys do not move focus. A move up or left enters
/// the next cell from behind, a move down or right from the front.
pub proof fn lemma_arrow_keys_move_their_way(key: Key, x: int, y: int, width: int, height: int, group: FocusGroup)
    requires
        0 < x < width - 1,
        0 < y < height - 1,
    ensures
        key == Key::UpArrow ==> (move_of_key(key) matches Some(m) && next_cell(x, y, m, width, height) == (x, y - 1)
            && event_for_move(m, group) == (Event::Focus { action: FocusAction::Focus(FocusDirection::Backward), group })),
        key == Key::DownArrow ==> (move_of_key(key) matches Some(m) && next_cell(x, y, m, width, height) == (x, y + 1)
            && event_for_move(m, group) == (Event::Focus { action: FocusAction::Focus(FocusDirection::Forward), group })),
        key == Key::LeftArrow ==> (move_of_key(key) matches Some(m) && next_cell(x, y, m, width, height) == (x - 1, y)
            && event_for_move(m, group) == (Event::Focus { action: FocusAction::Focus(FocusDirection::Backward), group })),
        key == Key::RightArrow ==> (move_of_key(key) matches Some(m) && next_cell(x, y, m, width, height) == (x + 1, y)
            && event_for_move(m, group) == (Event::Focus { action: FocusAction::Focus(FocusDirection::Forward), group })),
        (key == Key::Enter || key == Key::Escape) ==> move_of_key(key) is None,
{
}

} // verus!
