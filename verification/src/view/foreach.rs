//! A vertical stack of views built from a slice of items.

use vstd::prelude::*;
use crate::layout::{
    align_offset_h, dimension_to_i32, length_i32, DefaultEnvironment, HorizontalAlignment, LayoutDirection,
    ResolvedLayout,
};
use crate::primitives::{point_add_fits, Dimensions, Point, ProposedDimensions};
use crate::view::stack::{layout_n, stack_admits, stack_offers, stack_size, with_main, StackChildren, StackParams};
use crate::view::ViewLayout;
use crate::event::{answer_views_in_turn, views_in_turn, EventResult};

verus! {

/// A list of values, built once and read in order.
#[derive(Debug)]
pub enum List<T> {
    Nil,
    Cons(T, Box<List<T>>),
}

/// The list holding the values of a sequence in order.
pub open spec fn list_of<T>(s: Seq<T>) -> List<T>
    decreases s.len(),
{
    if s.len() == 0 {
        List::Nil
    } else {
        List::Cons(s[0], Box::new(list_of(s.drop_first())))
    }
}

impl<T> List<T> {
    /// The values of the list in order.
    pub open spec fn values(self) -> Seq<T>
        decreases self,
    {
        match self {
            List::Nil => Seq::empty(),
            List::Cons(x, rest) => seq![x] + (*rest).values(),
        }
    }

    /// The number of values in the list.
    pub fn len(&self) -> (r: usize)
        requires
            self.values().len() <= usize::MAX,
        ensures
            r == self.values().len(),
        decreases self,
    {
        match self {
            List::Nil => 0,
            List::Cons(_, rest) => rest.len() + 1,
        }
    }

    /// The value at position `i`.
    pub fn get(&self, i: usize) -> (r: &T)
        requires
            i < self.values().len(),
        ensures
            *r == self.values()[i as int],
        decreases self,
    {
        match self {
            List::Nil => {
                assert(false);
                self.get(i)
            },
            List::Cons(x, rest) => if i == 0 { x } else { rest.get(i - 1) },
        }
    }
}

/// A list built from a sequence holds its values.
pub proof fn lemma_list_of_values<T>(s: Seq<T>)
    ensures
        list_of(s).values() == s,
    decreases s.len(),
{
    if s.len() > 0 {
        lemma_list_of_values(s.drop_first());
        assert(seq![s[0]] + s.drop_first() =~= s);
    }
}

/// The list holding the values of a vector in order.
pub fn list_from_vec<T>(v: Vec<T>) -> (r: List<T>)
    ensures
        r == list_of(v@),
{
    let ghost s = v@;
    let n = v.len();
    let mut v = v;
    let mut list: List<T> = List::Nil;
    proof {
        assert(s.subrange(n as int, n as int) =~= Seq::<T>::empty());
    }
    while v.len() > 0
        invariant
            v.len() <= n,
            n == s.len(),
            v@ == s.subrange(0, v.len() as int),
            list == list_of(s.subrange(v.len() as int, n as int)),
        decreases v.len(),
    {
        let k = v.len();
        let x = v.pop().unwrap();
        proof {
            let t = s.subrange(k - 1, n as int);
            assert(t[0] == x);
            assert(t.drop_first() =~= s.subrange(k as int, n as int));
            assert(v@ =~= s.subrange(0, k - 1));
        }
        list = List::Cons(x, Box::new(list));
    }
    proof {
        assert(s.subrange(0, n as int) =~= s);
    }
    list
}

/// The constructor of [`ForEachView`]s showing up to `N` items.
#[derive(Debug)]
pub struct ForEach<const N: usize> {}

/// A vertical stack of the views built from up to `N` items, aligned and spaced like a
/// vertical stack.
#[derive(Debug)]
#[verifier::reject_recursive_types(V)]
#[verifier::reject_recursive_types(I)]
pub struct ForEachView<'a, const N: usize, I, V, F: Fn(&'a I) -> V> {
    pub items: &'a [I],
    pub build_view: F,
    pub alignment: HorizontalAlignment,
    pub spacing: u32,
}

impl<const N: usize> ForEach<N> {
    /// The views `build_view` makes of `items`, centered, without spacing.
    pub fn new<'a, I, V, F: Fn(&'a I) -> V>(items: &'a [I], build_view: F) -> (r: ForEachView<'a, N, I, V, F>)
        ensures
            r == (ForEachView::<'a, N, I, V, F> { items, build_view, alignment: HorizontalAlignment::Center, spacing: 0 }),
    {
        ForEachView { items, build_view, alignment: HorizontalAlignment::default(), spacing: 0 }
    }
}

impl<'a, const N: usize, I, V, F: Fn(&'a I) -> V> ForEachView<'a, N, I, V, F> {
    /// The same view with children aligned by `alignment`.
    pub fn with_alignment(self, alignment: HorizontalAlignment) -> (r: Self)
        ensures
            r == (ForEachView { alignment, ..self }),
    {
        ForEachView { alignment, ..self }
    }

    /// The same view with `spacing` between non-empty children.
    pub fn with_spacing(self, spacing: u32) -> (r: Self)
        ensures
            r == (ForEachView { spacing, ..self }),
    {
        ForEachView { spacing, ..self }
    }
}

/// The environment the children of a vertical collection are laid out in.
pub open spec fn vertical_env(env: DefaultEnvironment) -> DefaultEnvironment {
    DefaultEnvironment { layout_direction: LayoutDirection::Vertical, ..env }
}

impl<'a, const N: usize, I, V: ViewLayout, F: Fn(&'a I) -> V> ForEachView<'a, N, I, V, F> {
    /// The number of items shown.
    pub open spec fn shown(&self) -> nat {
        if self.items@.len() < N { self.items@.len() } else { N as nat }
    }

    /// The view built for item `i`.
    pub open spec fn view_at(&self, i: int) -> V {
        choose|v: V| call_ensures(self.build_view, (&self.items@[i],), v)
    }

    /// The builder can be called on every shown item and builds one view for each.
    pub open spec fn builds(&self) -> bool {
        forall|i: int| 0 <= i < self.shown() ==> {
            &&& call_requires(self.build_view, (&self.items@[i],))
            &&& forall|a: V, b: V|
                call_ensures(self.build_view, (&self.items@[i],), a) && call_ensures(self.build_view, (&self.items@[i],), b) ==> a == b
        }
    }

    /// How the collection lays out its children.
    pub open spec fn params(&self) -> StackParams {
        StackParams { direction: LayoutDirection::Vertical, spacing: self.spacing, slots: self.shown() as usize, clamp_cross: false }
    }

    /// Hands an event to the children in order, each only while none before it handled
    /// it: given the answers of the children asked so far, the collection's answer, or
    /// nothing while the next child must be asked.
    pub fn handle_event(&self, answers: &Vec<EventResult>) -> (r: Option<EventResult>)
        ensures
            r == views_in_turn(answers@, self.shown() as int),
    {
        let shown: usize = if self.items.len() < N { self.items.len() } else { N };
        answer_views_in_turn(answers, shown)
    }

    /// The view for item `i`.
    fn build(&self, i: usize) -> (r: V)
        requires
            i < self.shown(),
            self.builds(),
        ensures
            r == self.view_at(i as int),
    {
        let v = (self.build_view)(&self.items[i]);
        proof {
            assert(call_ensures(self.build_view, (&self.items@[i as int],), v));
        }
        v
    }

    /// The y offset of child `k` from the top of the collection, for the given layouts.
    pub open spec fn row_y(&self, layouts: Seq<ResolvedLayout<V::Sublayout>>, k: int) -> int
        decreases k,
    {
        if k <= 0 {
            0
        } else {
            let p = self.row_y(layouts, k - 1);
            if self.view_at(k - 1).spec_is_empty() {
                p
            } else {
                p + length_i32(layouts[k - 1].resolved_size.height) + (self.spacing as i32)
            }
        }
    }

    /// The offset of child `k` within a collection of the given size.
    pub open spec fn child_offset(&self, layouts: Seq<ResolvedLayout<V::Sublayout>>, size: Dimensions, k: int) -> Point {
        Point {
            x: align_offset_h(self.alignment, length_i32(size.width) as int, length_i32(layouts[k].resolved_size.width) as int) as i32,
            y: self.row_y(layouts, k) as i32,
        }
    }

    /// The number of children rendered for a layout.
    pub open spec fn rendered(&self, layouts: Seq<ResolvedLayout<V::Sublayout>>) -> int {
        if layouts.len() < self.shown() { layouts.len() as int } else { self.shown() as int }
    }
}

impl<'a, const N: usize, I, V: ViewLayout, F: Fn(&'a I) -> V> StackChildren for ForEachView<'a, N, I, V, F> {
    open spec fn child_count(&self) -> nat { self.shown() }
    open spec fn children_ready(&self) -> bool { self.builds() }
    open spec fn child_priority(&self, i: int) -> i8 { self.view_at(i).spec_priority() }
    open spec fn child_is_empty(&self, i: int) -> bool { self.view_at(i).spec_is_empty() }

    open spec fn child_admits(&self, i: int, offer: ProposedDimensions, env: DefaultEnvironment) -> bool {
        self.view_at(i).admits(offer, env)
    }

    open spec fn child_size(&self, i: int, offer: ProposedDimensions, env: DefaultEnvironment) -> Dimensions {
        self.view_at(i).spec_layout(offer, env).resolved_size
    }

    fn count(&self) -> (r: usize) {
        if self.items.len() < N { self.items.len() } else { N }
    }

    fn priority_at(&self, i: usize) -> (r: i8) {
        self.build(i).priority()
    }

    fn is_empty_at(&self, i: usize) -> (r: bool) {
        self.build(i).is_empty()
    }

    fn size_at(&self, i: usize, offer: &ProposedDimensions, env: &DefaultEnvironment) -> (r: Dimensions) {
        self.build(i).layout(offer, env).resolved_size
    }
}

impl<'a, const N: usize, I, V: ViewLayout, F: Fn(&'a I) -> V> ViewLayout for ForEachView<'a, N, I, V, F> {
    type Sublayout = List<ResolvedLayout<V::Sublayout>>;
    type Renderables = List<V::Renderables>;

    open spec fn spec_priority(&self) -> i8 { 0 }
    open spec fn spec_is_empty(&self) -> bool { false }

    open spec fn admits(&self, offer: ProposedDimensions, env: DefaultEnvironment) -> bool {
        stack_admits(self, offer, vertical_env(env), LayoutDirection::Vertical)
    }

    open spec fn spec_layout(&self, offer: ProposedDimensions, env: DefaultEnvironment) -> ResolvedLayout<List<ResolvedLayout<V::Sublayout>>> {
        let venv = vertical_env(env);
        let offers = stack_offers(self, offer, venv, self.params());
        ResolvedLayout {
            sublayouts: list_of(Seq::new(self.shown(), |i: int| self.view_at(i).spec_layout(offers[i], venv))),
            resolved_size: stack_size(self, offer, venv, self.params()),
        }
    }

    open spec fn render_admits(&self, layout: ResolvedLayout<List<ResolvedLayout<V::Sublayout>>>, origin: Point, env: DefaultEnvironment) -> bool {
        let layouts = layout.sublayouts.values();
        let k = self.rendered(layouts);
        &&& self.builds()
        &&& layouts.len() <= usize::MAX
        &&& forall|j: int| 0 <= j <= k ==> i32::MIN <= #[trigger] self.row_y(layouts, j) <= i32::MAX
        &&& forall|j: int| 0 <= j < k ==> {
            &&& self.row_y(layouts, j) + length_i32(layouts[j].resolved_size.height) <= i32::MAX
            &&& point_add_fits(origin, #[trigger] self.child_offset(layouts, layout.resolved_size, j))
            &&& self.view_at(j).render_admits(layouts[j], origin.spec_add(self.child_offset(layouts, layout.resolved_size, j)), vertical_env(env))
        }
    }

    open spec fn spec_render_tree(&self, layout: ResolvedLayout<List<ResolvedLayout<V::Sublayout>>>, origin: Point, env: DefaultEnvironment) -> List<V::Renderables> {
        let layouts = layout.sublayouts.values();
        list_of(Seq::new(self.rendered(layouts) as nat, |j: int| self.view_at(j).spec_render_tree(
            layouts[j],
            origin.spec_add(self.child_offset(layouts, layout.resolved_size, j)),
            vertical_env(env),
        )))
    }

    fn priority(&self) -> (r: i8) { 0 }

    fn is_empty(&self) -> (r: bool) { false }

    fn layout(&self, offer: &ProposedDimensions, env: &DefaultEnvironment) -> (r: ResolvedLayout<List<ResolvedLayout<V::Sublayout>>>) {
        let venv = env.with_direction(LayoutDirection::Vertical);
        let n = self.count();
        let params = StackParams { direction: LayoutDirection::Vertical, spacing: self.spacing, slots: n, clamp_cross: false };
        let (size, offers) = layout_n(self, offer, &venv, params);
        let ghost expected = Seq::new(self.shown(), |i: int| self.view_at(i).spec_layout(offers@[i], venv));
        let mut subs: Vec<ResolvedLayout<V::Sublayout>> = Vec::new();
        let mut i: usize = 0;
        while i < n
            invariant
                n == self.shown(),
                i <= n,
                offers@.len() == n,
                venv == vertical_env(*env),
                stack_admits(self, *offer, venv, LayoutDirection::Vertical),
                offers@ == stack_offers(self, *offer, venv, params),
                params.direction == LayoutDirection::Vertical,
                expected == Seq::new(self.shown(), |i: int| self.view_at(i).spec_layout(offers@[i], venv)),
                subs@ == expected.take(i as int),
            decreases n - i,
        {
            assert(self.child_admits(i as int, with_main(*offer, LayoutDirection::Vertical, offers@[i as int].height), venv));
            assert(with_main(*offer, LayoutDirection::Vertical, offers@[i as int].height) == offers@[i as int]);
            let view = self.build(i);
            subs.push(view.layout(&offers[i], &venv));
            proof {
                assert(subs@ =~= expected.take(i + 1));
            }
            i = i + 1;
        }
        proof {
            assert(subs@ =~= expected);
        }
        ResolvedLayout { sublayouts: list_from_vec(subs), resolved_size: size }
    }

    fn render_tree(&self, layout: &ResolvedLayout<List<ResolvedLayout<V::Sublayout>>>, origin: Point, env: &DefaultEnvironment) -> (r: List<V::Renderables>) {
        let venv = env.with_direction(LayoutDirection::Vertical);
        let ghost layouts = layout.sublayouts.values();
        let len = layout.sublayouts.len();
        let shown = self.count();
        let k = if len < shown { len } else { shown };
        let ghost expected = Seq::new(k as nat, |j: int| self.view_at(j).spec_render_tree(
            layouts[j],
            origin.spec_add(self.child_offset(layouts, layout.resolved_size, j)),
            vertical_env(*env),
        ));
        let width = dimension_to_i32(layout.resolved_size.width);
        let spacing = #[verifier::truncate] (self.spacing as i32);
        let mut y: i32 = 0;
        let mut out: Vec<V::Renderables> = Vec::new();
        let mut j: usize = 0;
        while j < k
            invariant
                j <= k,
                k == self.rendered(layouts),
                layouts == layout.sublayouts.values(),
                venv == vertical_env(*env),
                self.render_admits(*layout, origin, *env),
                width == length_i32(layout.resolved_size.width),
                spacing == (self.spacing as i32),
                y == self.row_y(layouts, j as int),
                expected == Seq::new(k as nat, |j: int| self.view_at(j).spec_render_tree(
                    layouts[j],
                    origin.spec_add(self.child_offset(layouts, layout.resolved_size, j)),
                    vertical_env(*env),
                )),
                out@ == expected.take(j as int),
            decreases k - j,
        {
            let item_layout = layout.sublayouts.get(j);
            let x = self.alignment.align(width, dimension_to_i32(item_layout.resolved_size.width));
            assert(self.row_y(layouts, j as int) == y);
            assert(point_add_fits(origin, self.child_offset(layouts, layout.resolved_size, j as int)));
            let view = self.build(j);
            let child_origin = origin.add(Point::new(x, y));
            out.push(view.render_tree(item_layout, child_origin, &venv));
            proof {
                assert(out@ =~= expected.take(j + 1));
                assert(i32::MIN <= self.row_y(layouts, j + 1) <= i32::MAX);
            }
            if !view.is_empty() {
                let h = dimension_to_i32(item_layout.resolved_size.height);
                y = y + h + spacing;
            }
            j = j + 1;
        }
        proof {
            assert(out@ =~= expected);
        }
        list_from_vec(out)
    }
}

} // verus!
