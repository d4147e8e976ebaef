//! The layout shared by stacks and collections: children placed one after another
//! along a main axis, with the offered length shared out by layout priority and
//! flexibility.

use vstd::prelude::*;
use crate::layout::{DefaultEnvironment, LayoutDirection};
use crate::primitives::{
    Dimension, Dimensions, ProposedDimension, ProposedDimensions, max_u32, min_u32, sat_add, sat_sub,
};

verus! {

/// Children that a stack lays out by index.
pub trait StackChildren {
    /// The number of children.
    spec fn child_count(&self) -> nat;

    /// Whether the children can be built and asked for their priority and emptiness.
    spec fn children_ready(&self) -> bool;

    /// The layout priority of a child.
    spec fn child_priority(&self, i: int) -> i8;

    /// Whether a child takes no part in spacing.
    spec fn child_is_empty(&self, i: int) -> bool;

    /// Whether laying a child out for this proposal stays within machine arithmetic.
    spec fn child_admits(&self, i: int, offer: ProposedDimensions, env: DefaultEnvironment) -> bool;

    /// The size a child resolves to for a proposal.
    spec fn child_size(&self, i: int, offer: ProposedDimensions, env: DefaultEnvironment) -> Dimensions;

    /// The number of children.
    fn count(&self) -> (r: usize)
        ensures
            r == self.child_count(),
    ;

    /// The layout priority of child `i`.
    fn priority_at(&self, i: usize) -> (r: i8)
        requires
            i < self.child_count(),
            self.children_ready(),
        ensures
            r == self.child_priority(i as int),
    ;

    /// Whether child `i` takes no part in spacing.
    fn is_empty_at(&self, i: usize) -> (r: bool)
        requires
            i < self.child_count(),
            self.children_ready(),
        ensures
            r == self.child_is_empty(i as int),
    ;

    /// The size child `i` resolves to for a proposal.
    fn size_at(&self, i: usize, offer: &ProposedDimensions, env: &DefaultEnvironment) -> (r: Dimensions)
        requires
            i < self.child_count(),
            self.children_ready(),
            self.child_admits(i as int, *offer, *env),
        ensures
            r == self.child_size(i as int, *offer, *env),
    ;
}

/// How a stack arranges its children.
#[derive(Debug, Clone, Copy)]
pub struct StackParams {
    /// The main axis.
    pub direction: LayoutDirection,
    /// The space between neighbouring non-empty children.
    pub spacing: u32,
    /// The number of places the stack reserves spacing for.
    pub slots: usize,
    /// Whether the cross length is limited to an exact cross-axis proposal.
    pub clamp_cross: bool,
}

/// The length of a size along the main axis.
pub open spec fn main_of(d: Dimensions, dir: LayoutDirection) -> u32 {
    match dir {
        LayoutDirection::Horizontal => d.width.0,
        LayoutDirection::Vertical => d.height.0,
    }
}

/// The length of a size across the main axis.
pub open spec fn cross_of(d: Dimensions, dir: LayoutDirection) -> u32 {
    match dir {
        LayoutDirection::Horizontal => d.height.0,
        LayoutDirection::Vertical => d.width.0,
    }
}

/// The proposal along the main axis.
pub open spec fn main_proposal(o: ProposedDimensions, dir: LayoutDirection) -> ProposedDimension {
    match dir {
        LayoutDirection::Horizontal => o.width,
        LayoutDirection::Vertical => o.height,
    }
}

/// The proposal across the main axis.
pub open spec fn cross_proposal(o: ProposedDimensions, dir: LayoutDirection) -> ProposedDimension {
    match dir {
        LayoutDirection::Horizontal => o.height,
        LayoutDirection::Vertical => o.width,
    }
}

/// A proposal with its main-axis part replaced.
pub open spec fn with_main(o: ProposedDimensions, dir: LayoutDirection, p: ProposedDimension) -> ProposedDimensions {
    match dir {
        LayoutDirection::Horizontal => ProposedDimensions { width: p, height: o.height },
        LayoutDirection::Vertical => ProposedDimensions { width: o.width, height: p },
    }
}

/// The size with the given main and cross lengths.
pub open spec fn oriented(main: u32, cross: u32, dir: LayoutDirection) -> Dimensions {
    match dir {
        LayoutDirection::Horizontal => Dimensions { width: Dimension(main), height: Dimension(cross) },
        LayoutDirection::Vertical => Dimensions { width: Dimension(cross), height: Dimension(main) },
    }
}

/// The total spacing over a number of gaps, saturating; no gaps take no space.
pub open spec fn gaps_length(spacing: u32, gaps: int) -> u32 {
    if gaps <= 0 {
        0
    } else if spacing * gaps > u32::MAX {
        u32::MAX
    } else {
        (spacing * gaps) as u32
    }
}

/// Whether every child can be laid out for every main-axis proposal that keeps the
/// cross-axis part of `offer`.
pub open spec fn stack_admits<S: StackChildren>(
    s: &S,
    offer: ProposedDimensions,
    env: DefaultEnvironment,
    dir: LayoutDirection,
) -> bool {
    &&& s.children_ready()
    &&& forall|i: int, p: ProposedDimension|
        0 <= i < s.child_count() ==> #[trigger] s.child_admits(i, with_main(offer, dir, p), env)
}

/// For a proposal that is not exact along the main axis: the saturating sum of the
/// main lengths of the first `n` non-empty children, the largest of their cross
/// lengths, and how many there are.
pub open spec fn compact_totals<S: StackChildren>(
    s: &S,
    n: int,
    offer: ProposedDimensions,
    env: DefaultEnvironment,
    dir: LayoutDirection,
) -> (u32, u32, int)
    decreases n,
{
    if n <= 0 {
        (0, 0, 0)
    } else {
        let prev = compact_totals(s, n - 1, offer, env, dir);
        if s.child_is_empty(n - 1) {
            prev
        } else {
            let d = s.child_size(n - 1, offer, env);
            (sat_add(prev.0 as int, main_of(d, dir) as int), max_u32(prev.1, cross_of(d, dir)), prev.2 + 1)
        }
    }
}

/// How much a child's main length grows from a zero proposal to an infinite one.
pub open spec fn flexibility<S: StackChildren>(
    s: &S,
    i: int,
    offer: ProposedDimensions,
    env: DefaultEnvironment,
    dir: LayoutDirection,
) -> u32 {
    let most = s.child_size(i, with_main(offer, dir, ProposedDimension::Infinite), env);
    let least = s.child_size(i, with_main(offer, dir, ProposedDimension::Exact(0)), env);
    sat_sub(main_of(most, dir) as int, main_of(least, dir) as int)
}

/// The flexibility of each child; empty children count as rigid.
pub open spec fn flexibilities<S: StackChildren>(
    s: &S,
    offer: ProposedDimensions,
    env: DefaultEnvironment,
    dir: LayoutDirection,
) -> Seq<u32> {
    Seq::new(
        s.child_count(),
        |i: int| if s.child_is_empty(i) { 0 } else { flexibility(s, i, offer, env, dir) },
    )
}

/// The layout priority of each child.
pub open spec fn priorities<S: StackChildren>(s: &S) -> Seq<i8> {
    Seq::new(s.child_count(), |i: int| s.child_priority(i))
}

/// Which children are empty.
pub open spec fn empties<S: StackChildren>(s: &S) -> Seq<bool> {
    Seq::new(s.child_count(), |i: int| s.child_is_empty(i))
}

/// The number of empty children among the first `n`.
pub open spec fn empty_count(e: Seq<bool>, n: int) -> int
    decreases n,
{
    if n <= 0 {
        0
    } else {
        empty_count(e, n - 1) + if e[n - 1] { 1int } else { 0int }
    }
}

/// Whether child `a` is given its share before child `b`: higher priority first, and
/// within a priority the less flexible first.
pub open spec fn goes_before(prio: Seq<i8>, flex: Seq<u32>, a: usize, b: usize) -> bool {
    ||| prio[a as int] > prio[b as int]
    ||| (prio[a as int] == prio[b as int] && flex[a as int] < flex[b as int])
}

/// `x` inserted into `s` before the first child it goes before.
pub open spec fn insert_in_order(prio: Seq<i8>, flex: Seq<u32>, s: Seq<usize>, x: usize) -> Seq<usize>
    decreases s.len(),
{
    if s.len() == 0 {
        seq![x]
    } else if goes_before(prio, flex, x, s[0]) {
        seq![x] + s
    } else {
        seq![s[0]] + insert_in_order(prio, flex, s.drop_first(), x)
    }
}

/// The order in which the non-empty children among the first `n` get their share.
pub open spec fn allocation_order(prio: Seq<i8>, flex: Seq<u32>, empty: Seq<bool>, n: int) -> Seq<usize>
    decreases n,
{
    if n <= 0 {
        Seq::empty()
    } else {
        let prev = allocation_order(prio, flex, empty, n - 1);
        if empty[n - 1] {
            prev
        } else {
            insert_in_order(prio, flex, prev, (n - 1) as usize)
        }
    }
}

/// The number of children from position `from` of the order on with priority `p`.
pub open spec fn count_same(prio: Seq<i8>, order: Seq<usize>, p: i8, from: int) -> int
    decreases order.len() - from,
{
    if from >= order.len() || from < 0 {
        0
    } else {
        (if prio[order[from] as int] == p { 1int } else { 0int }) + count_same(prio, order, p, from + 1)
    }
}

/// The share of the remaining length offered to the next of `g` children.
pub open spec fn share(remaining: u32, g: int) -> u32 {
    (remaining as int / g + remaining as int % g) as u32
}

/// The remaining length, the largest cross length so far and the length offered to
/// each child, after the first `k` children of `order` have had their share.
pub open spec fn allocate<S: StackChildren>(
    s: &S,
    offer: ProposedDimensions,
    env: DefaultEnvironment,
    dir: LayoutDirection,
    order: Seq<usize>,
    prio: Seq<i8>,
    start: u32,
    k: int,
) -> (u32, u32, Seq<u32>)
    decreases k,
{
    if k <= 0 {
        (start, 0, Seq::new(s.child_count(), |i: int| 0u32))
    } else {
        let st = allocate(s, offer, env, dir, order, prio, start, k - 1);
        let i = order[k - 1];
        let frac = share(st.0, count_same(prio, order, prio[i as int], k - 1));
        let d = s.child_size(i as int, with_main(offer, dir, ProposedDimension::Exact(frac)), env);
        (sat_sub(st.0 as int, main_of(d, dir) as int), max_u32(st.1, cross_of(d, dir)), st.2.update(i as int, frac))
    }
}

/// The order of the children when the main-axis proposal is exact.
pub open spec fn exact_order<S: StackChildren>(
    s: &S,
    offer: ProposedDimensions,
    env: DefaultEnvironment,
    dir: LayoutDirection,
) -> Seq<usize> {
    allocation_order(priorities(s), flexibilities(s, offer, env, dir), empties(s), s.child_count() as int)
}

/// The length left to share out of an exact main length once spacing is set aside.
pub open spec fn start_length<S: StackChildren>(s: &S, length: u32, p: StackParams) -> u32 {
    let gaps = p.slots - (empty_count(empties(s), s.child_count() as int) + 1);
    sat_sub(length as int, gaps_length(p.spacing, gaps) as int)
}

/// The state after every non-empty child has had its share of an exact main length.
pub open spec fn exact_allocation<S: StackChildren>(
    s: &S,
    offer: ProposedDimensions,
    env: DefaultEnvironment,
    p: StackParams,
    length: u32,
) -> (u32, u32, Seq<u32>) {
    let order = exact_order(s, offer, env, p.direction);
    allocate(s, offer, env, p.direction, order, priorities(s), start_length(s, length, p), order.len() as int)
}

/// The size of a stack of children for a proposal.
pub open spec fn stack_size<S: StackChildren>(
    s: &S,
    offer: ProposedDimensions,
    env: DefaultEnvironment,
    p: StackParams,
) -> Dimensions {
    let dir = p.direction;
    match main_proposal(offer, dir) {
        ProposedDimension::Exact(length) => {
            let st = exact_allocation(s, offer, env, p, length);
            let cross = match cross_proposal(offer, dir) {
                ProposedDimension::Exact(c) => if p.clamp_cross { min_u32(st.1, c) } else { st.1 },
                _ => st.1,
            };
            oriented(sat_sub(length as int, st.0 as int), cross, dir)
        },
        _ => {
            let t = compact_totals(s, s.child_count() as int, offer, env, dir);
            oriented(sat_add(t.0 as int, gaps_length(p.spacing, t.2 - 1) as int), t.1, dir)
        },
    }
}

/// The proposal each child of a stack is last laid out for, which gives its final layout.
pub open spec fn stack_offers<S: StackChildren>(
    s: &S,
    offer: ProposedDimensions,
    env: DefaultEnvironment,
    p: StackParams,
) -> Seq<ProposedDimensions> {
    let dir = p.direction;
    match main_proposal(offer, dir) {
        ProposedDimension::Exact(length) => {
            let st = exact_allocation(s, offer, env, p, length);
            Seq::new(s.child_count(), |i: int| with_main(offer, dir, ProposedDimension::Exact(st.2[i])))
        },
        _ => Seq::new(s.child_count(), |i: int| offer),
    }
}

/// A stack offered an exact length along its main axis never reports a longer one, and
/// one that limits its cross length never reports a cross length beyond an exact
/// cross-axis offer, whatever sizes its children report.
pub proof fn lemma_stack_within_exact_offer<S: StackChildren>(
    s: &S,
    offer: ProposedDimensions,
    env: DefaultEnvironment,
    p: StackParams,
)
    ensures
        main_proposal(offer, p.direction) matches ProposedDimension::Exact(length)
            ==> main_of(stack_size(s, offer, env, p), p.direction) <= length,
        main_proposal(offer, p.direction) is Exact && p.clamp_cross
            ==> (cross_proposal(offer, p.direction) matches ProposedDimension::Exact(c)
                ==> cross_of(stack_size(s, offer, env, p), p.direction) <= c),
{
}

/// Whether the children in `order` come in order of non-increasing priority.
pub open spec fn by_priority(prio: Seq<i8>, order: Seq<usize>) -> bool {
    forall|p: int, q: int| 0 <= p < q < order.len() ==> #[trigger] prio[order[p] as int] >= #[trigger] prio[order[q] as int]
}

/// Inserting a child of bounded priority into children of bounded priority keeps the bound.
proof fn lemma_insert_bounded(prio: Seq<i8>, flex: Seq<u32>, s: Seq<usize>, x: usize, bound: i8)
    requires
        forall|k: int| 0 <= k < s.len() ==> prio[#[trigger] s[k] as int] <= bound,
        prio[x as int] <= bound,
    ensures
        forall|k: int| 0 <= k < insert_in_order(prio, flex, s, x).len() ==> prio[#[trigger] insert_in_order(prio, flex, s, x)[k] as int] <= bound,
        insert_in_order(prio, flex, s, x).len() == s.len() + 1,
    decreases s.len(),
{
    if s.len() > 0 && !goes_before(prio, flex, x, s[0]) {
        let t = s.drop_first();
        assert forall|k: int| 0 <= k < t.len() implies prio[#[trigger] t[k] as int] <= bound by {
            assert(t[k] == s[k + 1]);
        }
        lemma_insert_bounded(prio, flex, t, x, bound);
        let r = insert_in_order(prio, flex, s, x);
        let rt = insert_in_order(prio, flex, t, x);
        assert forall|k: int| 0 <= k < r.len() implies prio[#[trigger] r[k] as int] <= bound by {
            if k > 0 {
                assert(r[k] == rt[k - 1]);
            }
        }
    }
}

/// Inserting a child into children ordered by priority keeps them ordered.
proof fn lemma_insert_sorted(prio: Seq<i8>, flex: Seq<u32>, s: Seq<usize>, x: usize)
    requires
        by_priority(prio, s),
    ensures
        by_priority(prio, insert_in_order(prio, flex, s, x)),
    decreases s.len(),
{
    let r = insert_in_order(prio, flex, s, x);
    if s.len() == 0 {
    } else if goes_before(prio, flex, x, s[0]) {
        assert forall|p: int, q: int| 0 <= p < q < r.len() implies #[trigger] prio[r[p] as int] >= #[trigger] prio[r[q] as int] by {
            if p == 0 {
                assert(r[q] == s[q - 1]);
                if q - 1 > 0 {
                    assert(prio[s[0] as int] >= prio[s[q - 1] as int]);
                }
            } else {
                assert(r[p] == s[p - 1]);
                assert(r[q] == s[q - 1]);
            }
        }
    } else {
        let t = s.drop_first();
        assert forall|p: int, q: int| 0 <= p < q < t.len() implies #[trigger] prio[t[p] as int] >= #[trigger] prio[t[q] as int] by {
            assert(t[p] == s[p + 1]);
            assert(t[q] == s[q + 1]);
        }
        lemma_insert_sorted(prio, flex, t, x);
        let b = prio[s[0] as int];
        assert forall|k: int| 0 <= k < t.len() implies prio[#[trigger] t[k] as int] <= b by {
            assert(t[k] == s[k + 1]);
        }
        lemma_insert_bounded(prio, flex, t, x, b);
        let rt = insert_in_order(prio, flex, t, x);
        assert forall|p: int, q: int| 0 <= p < q < r.len() implies #[trigger] prio[r[p] as int] >= #[trigger] prio[r[q] as int] by {
            assert(r[q] == rt[q - 1]);
            if p > 0 {
                assert(r[p] == rt[p - 1]);
            }
        }
    }
}

/// The allocation order puts children of higher priority first.
proof fn lemma_order_by_priority(prio: Seq<i8>, flex: Seq<u32>, empty: Seq<bool>, n: int)
    ensures
        by_priority(prio, allocation_order(prio, flex, empty, n)),
    decreases n,
{
    if n > 0 {
        lemma_order_by_priority(prio, flex, empty, n - 1);
        if !empty[n - 1] {
            lemma_insert_sorted(prio, flex, allocation_order(prio, flex, empty, n - 1), (n - 1) as usize);
        }
    }
}

/// A stack offered an exact length gives the children their shares in order of
/// priority: every child of higher priority has had its share before any child of
/// lower priority, so a child of the lowest priority is offered only what its siblings
/// leave.
pub proof fn lemma_higher_priority_first<S: StackChildren>(s: &S, offer: ProposedDimensions, env: DefaultEnvironment, dir: LayoutDirection)
    ensures
        by_priority(priorities(s), exact_order(s, offer, env, dir)),
{
    lemma_order_by_priority(priorities(s), flexibilities(s, offer, env, dir), empties(s), s.child_count() as int);
}

/// Whether child `a` is served no later than child `b` may be: it has a higher priority,
/// or the same priority and at most the same flexibility.
pub open spec fn served_no_later(prio: Seq<i8>, flex: Seq<u32>, a: usize, b: usize) -> bool {
    ||| prio[a as int] > prio[b as int]
    ||| (prio[a as int] == prio[b as int] && flex[a as int] <= flex[b as int])
}

/// Whether an order serves children by decreasing priority and, within a priority, by
/// increasing flexibility.
pub open spec fn served_in_order(prio: Seq<i8>, flex: Seq<u32>, order: Seq<usize>) -> bool {
    forall|p: int, q: int| 0 <= p < q < order.len() ==> served_no_later(prio, flex, #[trigger] order[p], #[trigger] order[q])
}

/// Inserting a child served no earlier than `b` among children served no earlier than
/// `b` keeps them so.
proof fn lemma_insert_after(prio: Seq<i8>, flex: Seq<u32>, s: Seq<usize>, x: usize, b: usize)
    requires
        forall|k: int| 0 <= k < s.len() ==> served_no_later(prio, flex, b, #[trigger] s[k]),
        served_no_later(prio, flex, b, x),
    ensures
        forall|k: int| 0 <= k < insert_in_order(prio, flex, s, x).len() ==> served_no_later(prio, flex, b, #[trigger] insert_in_order(prio, flex, s, x)[k]),
    decreases s.len(),
{
    if s.len() > 0 && !goes_before(prio, flex, x, s[0]) {
        let t = s.drop_first();
        assert forall|k: int| 0 <= k < t.len() implies served_no_later(prio, flex, b, #[trigger] t[k]) by {
            assert(t[k] == s[k + 1]);
        }
        lemma_insert_after(prio, flex, t, x, b);
        let r = insert_in_order(prio, flex, s, x);
        let rt = insert_in_order(prio, flex, t, x);
        assert forall|k: int| 0 <= k < r.len() implies served_no_later(prio, flex, b, #[trigger] r[k]) by {
            if k > 0 {
                assert(r[k] == rt[k - 1]);
            }
        }
    } else if s.len() > 0 {
        let r = insert_in_order(prio, flex, s, x);
        assert forall|k: int| 0 <= k < r.len() implies served_no_later(prio, flex, b, #[trigger] r[k]) by {
            if k > 0 {
                assert(r[k] == s[k - 1]);
            }
        }
    } else {
        let r = insert_in_order(prio, flex, s, x);
        assert forall|k: int| 0 <= k < r.len() implies served_no_later(prio, flex, b, #[trigger] r[k]) by {
            assert(r[k] == x);
        }
    }
}

/// Inserting a child into an order that serves by priority and flexibility keeps it so.
proof fn lemma_insert_served(prio: Seq<i8>, flex: Seq<u32>, s: Seq<usize>, x: usize)
    requires
        served_in_order(prio, flex, s),
    ensures
        served_in_order(prio, flex, insert_in_order(prio, flex, s, x)),
    decreases s.len(),
{
    let r = insert_in_order(prio, flex, s, x);
    if s.len() == 0 {
    } else if goes_before(prio, flex, x, s[0]) {
        assert forall|p: int, q: int| 0 <= p < q < r.len() implies served_no_later(prio, flex, #[trigger] r[p], #[trigger] r[q]) by {
            if p == 0 {
                assert(r[q] == s[q - 1]);
                if q - 1 > 0 {
                    assert(served_no_later(prio, flex, s[0], s[q - 1]));
                }
            } else {
                assert(r[p] == s[p - 1]);
                assert(r[q] == s[q - 1]);
            }
        }
    } else {
        let t = s.drop_first();
        assert forall|p: int, q: int| 0 <= p < q < t.len() implies served_no_later(prio, flex, #[trigger] t[p], #[trigger] t[q]) by {
            assert(t[p] == s[p + 1]);
            assert(t[q] == s[q + 1]);
        }
        lemma_insert_served(prio, flex, t, x);
        assert forall|k: int| 0 <= k < t.len() implies served_no_later(prio, flex, s[0], #[trigger] t[k]) by {
            assert(t[k] == s[k + 1]);
        }
        lemma_insert_after(prio, flex, t, x, s[0]);
        let rt = insert_in_order(prio, flex, t, x);
        assert forall|p: int, q: int| 0 <= p < q < r.len() implies served_no_later(prio, flex, #[trigger] r[p], #[trigger] r[q]) by {
            assert(r[q] == rt[q - 1]);
            if p > 0 {
                assert(r[p] == rt[p - 1]);
            }
        }
    }
}

/// The allocation order serves by priority and, within a priority, by flexibility.
proof fn lemma_order_served(prio: Seq<i8>, flex: Seq<u32>, empty: Seq<bool>, n: int)
    ensures
        served_in_order(prio, flex, allocation_order(prio, flex, empty, n)),
    decreases n,
{
    if n > 0 {
        lemma_order_served(prio, flex, empty, n - 1);
        if !empty[n - 1] {
            lemma_insert_served(prio, flex, allocation_order(prio, flex, empty, n - 1), (n - 1) as usize);
        }
    }
}

/// A stack offered an exact length serves children of higher priority first and, among
/// children of one priority, the less flexible first: a child is never offered its
/// share after a child of the same priority that is more flexible than it.
pub proof fn lemma_less_flexible_first<S: StackChildren>(s: &S, offer: ProposedDimensions, env: DefaultEnvironment, dir: LayoutDirection)
    ensures
        ({
            let order = exact_order(s, offer, env, dir);
            let prio = priorities(s);
            let flex = flexibilities(s, offer, env, dir);
            forall|p: int, q: int| 0 <= p < q < order.len() && prio[order[p] as int] == prio[order[q] as int]
                ==> #[trigger] flex[order[p] as int] <= #[trigger] flex[order[q] as int]
        }),
{
    lemma_order_served(priorities(s), flexibilities(s, offer, env, dir), empties(s), s.child_count() as int);
    let order = exact_order(s, offer, env, dir);
    assert forall|p: int, q: int| 0 <= p < q < order.len() && priorities(s)[order[p] as int] == priorities(s)[order[q] as int]
        implies #[trigger] flexibilities(s, offer, env, dir)[order[p] as int] <= #[trigger] flexibilities(s, offer, env, dir)[order[q] as int] by {
        assert(served_no_later(priorities(s), flexibilities(s, offer, env, dir), order[p], order[q]));
    }
}

/// The main-axis length of a size.
pub fn main_length(d: Dimensions, dir: LayoutDirection) -> (r: u32)
    ensures
        r == main_of(d, dir),
{
    match dir {
        LayoutDirection::Horizontal => d.width.0,
        LayoutDirection::Vertical => d.height.0,
    }
}

/// The cross-axis length of a size.
pub fn cross_length(d: Dimensions, dir: LayoutDirection) -> (r: u32)
    ensures
        r == cross_of(d, dir),
{
    match dir {
        LayoutDirection::Horizontal => d.height.0,
        LayoutDirection::Vertical => d.width.0,
    }
}

/// The size with the given main and cross lengths.
pub fn orient(main: u32, cross: u32, dir: LayoutDirection) -> (r: Dimensions)
    ensures
        r == oriented(main, cross, dir),
{
    match dir {
        LayoutDirection::Horizontal => Dimensions { width: Dimension(main), height: Dimension(cross) },
        LayoutDirection::Vertical => Dimensions { width: Dimension(cross), height: Dimension(main) },
    }
}

/// The proposal with its main-axis part replaced.
pub fn propose_main(o: &ProposedDimensions, dir: LayoutDirection, p: ProposedDimension) -> (r: ProposedDimensions)
    ensures
        r == with_main(*o, dir, p),
{
    match dir {
        LayoutDirection::Horizontal => ProposedDimensions { width: p, height: o.height },
        LayoutDirection::Vertical => ProposedDimensions { width: o.width, height: p },
    }
}

/// The total spacing over a number of gaps, saturating.
pub fn spacing_for(spacing: u32, gaps: usize) -> (r: u32)
    ensures
        r == gaps_length(spacing, gaps as int),
{
    if gaps == 0 || spacing == 0 {
        return 0;
    }
    if gaps > 0xffff_ffffusize {
        assert(spacing * gaps >= gaps) by (nonlinear_arith)
            requires
                spacing >= 1,
                gaps >= 0,
        ;
        return 0xffff_ffff;
    }
    let s: u64 = spacing as u64;
    let g: u64 = gaps as u64;
    assert(s * g <= 0xffff_ffffu64 * 0xffff_ffffu64) by (nonlinear_arith)
        requires
            s <= 0xffff_ffffu64,
            g <= 0xffff_ffffu64,
    ;
    let prod: u64 = s * g;
    if prod > 0xffff_ffffu64 {
        0xffff_ffff
    } else {
        prod as u32
    }
}

/// Lays the children out for a proposal that is not exact along the main axis: each
/// child once, for the proposal itself.
fn compact_pass<S: StackChildren>(
    children: &S,
    offer: &ProposedDimensions,
    env: &DefaultEnvironment,
    dir: LayoutDirection,
) -> (r: (u32, u32, usize))
    requires
        children.children_ready(),
        forall|i: int| 0 <= i < children.child_count() ==> children.child_admits(i, *offer, *env),
    ensures
        (r.0, r.1, r.2 as int) == compact_totals(children, children.child_count() as int, *offer, *env, dir),
{
    let n = children.count();
    let mut total: u32 = 0;
    let mut cross: u32 = 0;
    let mut non_empty: usize = 0;
    let mut i: usize = 0;
    while i < n
        invariant
            n == children.child_count(),
            children.children_ready(),
            i <= n,
            non_empty <= i,
            forall|j: int| 0 <= j < children.child_count() ==> children.child_admits(j, *offer, *env),
            (total, cross, non_empty as int) == compact_totals(children, i as int, *offer, *env, dir),
        decreases n - i,
    {
        let d = children.size_at(i, offer, env);
        if !children.is_empty_at(i) {
            total = total.saturating_add(main_length(d, dir));
            let c = cross_length(d, dir);
            if c > cross {
                cross = c;
            }
            non_empty = non_empty + 1;
        }
        i = i + 1;
    }
    (total, cross, non_empty)
}

/// Measures the children for an exact main-axis proposal: their priorities, which are
/// empty, their flexibilities and how many are empty.
fn measure<S: StackChildren>(
    children: &S,
    offer: &ProposedDimensions,
    env: &DefaultEnvironment,
    dir: LayoutDirection,
) -> (r: (Vec<i8>, Vec<bool>, Vec<u32>, usize))
    requires
        stack_admits(children, *offer, *env, dir),
    ensures
        r.0@ == priorities(children),
        r.1@ == empties(children),
        r.2@ == flexibilities(children, *offer, *env, dir),
        r.3 as int == empty_count(empties(children), children.child_count() as int),
        r.3 <= children.child_count(),
{
    let n = children.count();
    let least = propose_main(offer, dir, ProposedDimension::Exact(0));
    let most = propose_main(offer, dir, ProposedDimension::Infinite);
    let mut prio: Vec<i8> = Vec::new();
    let mut empty: Vec<bool> = Vec::new();
    let mut flex: Vec<u32> = Vec::new();
    let mut empty_total: usize = 0;
    let mut i: usize = 0;
    while i < n
        invariant
            n == children.child_count(),
            i <= n,
            stack_admits(children, *offer, *env, dir),
            least == with_main(*offer, dir, ProposedDimension::Exact(0)),
            most == with_main(*offer, dir, ProposedDimension::Infinite),
            prio@ == priorities(children).take(i as int),
            empty@ == empties(children).take(i as int),
            flex@ == flexibilities(children, *offer, *env, dir).take(i as int),
            empty_total as int == empty_count(empties(children), i as int),
            empty_total <= i,
        decreases n - i,
    {
        assert(children.child_admits(i as int, with_main(*offer, dir, ProposedDimension::Exact(0)), *env));
        let small = children.size_at(i, &least, env);
        let is_empty = children.is_empty_at(i);
        let f = if is_empty {
            empty_total = empty_total + 1;
            0
        } else {
            assert(children.child_admits(i as int, with_main(*offer, dir, ProposedDimension::Infinite), *env));
            let large = children.size_at(i, &most, env);
            main_length(large, dir).saturating_sub(main_length(small, dir))
        };
        prio.push(children.priority_at(i));
        empty.push(is_empty);
        flex.push(f);
        proof {
            assert(prio@ =~= priorities(children).take(i + 1));
            assert(empty@ =~= empties(children).take(i + 1));
            assert(flex@ =~= flexibilities(children, *offer, *env, dir).take(i + 1));
        }
        i = i + 1;
    }
    proof {
        assert(prio@ =~= priorities(children));
        assert(empty@ =~= empties(children));
        assert(flex@ =~= flexibilities(children, *offer, *env, dir));
    }
    (prio, empty, flex, empty_total)
}

/// Whether child `a` goes before child `b` in the allocation order.
fn precedes(prio: &Vec<i8>, flex: &Vec<u32>, a: usize, b: usize) -> (r: bool)
    requires
        a < prio.len(),
        b < prio.len(),
        prio.len() == flex.len(),
    ensures
        r == goes_before(prio@, flex@, a, b),
{
    prio[a] > prio[b] || (prio[a] == prio[b] && flex[a] < flex[b])
}

/// Inserting `x` before the first element it goes before puts it at position `j`.
proof fn lemma_insert_at(prio: Seq<i8>, flex: Seq<u32>, s: Seq<usize>, x: usize, j: int)
    requires
        0 <= j <= s.len(),
        forall|m: int| 0 <= m < j ==> !goes_before(prio, flex, x, #[trigger] s[m]),
        j < s.len() ==> goes_before(prio, flex, x, s[j]),
    ensures
        insert_in_order(prio, flex, s, x) == s.insert(j, x),
    decreases s.len(),
{
    if s.len() == 0 {
        assert(s.insert(j, x) =~= seq![x]);
    } else if j == 0 {
        assert(s.insert(j, x) =~= seq![x] + s);
    } else {
        let t = s.drop_first();
        assert forall|m: int| 0 <= m < j - 1 implies !goes_before(prio, flex, x, #[trigger] t[m]) by {
            assert(t[m] == s[m + 1]);
        }
        lemma_insert_at(prio, flex, t, x, j - 1);
        assert(s.insert(j, x) =~= seq![s[0]] + t.insert(j - 1, x));
    }
}

/// Inserts `x` into the order before the first child it goes before.
fn insert_ordered(order: &mut Vec<usize>, x: usize, prio: &Vec<i8>, flex: &Vec<u32>)
    requires
        x < prio.len(),
        prio.len() == flex.len(),
        forall|m: int| 0 <= m < old(order).len() ==> old(order)[m] < prio.len(),
    ensures
        final(order)@ == insert_in_order(prio@, flex@, old(order)@, x),
        exists|j: int| 0 <= j <= old(order).len() && final(order)@ == old(order)@.insert(j, x),
{
    let mut j: usize = 0;
    while j < order.len() && !precedes(prio, flex, x, order[j])
        invariant
            j <= order.len(),
            x < prio.len(),
            prio.len() == flex.len(),
            forall|m: int| 0 <= m < order.len() ==> order[m] < prio.len(),
            forall|m: int| 0 <= m < j ==> !goes_before(prio@, flex@, x, #[trigger] order@[m]),
        decreases order.len() - j,
    {
        j = j + 1;
    }
    proof {
        lemma_insert_at(prio@, flex@, order@, x, j as int);
    }
    order.insert(j, x);
}

/// The order in which the non-empty children get their share of an exact length.
fn order_children(prio: &Vec<i8>, flex: &Vec<u32>, empty: &Vec<bool>) -> (r: Vec<usize>)
    requires
        prio.len() == flex.len(),
        prio.len() == empty.len(),
    ensures
        r@ == allocation_order(prio@, flex@, empty@, prio.len() as int),
        forall|m: int| 0 <= m < r.len() ==> r[m] < prio.len(),
        r.len() <= prio.len(),
{
    let n = prio.len();
    let mut order: Vec<usize> = Vec::new();
    let mut i: usize = 0;
    while i < n
        invariant
            n == prio.len(),
            prio.len() == flex.len(),
            prio.len() == empty.len(),
            i <= n,
            order@ == allocation_order(prio@, flex@, empty@, i as int),
            forall|m: int| 0 <= m < order.len() ==> order[m] < i,
            order.len() <= i,
        decreases n - i,
    {
        if !empty[i] {
            let ghost before = order@;
            insert_ordered(&mut order, i, prio, flex);
            proof {
                let j = choose|j: int| 0 <= j <= before.len() && order@ == before.insert(j, i);
                before.insert_ensures(j, i);
                assert forall|m: int| 0 <= m < order.len() implies order[m] < i + 1 by {
                    if m < j {
                    } else if m == j {
                    } else {
                        assert(order@[m] == before[m - 1]);
                    }
                }
            }
        }
        i = i + 1;
    }
    order
}

/// Counting from `from` on, at most the rest of the order matches, and the child at
/// `from` matches its own priority.
proof fn lemma_count_same(prio: Seq<i8>, order: Seq<usize>, p: i8, from: int)
    requires
        0 <= from <= order.len(),
    ensures
        0 <= count_same(prio, order, p, from) <= order.len() - from,
        from < order.len() && prio[order[from] as int] == p ==> count_same(prio, order, p, from) >= 1,
    decreases order.len() - from,
{
    if from < order.len() {
        lemma_count_same(prio, order, p, from + 1);
    }
}

/// The number of children from position `k` of the order on that share the priority
/// of the child at `k`.
fn group_rest(prio: &Vec<i8>, order: &Vec<usize>, k: usize) -> (r: usize)
    requires
        k < order.len(),
        forall|m: int| 0 <= m < order.len() ==> order[m] < prio.len(),
    ensures
        r as int == count_same(prio@, order@, prio@[order@[k as int] as int], k as int),
        r >= 1,
{
    let p = prio[order[k]];
    let mut count: usize = 0;
    let mut m: usize = k;
    proof {
        lemma_count_same(prio@, order@, p, k as int);
    }
    while m < order.len()
        invariant
            k <= m <= order.len(),
            forall|t: int| 0 <= t < order.len() ==> order[t] < prio.len(),
            p == prio@[order@[k as int] as int],
            count + count_same(prio@, order@, p, m as int) == count_same(prio@, order@, p, k as int),
            count <= m - k,
        decreases order.len() - m,
    {
        if prio[order[m]] == p {
            count = count + 1;
        }
        m = m + 1;
    }
    count
}

/// A share of the remaining length never exceeds it.
proof fn lemma_share_le(remaining: u32, g: int)
    requires
        g >= 1,
    ensures
        share(remaining, g) == remaining as int / g + remaining as int % g,
        remaining as int / g + remaining as int % g <= remaining,
{
    let r = remaining as int;
    vstd::arithmetic::div_mod::lemma_fundamental_div_mod(r, g);
    let q = r / g;
    assert(q >= 0) by (nonlinear_arith)
        requires
            r >= 0,
            g >= 1,
            q == r / g,
    ;
    assert(q <= g * q) by (nonlinear_arith)
        requires
            q >= 0,
            g >= 1,
    ;
}

/// The share of `remaining` offered to the next of `g` children.
fn share_of(remaining: u32, g: usize) -> (r: u32)
    requires
        g >= 1,
    ensures
        r == share(remaining, g as int),
        r <= remaining,
{
    proof {
        lemma_share_le(remaining, g as int);
    }
    let rem: u64 = remaining as u64;
    let gg: u64 = g as u64;
    (rem / gg + rem % gg) as u32
}

/// Shares an exact main length out among the children in order.
fn allocate_pass<S: StackChildren>(
    children: &S,
    offer: &ProposedDimensions,
    env: &DefaultEnvironment,
    dir: LayoutDirection,
    order: &Vec<usize>,
    prio: &Vec<i8>,
    start: u32,
) -> (r: (u32, u32, Vec<u32>))
    requires
        stack_admits(children, *offer, *env, dir),
        prio.len() == children.child_count(),
        forall|m: int| 0 <= m < order.len() ==> order[m] < prio.len(),
    ensures
        (r.0, r.1, r.2@) == allocate(children, *offer, *env, dir, order@, prio@, start, order.len() as int),
        r.2.len() == children.child_count(),
{
    let n = children.count();
    let mut fractions: Vec<u32> = Vec::new();
    let mut z: usize = 0;
    while z < n
        invariant
            z <= n,
            n == children.child_count(),
            fractions@ == Seq::new(z as nat, |i: int| 0u32),
        decreases n - z,
    {
        fractions.push(0);
        proof {
            assert(fractions@ =~= Seq::new((z + 1) as nat, |i: int| 0u32));
        }
        z = z + 1;
    }
    let mut remaining = start;
    let mut cross: u32 = 0;
    let mut k: usize = 0;
    while k < order.len()
        invariant
            k <= order.len(),
            n == children.child_count(),
            prio.len() == n,
            stack_admits(children, *offer, *env, dir),
            forall|m: int| 0 <= m < order.len() ==> order[m] < prio.len(),
            (remaining, cross, fractions@) == allocate(children, *offer, *env, dir, order@, prio@, start, k as int),
            fractions.len() == n,
        decreases order.len() - k,
    {
        let i = order[k];
        let g = group_rest(prio, order, k);
        let frac = share_of(remaining, g);
        let proposal = propose_main(offer, dir, ProposedDimension::Exact(frac));
        assert(children.child_admits(i as int, with_main(*offer, dir, ProposedDimension::Exact(frac)), *env));
        let d = children.size_at(i, &proposal, env);
        remaining = remaining.saturating_sub(main_length(d, dir));
        let c = cross_length(d, dir);
        if c > cross {
            cross = c;
        }
        fractions.set(i, frac);
        k = k + 1;
    }
    (remaining, cross, fractions)
}

/// Lays children out along the main axis of `params`.
///
/// For a proposal that is not exact along the main axis, each child is laid out for the
/// proposal and the stack is as long as the children and the spacing between the
/// non-empty ones, and as thick as the thickest non-empty child. For an exact length,
/// the length less the spacing is shared out: children of higher priority first, and
/// within a priority the less flexible first, each offered an even share of what is
/// left; the stack is as long as what the children took.
///
/// Returns the size of the stack and the proposal each child was last laid out for.
pub fn layout_n<S: StackChildren>(
    children: &S,
    offer: &ProposedDimensions,
    env: &DefaultEnvironment,
    params: StackParams,
) -> (r: (Dimensions, Vec<ProposedDimensions>))
    requires
        stack_admits(children, *offer, *env, params.direction),
    ensures
        r.0 == stack_size(children, *offer, *env, params),
        r.1@ == stack_offers(children, *offer, *env, params),
        main_proposal(*offer, params.direction) matches ProposedDimension::Exact(length)
            ==> main_of(r.0, params.direction) <= length,
{
    let dir = params.direction;
    let n = children.count();
    let main_offer = match dir {
        LayoutDirection::Horizontal => offer.width,
        LayoutDirection::Vertical => offer.height,
    };
    match main_offer {
        ProposedDimension::Exact(length) => {
            let (prio, empty, flex, empty_total) = measure(children, offer, env, dir);
            let order = order_children(&prio, &flex, &empty);
            let gaps: usize = if params.slots > empty_total { params.slots - empty_total - 1 } else { 0 };
            let start = length.saturating_sub(spacing_for(params.spacing, gaps));
            let (remaining, cross, fractions) = allocate_pass(children, offer, env, dir, &order, &prio, start);
            let cross_offer = match dir {
                LayoutDirection::Horizontal => offer.height,
                LayoutDirection::Vertical => offer.width,
            };
            let cross = match cross_offer {
                ProposedDimension::Exact(c) => if params.clamp_cross && c < cross { c } else { cross },
                _ => cross,
            };
            let size = orient(length.saturating_sub(remaining), cross, dir);
            let mut offers: Vec<ProposedDimensions> = Vec::new();
            let ghost st = exact_allocation(children, *offer, *env, params, length);
            let mut i: usize = 0;
            while i < n
                invariant
                    i <= n,
                    n == children.child_count(),
                    fractions@ == st.2,
                    fractions.len() == n,
                    offers@ == Seq::new(i as nat, |j: int| with_main(*offer, dir, ProposedDimension::Exact(st.2[j]))),
                decreases n - i,
            {
                offers.push(propose_main(offer, dir, ProposedDimension::Exact(fractions[i])));
                proof {
                    assert(offers@ =~= Seq::new((i + 1) as nat, |j: int| with_main(*offer, dir, ProposedDimension::Exact(st.2[j]))));
                }
                i = i + 1;
            }
            (size, offers)
        },
        _ => {
            assert forall|i: int| 0 <= i < children.child_count() implies children.child_admits(i, *offer, *env) by {
                assert(with_main(*offer, dir, main_offer) == *offer);
                assert(children.child_admits(i, with_main(*offer, dir, main_offer), *env));
            }
            let (total, cross, non_empty) = compact_pass(children, offer, env, dir);
            let gaps: usize = if non_empty > 0 { non_empty - 1 } else { 0 };
            let size = orient(total.saturating_add(spacing_for(params.spacing, gaps)), cross, dir);
            let mut offers: Vec<ProposedDimensions> = Vec::new();
            let mut i: usize = 0;
            while i < n
                invariant
                    i <= n,
                    n == children.child_count(),
                    offers@ == Seq::new(i as nat, |j: int| *offer),
                decreases n - i,
            {
                offers.push(*offer);
                proof {
                    assert(offers@ =~= Seq::new((i + 1) as nat, |j: int| *offer));
                }
                i = i + 1;
            }
            (size, offers)
        },
    }
}

} // verus!
