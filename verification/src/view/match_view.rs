//! Views that render one of several heterogeneous subtrees, chosen by a match.

use vstd::prelude::*;
use crate::layout::{DefaultEnvironment, ResolvedLayout};
use crate::primitives::{Point, ProposedDimensions};
use crate::render::{OneOf1, OneOf2, OneOf3, OneOf4, OneOf5, OneOf6, OneOf7};
use crate::view::ViewLayout;

verus! {

/// One of 1 views, chosen by the arm of a match.
#[derive(Debug, Clone, PartialEq, Eq)]
pub enum Branch1<V0> {
    V0(V0),
}

impl<V0: ViewLayout> ViewLayout for Branch1<V0> {
    type Sublayout = Branch1<ResolvedLayout<V0::Sublayout>>;
    type Renderables = OneOf1<V0::Renderables>;

    open spec fn spec_priority(&self) -> i8 {
        match self {
            Branch1::V0(v) => v.spec_priority()
        }
    }

    open spec fn spec_is_empty(&self) -> bool {
        match self {
            Branch1::V0(v) => v.spec_is_empty()
        }
    }

    open spec fn admits(&self, offer: ProposedDimensions, env: DefaultEnvironment) -> bool {
        match self {
            Branch1::V0(v) => v.admits(offer, env)
        }
    }

    open spec fn spec_layout(&self, offer: ProposedDimensions, env: DefaultEnvironment) -> ResolvedLayout<Branch1<ResolvedLayout<V0::Sublayout>>> {
        match self {
            Branch1::V0(v) => { let l = v.spec_layout(offer, env); ResolvedLayout { sublayouts: Branch1::V0(l), resolved_size: l.resolved_size } }
        }
    }

    /// A branch renders only a layout of the same branch: layouts cannot be reused across branches.
    open spec fn render_admits(&self, layout: ResolvedLayout<Branch1<ResolvedLayout<V0::Sublayout>>>, origin: Point, env: DefaultEnvironment) -> bool {
        match (self, layout.sublayouts) {
            (Branch1::V0(v), Branch1::V0(l)) => v.render_admits(l, origin, env),
            
        }
    }

    open spec fn spec_render_tree(&self, layout: ResolvedLayout<Branch1<ResolvedLayout<V0::Sublayout>>>, origin: Point, env: DefaultEnvironment) -> OneOf1<V0::Renderables> {
        match (self, layout.sublayouts) {
            (Branch1::V0(v), Branch1::V0(l)) => OneOf1::V0(v.spec_render_tree(l, origin, env)),
            
        }
    }

    fn priority(&self) -> (r: i8) {
        match self {
            Branch1::V0(v) => v.priority()
        }
    }

    fn is_empty(&self) -> (r: bool) {
        match self {
            Branch1::V0(v) => v.is_empty()
        }
    }

    fn layout(&self, offer: &ProposedDimensions, env: &DefaultEnvironment) -> (r: ResolvedLayout<Branch1<ResolvedLayout<V0::Sublayout>>>) {
        match self {
            Branch1::V0(v) => {
                let child_layout = v.layout(offer, env);
                let size = child_layout.resolved_size;
                ResolvedLayout { sublayouts: Branch1::V0(child_layout), resolved_size: size }
            }
        }
    }

    fn render_tree(&self, layout: &ResolvedLayout<Branch1<ResolvedLayout<V0::Sublayout>>>, origin: Point, env: &DefaultEnvironment) -> (r: OneOf1<V0::Renderables>) {
        match (self, &layout.sublayouts) {
            (Branch1::V0(v), Branch1::V0(l)) => OneOf1::V0(v.render_tree(l, origin, env)),
            
        }
    }
}

/// One of 2 views, chosen by the arm of a match.
#[derive(Debug, Clone, PartialEq, Eq)]
pub enum Branch2<V0, V1> {
    V0(V0),
    V1(V1),
}

impl<V0: ViewLayout, V1: ViewLayout> ViewLayout for Branch2<V0, V1> {
    type Sublayout = Branch2<ResolvedLayout<V0::Sublayout>, ResolvedLayout<V1::Sublayout>>;
    type Renderables = OneOf2<V0::Renderables, V1::Renderables>;

    open spec fn spec_priority(&self) -> i8 {
        match self {
            Branch2::V0(v) => v.spec_priority(),
            Branch2::V1(v) => v.spec_priority()
        }
    }

    open spec fn spec_is_empty(&self) -> bool {
        match self {
            Branch2::V0(v) => v.spec_is_empty(),
            Branch2::V1(v) => v.spec_is_empty()
        }
    }

    open spec fn admits(&self, offer: ProposedDimensions, env: DefaultEnvironment) -> bool {
        match self {
            Branch2::V0(v) => v.admits(offer, env),
            Branch2::V1(v) => v.admits(offer, env)
        }
    }

    open spec fn spec_layout(&self, offer: ProposedDimensions, env: DefaultEnvironment) -> ResolvedLayout<Branch2<ResolvedLayout<V0::Sublayout>, ResolvedLayout<V1::Sublayout>>> {
        match self {
            Branch2::V0(v) => { let l = v.spec_layout(offer, env); ResolvedLayout { sublayouts: Branch2::V0(l), resolved_size: l.resolved_size } },
            Branch2::V1(v) => { let l = v.spec_layout(offer, env); ResolvedLayout { sublayouts: Branch2::V1(l), resolved_size: l.resolved_size } }
        }
    }

    /// A branch renders only a layout of the same branch: layouts cannot be reused across branches.
    open spec fn render_admits(&self, layout: ResolvedLayout<Branch2<ResolvedLayout<V0::Sublayout>, ResolvedLayout<V1::Sublayout>>>, origin: Point, env: DefaultEnvironment) -> bool {
        match (self, layout.sublayouts) {
            (Branch2::V0(v), Branch2::V0(l)) => v.render_admits(l, origin, env),
            (Branch2::V1(v), Branch2::V1(l)) => v.render_admits(l, origin, env),
            _ => false,
        }
    }

    open spec fn spec_render_tree(&self, layout: ResolvedLayout<Branch2<ResolvedLayout<V0::Sublayout>, ResolvedLayout<V1::Sublayout>>>, origin: Point, env: DefaultEnvironment) -> OneOf2<V0::Renderables, V1::Renderables> {
        match (self, layout.sublayouts) {
            (Branch2::V0(v), Branch2::V0(l)) => OneOf2::V0(v.spec_render_tree(l, origin, env)),
            (Branch2::V1(v), Branch2::V1(l)) => OneOf2::V1(v.spec_render_tree(l, origin, env)),
            _ => arbitrary(),
        }
    }

    fn priority(&self) -> (r: i8) {
        match self {
            Branch2::V0(v) => v.priority(),
            Branch2::V1(v) => v.priority()
        }
    }

    fn is_empty(&self) -> (r: bool) {
        match self {
            Branch2::V0(v) => v.is_empty(),
            Branch2::V1(v) => v.is_empty()
        }
    }

    fn layout(&self, offer: &ProposedDimensions, env: &DefaultEnvironment) -> (r: ResolvedLayout<Branch2<ResolvedLayout<V0::Sublayout>, ResolvedLayout<V1::Sublayout>>>) {
        match self {
            Branch2::V0(v) => {
                let child_layout = v.layout(offer, env);
                let size = child_layout.resolved_size;
                ResolvedLayout { sublayouts: Branch2::V0(child_layout), resolved_size: size }
            },
            Branch2::V1(v) => {
                let child_layout = v.layout(offer, env);
                let size = child_layout.resolved_size;
                ResolvedLayout { sublayouts: Branch2::V1(child_layout), resolved_size: size }
            }
        }
    }

    fn render_tree(&self, layout: &ResolvedLayout<Branch2<ResolvedLayout<V0::Sublayout>, ResolvedLayout<V1::Sublayout>>>, origin: Point, env: &DefaultEnvironment) -> (r: OneOf2<V0::Renderables, V1::Renderables>) {
        match (self, &layout.sublayouts) {
            (Branch2::V0(v), Branch2::V0(l)) => OneOf2::V0(v.render_tree(l, origin, env)),
            (Branch2::V1(v), Branch2::V1(l)) => OneOf2::V1(v.render_tree(l, origin, env)),
            _ => { proof { assert(false); } unreached() },
        }
    }
}

/// One of 3 views, chosen by the arm of a match.
#[derive(Debug, Clone, PartialEq, Eq)]
pub enum Branch3<V0, V1, V2> {
    V0(V0),
    V1(V1),
    V2(V2),
}

impl<V0: ViewLayout, V1: ViewLayout, V2: ViewLayout> ViewLayout for Branch3<V0, V1, V2> {
    type Sublayout = Branch3<ResolvedLayout<V0::Sublayout>, ResolvedLayout<V1::Sublayout>, ResolvedLayout<V2::Sublayout>>;
    type Renderables = OneOf3<V0::Renderables, V1::Renderables, V2::Renderables>;

    open spec fn spec_priority(&self) -> i8 {
        match self {
            Branch3::V0(v) => v.spec_priority(),
            Branch3::V1(v) => v.spec_priority(),
            Branch3::V2(v) => v.spec_priority()
        }
    }

    open spec fn spec_is_empty(&self) -> bool {
        match self {
            Branch3::V0(v) => v.spec_is_empty(),
            Branch3::V1(v) => v.spec_is_empty(),
            Branch3::V2(v) => v.spec_is_empty()
        }
    }

    open spec fn admits(&self, offer: ProposedDimensions, env: DefaultEnvironment) -> bool {
        match self {
            Branch3::V0(v) => v.admits(offer, env),
            Branch3::V1(v) => v.admits(offer, env),
            Branch3::V2(v) => v.admits(offer, env)
        }
    }

    open spec fn spec_layout(&self, offer: ProposedDimensions, env: DefaultEnvironment) -> ResolvedLayout<Branch3<ResolvedLayout<V0::Sublayout>, ResolvedLayout<V1::Sublayout>, ResolvedLayout<V2::Sublayout>>> {
        match self {
            Branch3::V0(v) => { let l = v.spec_layout(offer, env); ResolvedLayout { sublayouts: Branch3::V0(l), resolved_size: l.resolved_size } },
            Branch3::V1(v) => { let l = v.spec_layout(offer, env); ResolvedLayout { sublayouts: Branch3::V1(l), resolved_size: l.resolved_size } },
            Branch3::V2(v) => { let l = v.spec_layout(offer, env); ResolvedLayout { sublayouts: Branch3::V2(l), resolved_size: l.resolved_size } }
        }
    }

    /// A branch renders only a layout of the same branch: layouts cannot be reused across branches.
    open spec fn render_admits(&self, layout: ResolvedLayout<Branch3<ResolvedLayout<V0::Sublayout>, ResolvedLayout<V1::Sublayout>, ResolvedLayout<V2::Sublayout>>>, origin: Point, env: DefaultEnvironment) -> bool {
        match (self, layout.sublayouts) {
            (Branch3::V0(v), Branch3::V0(l)) => v.render_admits(l, origin, env),
            (Branch3::V1(v), Branch3::V1(l)) => v.render_admits(l, origin, env),
            (Branch3::V2(v), Branch3::V2(l)) => v.render_admits(l, origin, env),
            _ => false,
        }
    }

    open spec fn spec_render_tree(&self, layout: ResolvedLayout<Branch3<ResolvedLayout<V0::Sublayout>, ResolvedLayout<V1::Sublayout>, ResolvedLayout<V2::Sublayout>>>, origin: Point, env: DefaultEnvironment) -> OneOf3<V0::Renderables, V1::Renderables, V2::Renderables> {
        match (self, layout.sublayouts) {
            (Branch3::V0(v), Branch3::V0(l)) => OneOf3::V0(v.spec_render_tree(l, origin, env)),
            (Branch3::V1(v), Branch3::V1(l)) => OneOf3::V1(v.spec_render_tree(l, origin, env)),
            (Branch3::V2(v), Branch3::V2(l)) => OneOf3::V2(v.spec_render_tree(l, origin, env)),
            _ => arbitrary(),
        }
    }

    fn priority(&self) -> (r: i8) {
        match self {
            Branch3::V0(v) => v.priority(),
            Branch3::V1(v) => v.priority(),
            Branch3::V2(v) => v.priority()
        }
    }

    fn is_empty(&self) -> (r: bool) {
        match self {
            Branch3::V0(v) => v.is_empty(),
            Branch3::V1(v) => v.is_empty(),
            Branch3::V2(v) => v.is_empty()
        }
    }

    fn layout(&self, offer: &ProposedDimensions, env: &DefaultEnvironment) -> (r: ResolvedLayout<Branch3<ResolvedLayout<V0::Sublayout>, ResolvedLayout<V1::Sublayout>, ResolvedLayout<V2::Sublayout>>>) {
        match self {
            Branch3::V0(v) => {
                let child_layout = v.layout(offer, env);
                let size = child_layout.resolved_size;
                ResolvedLayout { sublayouts: Branch3::V0(child_layout), resolved_size: size }
            },
            Branch3::V1(v) => {
                let child_layout = v.layout(offer, env);
                let size = child_layout.resolved_size;
                ResolvedLayout { sublayouts: Branch3::V1(child_layout), resolved_size: size }
            },
            Branch3::V2(v) => {
                let child_layout = v.layout(offer, env);
                let size = child_layout.resolved_size;
                ResolvedLayout { sublayouts: Branch3::V2(child_layout), resolved_size: size }
            }
        }
    }

    fn render_tree(&self, layout: &ResolvedLayout<Branch3<ResolvedLayout<V0::Sublayout>, ResolvedLayout<V1::Sublayout>, ResolvedLayout<V2::Sublayout>>>, origin: Point, env: &DefaultEnvironment) -> (r: OneOf3<V0::Renderables, V1::Renderables, V2::Renderables>) {
        match (self, &layout.sublayouts) {
            (Branch3::V0(v), Branch3::V0(l)) => OneOf3::V0(v.render_tree(l, origin, env)),
            (Branch3::V1(v), Branch3::V1(l)) => OneOf3::V1(v.render_tree(l, origin, env)),
            (Branch3::V2(v), Branch3::V2(l)) => OneOf3::V2(v.render_tree(l, origin, env)),
            _ => { proof { assert(false); } unreached() },
        }
    }
}

/// One of 4 views, chosen by the arm of a match.
#[derive(Debug, Clone, PartialEq, Eq)]
pub enum Branch4<V0, V1, V2, V3> {
    V0(V0),
    V1(V1),
    V2(V2),
    V3(V3),
}

impl<V0: ViewLayout, V1: ViewLayout, V2: ViewLayout, V3: ViewLayout> ViewLayout for Branch4<V0, V1, V2, V3> {
    type Sublayout = Branch4<ResolvedLayout<V0::Sublayout>, ResolvedLayout<V1::Sublayout>, ResolvedLayout<V2::Sublayout>, ResolvedLayout<V3::Sublayout>>;
    type Renderables = OneOf4<V0::Renderables, V1::Renderables, V2::Renderables, V3::Renderables>;

    open spec fn spec_priority(&self) -> i8 {
        match self {
            Branch4::V0(v) => v.spec_priority(),
            Branch4::V1(v) => v.spec_priority(),
            Branch4::V2(v) => v.spec_priority(),
            Branch4::V3(v) => v.spec_priority()
        }
    }

    open spec fn spec_is_empty(&self) -> bool {
        match self {
            Branch4::V0(v) => v.spec_is_empty(),
            Branch4::V1(v) => v.spec_is_empty(),
            Branch4::V2(v) => v.spec_is_empty(),
            Branch4::V3(v) => v.spec_is_empty()
        }
    }

    open spec fn admits(&self, offer: ProposedDimensions, env: DefaultEnvironment) -> bool {
        match self {
            Branch4::V0(v) => v.admits(offer, env),
            Branch4::V1(v) => v.admits(offer, env),
            Branch4::V2(v) => v.admits(offer, env),
            Branch4::V3(v) => v.admits(offer, env)
        }
    }

    open spec fn spec_layout(&self, offer: ProposedDimensions, env: DefaultEnvironment) -> ResolvedLayout<Branch4<ResolvedLayout<V0::Sublayout>, ResolvedLayout<V1::Sublayout>, ResolvedLayout<V2::Sublayout>, ResolvedLayout<V3::Sublayout>>> {
        match self {
            Branch4::V0(v) => { let l = v.spec_layout(offer, env); ResolvedLayout { sublayouts: Branch4::V0(l), resolved_size: l.resolved_size } },
            Branch4::V1(v) => { let l = v.spec_layout(offer, env); ResolvedLayout { sublayouts: Branch4::V1(l), resolved_size: l.resolved_size } },
            Branch4::V2(v) => { let l = v.spec_layout(offer, env); ResolvedLayout { sublayouts: Branch4::V2(l), resolved_size: l.resolved_size } },
            Branch4::V3(v) => { let l = v.spec_layout(offer, env); ResolvedLayout { sublayouts: Branch4::V3(l), resolved_size: l.resolved_size } }
        }
    }

    /// A branch renders only a layout of the same branch: layouts cannot be reused across branches.
    open spec fn render_admits(&self, layout: ResolvedLayout<Branch4<ResolvedLayout<V0::Sublayout>, ResolvedLayout<V1::Sublayout>, ResolvedLayout<V2::Sublayout>, ResolvedLayout<V3::Sublayout>>>, origin: Point, env: DefaultEnvironment) -> bool {
        match (self, layout.sublayouts) {
            (Branch4::V0(v), Branch4::V0(l)) => v.render_admits(l, origin, env),
            (Branch4::V1(v), Branch4::V1(l)) => v.render_admits(l, origin, env),
            (Branch4::V2(v), Branch4::V2(l)) => v.render_admits(l, origin, env),
            (Branch4::V3(v), Branch4::V3(l)) => v.render_admits(l, origin, env),
            _ => false,
        }
    }

    open spec fn spec_render_tree(&self, layout: ResolvedLayout<Branch4<ResolvedLayout<V0::Sublayout>, ResolvedLayout<V1::Sublayout>, ResolvedLayout<V2::Sublayout>, ResolvedLayout<V3::Sublayout>>>, origin: Point, env: DefaultEnvironment) -> OneOf4<V0::Renderables, V1::Renderables, V2::Renderables, V3::Renderables> {
        match (self, layout.sublayouts) {
            (Branch4::V0(v), Branch4::V0(l)) => OneOf4::V0(v.spec_render_tree(l, origin, env)),
            (Branch4::V1(v), Branch4::V1(l)) => OneOf4::V1(v.spec_render_tree(l, origin, env)),
            (Branch4::V2(v), Branch4::V2(l)) => OneOf4::V2(v.spec_render_tree(l, origin, env)),
            (Branch4::V3(v), Branch4::V3(l)) => OneOf4::V3(v.spec_render_tree(l, origin, env)),
            _ => arbitrary(),
        }
    }

    fn priority(&self) -> (r: i8) {
        match self {
            Branch4::V0(v) => v.priority(),
            Branch4::V1(v) => v.priority(),
            Branch4::V2(v) => v.priority(),
            Branch4::V3(v) => v.priority()
        }
    }

    fn is_empty(&self) -> (r: bool) {
        match self {
            Branch4::V0(v) => v.is_empty(),
            Branch4::V1(v) => v.is_empty(),
            Branch4::V2(v) => v.is_empty(),
            Branch4::V3(v) => v.is_empty()
        }
    }

    fn layout(&self, offer: &ProposedDimensions, env: &DefaultEnvironment) -> (r: ResolvedLayout<Branch4<ResolvedLayout<V0::Sublayout>, ResolvedLayout<V1::Sublayout>, ResolvedLayout<V2::Sublayout>, ResolvedLayout<V3::Sublayout>>>) {
        match self {
            Branch4::V0(v) => {
                let child_layout = v.layout(offer, env);
                let size = child_layout.resolved_size;
                ResolvedLayout { sublayouts: Branch4::V0(child_layout), resolved_size: size }
            },
            Branch4::V1(v) => {
                let child_layout = v.layout(offer, env);
                let size = child_layout.resolved_size;
                ResolvedLayout { sublayouts: Branch4::V1(child_layout), resolved_size: size }
            },
            Branch4::V2(v) => {
                let child_layout = v.layout(offer, env);
                let size = child_layout.resolved_size;
                ResolvedLayout { sublayouts: Branch4::V2(child_layout), resolved_size: size }
            },
            Branch4::V3(v) => {
                let child_layout = v.layout(offer, env);
                let size = child_layout.resolved_size;
                ResolvedLayout { sublayouts: Branch4::V3(child_layout), resolved_size: size }
            }
        }
    }

    fn render_tree(&self, layout: &ResolvedLayout<Branch4<ResolvedLayout<V0::Sublayout>, ResolvedLayout<V1::Sublayout>, ResolvedLayout<V2::Sublayout>, ResolvedLayout<V3::Sublayout>>>, origin: Point, env: &DefaultEnvironment) -> (r: OneOf4<V0::Renderables, V1::Renderables, V2::Renderables, V3::Renderables>) {
        match (self, &layout.sublayouts) {
            (Branch4::V0(v), Branch4::V0(l)) => OneOf4::V0(v.render_tree(l, origin, env)),
            (Branch4::V1(v), Branch4::V1(l)) => OneOf4::V1(v.render_tree(l, origin, env)),
            (Branch4::V2(v), Branch4::V2(l)) => OneOf4::V2(v.render_tree(l, origin, env)),
            (Branch4::V3(v), Branch4::V3(l)) => OneOf4::V3(v.render_tree(l, origin, env)),
            _ => { proof { assert(false); } unreached() },
        }
    }
}

/// One of 5 views, chosen by the arm of a match.
#[derive(Debug, Clone, PartialEq, Eq)]
pub enum Branch5<V0, V1, V2, V3, V4> {
    V0(V0),
    V1(V1),
    V2(V2),
    V3(V3),
    V4(V4),
}

impl<V0: ViewLayout, V1: ViewLayout, V2: ViewLayout, V3: ViewLayout, V4: ViewLayout> ViewLayout for Branch5<V0, V1, V2, V3, V4> {
    type Sublayout = Branch5<ResolvedLayout<V0::Sublayout>, ResolvedLayout<V1::Sublayout>, ResolvedLayout<V2::Sublayout>, ResolvedLayout<V3::Sublayout>, ResolvedLayout<V4::Sublayout>>;
    type Renderables = OneOf5<V0::Renderables, V1::Renderables, V2::Renderables, V3::Renderables, V4::Renderables>;

    open spec fn spec_priority(&self) -> i8 {
        match self {
            Branch5::V0(v) => v.spec_priority(),
            Branch5::V1(v) => v.spec_priority(),
            Branch5::V2(v) => v.spec_priority(),
            Branch5::V3(v) => v.spec_priority(),
            Branch5::V4(v) => v.spec_priority()
        }
    }

    open spec fn spec_is_empty(&self) -> bool {
        match self {
            Branch5::V0(v) => v.spec_is_empty(),
            Branch5::V1(v) => v.spec_is_empty(),
            Branch5::V2(v) => v.spec_is_empty(),
            Branch5::V3(v) => v.spec_is_empty(),
            Branch5::V4(v) => v.spec_is_empty()
        }
    }

    open spec fn admits(&self, offer: ProposedDimensions, env: DefaultEnvironment) -> bool {
        match self {
            Branch5::V0(v) => v.admits(offer, env),
            Branch5::V1(v) => v.admits(offer, env),
            Branch5::V2(v) => v.admits(offer, env),
            Branch5::V3(v) => v.admits(offer, env),
            Branch5::V4(v) => v.admits(offer, env)
        }
    }

    open spec fn spec_layout(&self, offer: ProposedDimensions, env: DefaultEnvironment) -> ResolvedLayout<Branch5<ResolvedLayout<V0::Sublayout>, ResolvedLayout<V1::Sublayout>, ResolvedLayout<V2::Sublayout>, ResolvedLayout<V3::Sublayout>, ResolvedLayout<V4::Sublayout>>> {
        match self {
            Branch5::V0(v) => { let l = v.spec_layout(offer, env); ResolvedLayout { sublayouts: Branch5::V0(l), resolved_size: l.resolved_size } },
            Branch5::V1(v) => { let l = v.spec_layout(offer, env); ResolvedLayout { sublayouts: Branch5::V1(l), resolved_size: l.resolved_size } },
            Branch5::V2(v) => { let l = v.spec_layout(offer, env); ResolvedLayout { sublayouts: Branch5::V2(l), resolved_size: l.resolved_size } },
            Branch5::V3(v) => { let l = v.spec_layout(offer, env); ResolvedLayout { sublayouts: Branch5::V3(l), resolved_size: l.resolved_size } },
            Branch5::V4(v) => { let l = v.spec_layout(offer, env); ResolvedLayout { sublayouts: Branch5::V4(l), resolved_size: l.resolved_size } }
        }
    }

    /// A branch renders only a layout of the same branch: layouts cannot be reused across branches.
    open spec fn render_admits(&self, layout: ResolvedLayout<Branch5<ResolvedLayout<V0::Sublayout>, ResolvedLayout<V1::Sublayout>, ResolvedLayout<V2::Sublayout>, ResolvedLayout<V3::Sublayout>, ResolvedLayout<V4::Sublayout>>>, origin: Point, env: DefaultEnvironment) -> bool {
        match (self, layout.sublayouts) {
            (Branch5::V0(v), Branch5::V0(l)) => v.render_admits(l, origin, env),
            (Branch5::V1(v), Branch5::V1(l)) => v.render_admits(l, origin, env),
            (Branch5::V2(v), Branch5::V2(l)) => v.render_admits(l, origin, env),
            (Branch5::V3(v), Branch5::V3(l)) => v.render_admits(l, origin, env),
            (Branch5::V4(v), Branch5::V4(l)) => v.render_admits(l, origin, env),
            _ => false,
        }
    }

    open spec fn spec_render_tree(&self, layout: ResolvedLayout<Branch5<ResolvedLayout<V0::Sublayout>, ResolvedLayout<V1::Sublayout>, ResolvedLayout<V2::Sublayout>, ResolvedLayout<V3::Sublayout>, ResolvedLayout<V4::Sublayout>>>, origin: Point, env: DefaultEnvironment) -> OneOf5<V0::Renderables, V1::Renderables, V2::Renderables, V3::Renderables, V4::Renderables> {
        match (self, layout.sublayouts) {
            (Branch5::V0(v), Branch5::V0(l)) => OneOf5::V0(v.spec_render_tree(l, origin, env)),
            (Branch5::V1(v), Branch5::V1(l)) => OneOf5::V1(v.spec_render_tree(l, origin, env)),
            (Branch5::V2(v), Branch5::V2(l)) => OneOf5::V2(v.spec_render_tree(l, origin, env)),
            (Branch5::V3(v), Branch5::V3(l)) => OneOf5::V3(v.spec_render_tree(l, origin, env)),
            (Branch5::V4(v), Branch5::V4(l)) => OneOf5::V4(v.spec_render_tree(l, origin, env)),
            _ => arbitrary(),
        }
    }

    fn priority(&self) -> (r: i8) {
        match self {
            Branch5::V0(v) => v.priority(),
            Branch5::V1(v) => v.priority(),
            Branch5::V2(v) => v.priority(),
            Branch5::V3(v) => v.priority(),
            Branch5::V4(v) => v.priority()
        }
    }

    fn is_empty(&self) -> (r: bool) {
        match self {
            Branch5::V0(v) => v.is_empty(),
            Branch5::V1(v) => v.is_empty(),
            Branch5::V2(v) => v.is_empty(),
            Branch5::V3(v) => v.is_empty(),
            Branch5::V4(v) => v.is_empty()
        }
    }

    fn layout(&self, offer: &ProposedDimensions, env: &DefaultEnvironment) -> (r: ResolvedLayout<Branch5<ResolvedLayout<V0::Sublayout>, ResolvedLayout<V1::Sublayout>, ResolvedLayout<V2::Sublayout>, ResolvedLayout<V3::Sublayout>, ResolvedLayout<V4::Sublayout>>>) {
        match self {
            Branch5::V0(v) => {
                let child_layout = v.layout(offer, env);
                let size = child_layout.resolved_size;
                ResolvedLayout { sublayouts: Branch5::V0(child_layout), resolved_size: size }
            },
            Branch5::V1(v) => {
                let child_layout = v.layout(offer, env);
                let size = child_layout.resolved_size;
                ResolvedLayout { sublayouts: Branch5::V1(child_layout), resolved_size: size }
            },
            Branch5::V2(v) => {
                let child_layout = v.layout(offer, env);
                let size = child_layout.resolved_size;
                ResolvedLayout { sublayouts: Branch5::V2(child_layout), resolved_size: size }
            },
            Branch5::V3(v) => {
                let child_layout = v.layout(offer, env);
                let size = child_layout.resolved_size;
                ResolvedLayout { sublayouts: Branch5::V3(child_layout), resolved_size: size }
            },
            Branch5::V4(v) => {
                let child_layout = v.layout(offer, env);
                let size = child_layout.resolved_size;
                ResolvedLayout { sublayouts: Branch5::V4(child_layout), resolved_size: size }
            }
        }
    }

    fn render_tree(&self, layout: &ResolvedLayout<Branch5<ResolvedLayout<V0::Sublayout>, ResolvedLayout<V1::Sublayout>, ResolvedLayout<V2::Sublayout>, ResolvedLayout<V3::Sublayout>, ResolvedLayout<V4::Sublayout>>>, origin: Point, env: &DefaultEnvironment) -> (r: OneOf5<V0::Renderables, V1::Renderables, V2::Renderables, V3::Renderables, V4::Renderables>) {
        match (self, &layout.sublayouts) {
            (Branch5::V0(v), Branch5::V0(l)) => OneOf5::V0(v.render_tree(l, origin, env)),
            (Branch5::V1(v), Branch5::V1(l)) => OneOf5::V1(v.render_tree(l, origin, env)),
            (Branch5::V2(v), Branch5::V2(l)) => OneOf5::V2(v.render_tree(l, origin, env)),
            (Branch5::V3(v), Branch5::V3(l)) => OneOf5::V3(v.render_tree(l, origin, env)),
            (Branch5::V4(v), Branch5::V4(l)) => OneOf5::V4(v.render_tree(l, origin, env)),
            _ => { proof { assert(false); } unreached() },
        }
    }
}

/// One of 6 views, chosen by the arm of a match.
#[derive(Debug, Clone, PartialEq, Eq)]
pub enum Branch6<V0, V1, V2, V3, V4, V5> {
    V0(V0),
    V1(V1),
    V2(V2),
    V3(V3),
    V4(V4),
    V5(V5),
}

impl<V0: ViewLayout, V1: ViewLayout, V2: ViewLayout, V3: ViewLayout, V4: ViewLayout, V5: ViewLayout> ViewLayout for Branch6<V0, V1, V2, V3, V4, V5> {
    type Sublayout = Branch6<ResolvedLayout<V0::Sublayout>, ResolvedLayout<V1::Sublayout>, ResolvedLayout<V2::Sublayout>, ResolvedLayout<V3::Sublayout>, ResolvedLayout<V4::Sublayout>, ResolvedLayout<V5::Sublayout>>;
    type Renderables = OneOf6<V0::Renderables, V1::Renderables, V2::Renderables, V3::Renderables, V4::Renderables, V5::Renderables>;

    open spec fn spec_priority(&self) -> i8 {
        match self {
            Branch6::V0(v) => v.spec_priority(),
            Branch6::V1(v) => v.spec_priority(),
            Branch6::V2(v) => v.spec_priority(),
            Branch6::V3(v) => v.spec_priority(),
            Branch6::V4(v) => v.spec_priority(),
            Branch6::V5(v) => v.spec_priority()
        }
    }

    open spec fn spec_is_empty(&self) -> bool {
        match self {
            Branch6::V0(v) => v.spec_is_empty(),
            Branch6::V1(v) => v.spec_is_empty(),
            Branch6::V2(v) => v.spec_is_empty(),
            Branch6::V3(v) => v.spec_is_empty(),
            Branch6::V4(v) => v.spec_is_empty(),
            Branch6::V5(v) => v.spec_is_empty()
        }
    }

    open spec fn admits(&self, offer: ProposedDimensions, env: DefaultEnvironment) -> bool {
        match self {
            Branch6::V0(v) => v.admits(offer, env),
            Branch6::V1(v) => v.admits(offer, env),
            Branch6::V2(v) => v.admits(offer, env),
            Branch6::V3(v) => v.admits(offer, env),
            Branch6::V4(v) => v.admits(offer, env),
            Branch6::V5(v) => v.admits(offer, env)
        }
    }

    open spec fn spec_layout(&self, offer: ProposedDimensions, env: DefaultEnvironment) -> ResolvedLayout<Branch6<ResolvedLayout<V0::Sublayout>, ResolvedLayout<V1::Sublayout>, ResolvedLayout<V2::Sublayout>, ResolvedLayout<V3::Sublayout>, ResolvedLayout<V4::Sublayout>, ResolvedLayout<V5::Sublayout>>> {
        match self {
            Branch6::V0(v) => { let l = v.spec_layout(offer, env); ResolvedLayout { sublayouts: Branch6::V0(l), resolved_size: l.resolved_size } },
            Branch6::V1(v) => { let l = v.spec_layout(offer, env); ResolvedLayout { sublayouts: Branch6::V1(l), resolved_size: l.resolved_size } },
            Branch6::V2(v) => { let l = v.spec_layout(offer, env); ResolvedLayout { sublayouts: Branch6::V2(l), resolved_size: l.resolved_size } },
            Branch6::V3(v) => { let l = v.spec_layout(offer, env); ResolvedLayout { sublayouts: Branch6::V3(l), resolved_size: l.resolved_size } },
            Branch6::V4(v) => { let l = v.spec_layout(offer, env); ResolvedLayout { sublayouts: Branch6::V4(l), resolved_size: l.resolved_size } },
            Branch6::V5(v) => { let l = v.spec_layout(offer, env); ResolvedLayout { sublayouts: Branch6::V5(l), resolved_size: l.resolved_size } }
        }
    }

    /// A branch renders only a layout of the same branch: layouts cannot be reused across branches.
    open spec fn render_admits(&self, layout: ResolvedLayout<Branch6<ResolvedLayout<V0::Sublayout>, ResolvedLayout<V1::Sublayout>, ResolvedLayout<V2::Sublayout>, ResolvedLayout<V3::Sublayout>, ResolvedLayout<V4::Sublayout>, ResolvedLayout<V5::Sublayout>>>, origin: Point, env: DefaultEnvironment) -> bool {
        match (self, layout.sublayouts) {
            (Branch6::V0(v), Branch6::V0(l)) => v.render_admits(l, origin, env),
            (Branch6::V1(v), Branch6::V1(l)) => v.render_admits(l, origin, env),
            (Branch6::V2(v), Branch6::V2(l)) => v.render_admits(l, origin, env),
            (Branch6::V3(v), Branch6::V3(l)) => v.render_admits(l, origin, env),
            (Branch6::V4(v), Branch6::V4(l)) => v.render_admits(l, origin, env),
            (Branch6::V5(v), Branch6::V5(l)) => v.render_admits(l, origin, env),
            _ => false,
        }
    }

    open spec fn spec_render_tree(&self, layout: ResolvedLayout<Branch6<ResolvedLayout<V0::Sublayout>, ResolvedLayout<V1::Sublayout>, ResolvedLayout<V2::Sublayout>, ResolvedLayout<V3::Sublayout>, ResolvedLayout<V4::Sublayout>, ResolvedLayout<V5::Sublayout>>>, origin: Point, env: DefaultEnvironment) -> OneOf6<V0::Renderables, V1::Renderables, V2::Renderables, V3::Renderables, V4::Renderables, V5::Renderables> {
        match (self, layout.sublayouts) {
            (Branch6::V0(v), Branch6::V0(l)) => OneOf6::V0(v.spec_render_tree(l, origin, env)),
            (Branch6::V1(v), Branch6::V1(l)) => OneOf6::V1(v.spec_render_tree(l, origin, env)),
            (Branch6::V2(v), Branch6::V2(l)) => OneOf6::V2(v.spec_render_tree(l, origin, env)),
            (Branch6::V3(v), Branch6::V3(l)) => OneOf6::V3(v.spec_render_tree(l, origin, env)),
            (Branch6::V4(v), Branch6::V4(l)) => OneOf6::V4(v.spec_render_tree(l, origin, env)),
            (Branch6::V5(v), Branch6::V5(l)) => OneOf6::V5(v.spec_render_tree(l, origin, env)),
            _ => arbitrary(),
        }
    }

    fn priority(&self) -> (r: i8) {
        match self {
            Branch6::V0(v) => v.priority(),
            Branch6::V1(v) => v.priority(),
            Branch6::V2(v) => v.priority(),
            Branch6::V3(v) => v.priority(),
            Branch6::V4(v) => v.priority(),
            Branch6::V5(v) => v.priority()
        }
    }

    fn is_empty(&self) -> (r: bool) {
        match self {
            Branch6::V0(v) => v.is_empty(),
            Branch6::V1(v) => v.is_empty(),
            Branch6::V2(v) => v.is_empty(),
            Branch6::V3(v) => v.is_empty(),
            Branch6::V4(v) => v.is_empty(),
            Branch6::V5(v) => v.is_empty()
        }
    }

    fn layout(&self, offer: &ProposedDimensions, env: &DefaultEnvironment) -> (r: ResolvedLayout<Branch6<ResolvedLayout<V0::Sublayout>, ResolvedLayout<V1::Sublayout>, ResolvedLayout<V2::Sublayout>, ResolvedLayout<V3::Sublayout>, ResolvedLayout<V4::Sublayout>, ResolvedLayout<V5::Sublayout>>>) {
        match self {
            Branch6::V0(v) => {
                let child_layout = v.layout(offer, env);
                let size = child_layout.resolved_size;
                ResolvedLayout { sublayouts: Branch6::V0(child_layout), resolved_size: size }
            },
            Branch6::V1(v) => {
                let child_layout = v.layout(offer, env);
                let size = child_layout.resolved_size;
                ResolvedLayout { sublayouts: Branch6::V1(child_layout), resolved_size: size }
            },
            Branch6::V2(v) => {
                let child_layout = v.layout(offer, env);
                let size = child_layout.resolved_size;
                ResolvedLayout { sublayouts: Branch6::V2(child_layout), resolved_size: size }
            },
            Branch6::V3(v) => {
                let child_layout = v.layout(offer, env);
                let size = child_layout.resolved_size;
                ResolvedLayout { sublayouts: Branch6::V3(child_layout), resolved_size: size }
            },
            Branch6::V4(v) => {
                let child_layout = v.layout(offer, env);
                let size = child_layout.resolved_size;
                ResolvedLayout { sublayouts: Branch6::V4(child_layout), resolved_size: size }
            },
            Branch6::V5(v) => {
                let child_layout = v.layout(offer, env);
                let size = child_layout.resolved_size;
                ResolvedLayout { sublayouts: Branch6::V5(child_layout), resolved_size: size }
            }
        }
    }

    fn render_tree(&self, layout: &ResolvedLayout<Branch6<ResolvedLayout<V0::Sublayout>, ResolvedLayout<V1::Sublayout>, ResolvedLayout<V2::Sublayout>, ResolvedLayout<V3::Sublayout>, ResolvedLayout<V4::Sublayout>, ResolvedLayout<V5::Sublayout>>>, origin: Point, env: &DefaultEnvironment) -> (r: OneOf6<V0::Renderables, V1::Renderables, V2::Renderables, V3::Renderables, V4::Renderables, V5::Renderables>) {
        match (self, &layout.sublayouts) {
            (Branch6::V0(v), Branch6::V0(l)) => OneOf6::V0(v.render_tree(l, origin, env)),
            (Branch6::V1(v), Branch6::V1(l)) => OneOf6::V1(v.render_tree(l, origin, env)),
            (Branch6::V2(v), Branch6::V2(l)) => OneOf6::V2(v.render_tree(l, origin, env)),
            (Branch6::V3(v), Branch6::V3(l)) => OneOf6::V3(v.render_tree(l, origin, env)),
            (Branch6::V4(v), Branch6::V4(l)) => OneOf6::V4(v.render_tree(l, origin, env)),
            (Branch6::V5(v), Branch6::V5(l)) => OneOf6::V5(v.render_tree(l, origin, env)),
            _ => { proof { assert(false); } unreached() },
        }
    }
}

/// One of 7 views, chosen by the arm of a match.
#[derive(Debug, Clone, PartialEq, Eq)]
pub enum Branch7<V0, V1, V2, V3, V4, V5, V6> {
    V0(V0),
    V1(V1),
    V2(V2),
    V3(V3),
    V4(V4),
    V5(V5),
    V6(V6),
}

impl<V0: ViewLayout, V1: ViewLayout, V2: ViewLayout, V3: ViewLayout, V4: ViewLayout, V5: ViewLayout, V6: ViewLayout> ViewLayout for Branch7<V0, V1, V2, V3, V4, V5, V6> {
    type Sublayout = Branch7<ResolvedLayout<V0::Sublayout>, ResolvedLayout<V1::Sublayout>, ResolvedLayout<V2::Sublayout>, ResolvedLayout<V3::Sublayout>, ResolvedLayout<V4::Sublayout>, ResolvedLayout<V5::Sublayout>, ResolvedLayout<V6::Sublayout>>;
    type Renderables = OneOf7<V0::Renderables, V1::Renderables, V2::Renderables, V3::Renderables, V4::Renderables, V5::Renderables, V6::Renderables>;

    open spec fn spec_priority(&self) -> i8 {
        match self {
            Branch7::V0(v) => v.spec_priority(),
            Branch7::V1(v) => v.spec_priority(),
            Branch7::V2(v) => v.spec_priority(),
            Branch7::V3(v) => v.spec_priority(),
            Branch7::V4(v) => v.spec_priority(),
            Branch7::V5(v) => v.spec_priority(),
            Branch7::V6(v) => v.spec_priority()
        }
    }

    open spec fn spec_is_empty(&self) -> bool {
        match self {
            Branch7::V0(v) => v.spec_is_empty(),
            Branch7::V1(v) => v.spec_is_empty(),
            Branch7::V2(v) => v.spec_is_empty(),
            Branch7::V3(v) => v.spec_is_empty(),
            Branch7::V4(v) => v.spec_is_empty(),
            Branch7::V5(v) => v.spec_is_empty(),
            Branch7::V6(v) => v.spec_is_empty()
        }
    }

    open spec fn admits(&self, offer: ProposedDimensions, env: DefaultEnvironment) -> bool {
        match self {
            Branch7::V0(v) => v.admits(offer, env),
            Branch7::V1(v) => v.admits(offer, env),
            Branch7::V2(v) => v.admits(offer, env),
            Branch7::V3(v) => v.admits(offer, env),
            Branch7::V4(v) => v.admits(offer, env),
            Branch7::V5(v) => v.admits(offer, env),
            Branch7::V6(v) => v.admits(offer, env)
        }
    }

    open spec fn spec_layout(&self, offer: ProposedDimensions, env: DefaultEnvironment) -> ResolvedLayout<Branch7<ResolvedLayout<V0::Sublayout>, ResolvedLayout<V1::Sublayout>, ResolvedLayout<V2::Sublayout>, ResolvedLayout<V3::Sublayout>, ResolvedLayout<V4::Sublayout>, ResolvedLayout<V5::Sublayout>, ResolvedLayout<V6::Sublayout>>> {
        match self {
            Branch7::V0(v) => { let l = v.spec_layout(offer, env); ResolvedLayout { sublayouts: Branch7::V0(l), resolved_size: l.resolved_size } },
            Branch7::V1(v) => { let l = v.spec_layout(offer, env); ResolvedLayout { sublayouts: Branch7::V1(l), resolved_size: l.resolved_size } },
            Branch7::V2(v) => { let l = v.spec_layout(offer, env); ResolvedLayout { sublayouts: Branch7::V2(l), resolved_size: l.resolved_size } },
            Branch7::V3(v) => { let l = v.spec_layout(offer, env); ResolvedLayout { sublayouts: Branch7::V3(l), resolved_size: l.resolved_size } },
            Branch7::V4(v) => { let l = v.spec_layout(offer, env); ResolvedLayout { sublayouts: Branch7::V4(l), resolved_size: l.resolved_size } },
            Branch7::V5(v) => { let l = v.spec_layout(offer, env); ResolvedLayout { sublayouts: Branch7::V5(l), resolved_size: l.resolved_size } },
            Branch7::V6(v) => { let l = v.spec_layout(offer, env); ResolvedLayout { sublayouts: Branch7::V6(l), resolved_size: l.resolved_size } }
        }
    }

    /// A branch renders only a layout of the same branch: layouts cannot be reused across branches.
    open spec fn render_admits(&self, layout: ResolvedLayout<Branch7<ResolvedLayout<V0::Sublayout>, ResolvedLayout<V1::Sublayout>, ResolvedLayout<V2::Sublayout>, ResolvedLayout<V3::Sublayout>, ResolvedLayout<V4::Sublayout>, ResolvedLayout<V5::Sublayout>, ResolvedLayout<V6::Sublayout>>>, origin: Point, env: DefaultEnvironment) -> bool {
        match (self, layout.sublayouts) {
            (Branch7::V0(v), Branch7::V0(l)) => v.render_admits(l, origin, env),
            (Branch7::V1(v), Branch7::V1(l)) => v.render_admits(l, origin, env),
            (Branch7::V2(v), Branch7::V2(l)) => v.render_admits(l, origin, env),
            (Branch7::V3(v), Branch7::V3(l)) => v.render_admits(l, origin, env),
            (Branch7::V4(v), Branch7::V4(l)) => v.render_admits(l, origin, env),
            (Branch7::V5(v), Branch7::V5(l)) => v.render_admits(l, origin, env),
            (Branch7::V6(v), Branch7::V6(l)) => v.render_admits(l, origin, env),
            _ => false,
        }
    }

    open spec fn spec_render_tree(&self, layout: ResolvedLayout<Branch7<ResolvedLayout<V0::Sublayout>, ResolvedLayout<V1::Sublayout>, ResolvedLayout<V2::Sublayout>, ResolvedLayout<V3::Sublayout>, ResolvedLayout<V4::Sublayout>, ResolvedLayout<V5::Sublayout>, ResolvedLayout<V6::Sublayout>>>, origin: Point, env: DefaultEnvironment) -> OneOf7<V0::Renderables, V1::Renderables, V2::Renderables, V3::Renderables, V4::Renderables, V5::Renderables, V6::Renderables> {
        match (self, layout.sublayouts) {
            (Branch7::V0(v), Branch7::V0(l)) => OneOf7::V0(v.spec_render_tree(l, origin, env)),
            (Branch7::V1(v), Branch7::V1(l)) => OneOf7::V1(v.spec_render_tree(l, origin, env)),
            (Branch7::V2(v), Branch7::V2(l)) => OneOf7::V2(v.spec_render_tree(l, origin, env)),
            (Branch7::V3(v), Branch7::V3(l)) => OneOf7::V3(v.spec_render_tree(l, origin, env)),
            (Branch7::V4(v), Branch7::V4(l)) => OneOf7::V4(v.spec_render_tree(l, origin, env)),
            (Branch7::V5(v), Branch7::V5(l)) => OneOf7::V5(v.spec_render_tree(l, origin, env)),
            (Branch7::V6(v), Branch7::V6(l)) => OneOf7::V6(v.spec_render_tree(l, origin, env)),
            _ => arbitrary(),
        }
    }

    fn priority(&self) -> (r: i8) {
        match self {
            Branch7::V0(v) => v.priority(),
            Branch7::V1(v) => v.priority(),
            Branch7::V2(v) => v.priority(),
            Branch7::V3(v) => v.priority(),
            Branch7::V4(v) => v.priority(),
            Branch7::V5(v) => v.priority(),
            Branch7::V6(v) => v.priority()
        }
    }

    fn is_empty(&self) -> (r: bool) {
        match self {
            Branch7::V0(v) => v.is_empty(),
            Branch7::V1(v) => v.is_empty(),
            Branch7::V2(v) => v.is_empty(),
            Branch7::V3(v) => v.is_empty(),
            Branch7::V4(v) => v.is_empty(),
            Branch7::V5(v) => v.is_empty(),
            Branch7::V6(v) => v.is_empty()
        }
    }

    fn layout(&self, offer: &ProposedDimensions, env: &DefaultEnvironment) -> (r: ResolvedLayout<Branch7<ResolvedLayout<V0::Sublayout>, ResolvedLayout<V1::Sublayout>, ResolvedLayout<V2::Sublayout>, ResolvedLayout<V3::Sublayout>, ResolvedLayout<V4::Sublayout>, ResolvedLayout<V5::Sublayout>, ResolvedLayout<V6::Sublayout>>>) {
        match self {
            Branch7::V0(v) => {
                let child_layout = v.layout(offer, env);
                let size = child_layout.resolved_size;
                ResolvedLayout { sublayouts: Branch7::V0(child_layout), resolved_size: size }
            },
            Branch7::V1(v) => {
                let child_layout = v.layout(offer, env);
                let size = child_layout.resolved_size;
                ResolvedLayout { sublayouts: Branch7::V1(child_layout), resolved_size: size }
            },
            Branch7::V2(v) => {
                let child_layout = v.layout(offer, env);
                let size = child_layout.resolved_size;
                ResolvedLayout { sublayouts: Branch7::V2(child_layout), resolved_size: size }
            },
            Branch7::V3(v) => {
                let child_layout = v.layout(offer, env);
                let size = child_layout.resolved_size;
                ResolvedLayout { sublayouts: Branch7::V3(child_layout), resolved_size: size }
            },
            Branch7::V4(v) => {
                let child_layout = v.layout(offer, env);
                let size = child_layout.resolved_size;
                ResolvedLayout { sublayouts: Branch7::V4(child_layout), resolved_size: size }
            },
            Branch7::V5(v) => {
                let child_layout = v.layout(offer, env);
                let size = child_layout.resolved_size;
                ResolvedLayout { sublayouts: Branch7::V5(child_layout), resolved_size: size }
            },
            Branch7::V6(v) => {
                let child_layout = v.layout(offer, env);
                let size = child_layout.resolved_size;
                ResolvedLayout { sublayouts: Branch7::V6(child_layout), resolved_size: size }
            }
        }
    }

    fn render_tree(&self, layout: &ResolvedLayout<Branch7<ResolvedLayout<V0::Sublayout>, ResolvedLayout<V1::Sublayout>, ResolvedLayout<V2::Sublayout>, ResolvedLayout<V3::Sublayout>, ResolvedLayout<V4::Sublayout>, ResolvedLayout<V5::Sublayout>, ResolvedLayout<V6::Sublayout>>>, origin: Point, env: &DefaultEnvironment) -> (r: OneOf7<V0::Renderables, V1::Renderables, V2::Renderables, V3::Renderables, V4::Renderables, V5::Renderables, V6::Renderables>) {
        match (self, &layout.sublayouts) {
            (Branch7::V0(v), Branch7::V0(l)) => OneOf7::V0(v.render_tree(l, origin, env)),
            (Branch7::V1(v), Branch7::V1(l)) => OneOf7::V1(v.render_tree(l, origin, env)),
            (Branch7::V2(v), Branch7::V2(l)) => OneOf7::V2(v.render_tree(l, origin, env)),
            (Branch7::V3(v), Branch7::V3(l)) => OneOf7::V3(v.render_tree(l, origin, env)),
            (Branch7::V4(v), Branch7::V4(l)) => OneOf7::V4(v.render_tree(l, origin, env)),
            (Branch7::V5(v), Branch7::V5(l)) => OneOf7::V5(v.render_tree(l, origin, env)),
            (Branch7::V6(v), Branch7::V6(l)) => OneOf7::V6(v.render_tree(l, origin, env)),
            _ => { proof { assert(false); } unreached() },
        }
    }
}

} // verus!
