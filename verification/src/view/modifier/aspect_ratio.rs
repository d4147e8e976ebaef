//! Constrains a child view to an aspect ratio.

use vstd::prelude::*;
use crate::layout::{DefaultEnvironment, ResolvedLayout};
use crate::primitives::{Point, ProposedDimension, ProposedDimensions};
use crate::view::ViewLayout;

verus! {

/// How the child is scaled into the offered space.
#[derive(Debug, Clone, Copy, PartialEq, Eq, Structural)]
pub enum ContentMode {
    /// Scales the child view to fit within the available space while maintaining its aspect ratio.
    Fit,
    /// Scales the child view to fill the available space while maintaining its aspect ratio.
    Fill,
}

/// The aspect ratio to maintain.
#[derive(Debug, Clone, Copy, PartialEq, Eq, Structural)]
pub enum Ratio {
    /// A fixed aspect ratio defined by width and height.
    Fixed(u32, u32),
    /// Maintains the ideal aspect ratio of the child view.
    Ideal,
}

/// Constrains the child to an aspect ratio.
#[derive(Debug, Clone, PartialEq, Eq)]
pub struct AspectRatio<T> {
    pub aspect_ratio: Ratio,
    pub content_mode: ContentMode,
    pub child: T,
}

impl<T> AspectRatio<T> {
    /// Constrains `child` to `aspect_ratio`, scaled according to `content_mode`.
    pub fn new(child: T, aspect_ratio: Ratio, content_mode: ContentMode) -> (r: Self)
        ensures
            r == (AspectRatio { aspect_ratio, content_mode, child }),
    {
        AspectRatio { aspect_ratio, content_mode, child }
    }
}

/// `value * num / den`, with the product required to fit in a `u32`.
pub open spec fn scale(value: u32, num: u32, den: u32) -> u32 {
    ((value as int * num as int) / den as int) as u32
}

/// Whether `value * num` fits in a `u32`.
pub open spec fn product_fits(value: u32, num: u32) -> bool {
    value as int * num as int <= u32::MAX
}

/// Whether the products needed to fit an offer to the ratio `rw : rh` fit in a `u32`.
pub open spec fn ratio_arithmetic_fits(offer: ProposedDimensions, mode: ContentMode, rw: u32, rh: u32) -> bool {
    match (offer.width, offer.height) {
        (ProposedDimension::Exact(w), ProposedDimension::Exact(h)) => product_fits(w, rh) && product_fits(h, rw),
        (ProposedDimension::Exact(w), ProposedDimension::Infinite) => mode == ContentMode::Fill || product_fits(w, rh),
        (ProposedDimension::Infinite, ProposedDimension::Exact(h)) => mode == ContentMode::Fill || product_fits(h, rw),
        (ProposedDimension::Exact(w), ProposedDimension::Compact) => product_fits(w, rh),
        (ProposedDimension::Compact, ProposedDimension::Exact(h)) => product_fits(h, rw),
        _ => true,
    }
}

/// An exact proposal of the given width and height.
pub open spec fn exact_offer(w: u32, h: u32) -> ProposedDimensions {
    ProposedDimensions { width: ProposedDimension::Exact(w), height: ProposedDimension::Exact(h) }
}

/// The proposal made to the child for a nonzero ratio `rw : rh`.
///
/// With both dimensions exact, `Fit` picks the largest size of the ratio within the offer
/// and `Fill` the smallest size of the ratio covering it. With one exact dimension, the
/// other is computed from the ratio, except that `Fill` against an infinite dimension
/// proposes an infinite size. Any other proposal is passed through.
pub open spec fn ratio_offer(offer: ProposedDimensions, mode: ContentMode, rw: u32, rh: u32) -> ProposedDimensions {
    match (offer.width, offer.height) {
        (ProposedDimension::Exact(w), ProposedDimension::Exact(h)) => {
            let aspect_height = scale(w, rh, rw);
            let aspect_width = scale(h, rw, rh);
            match mode {
                ContentMode::Fit => if aspect_height <= h { exact_offer(w, aspect_height) } else { exact_offer(aspect_width, h) },
                ContentMode::Fill => if aspect_height >= h { exact_offer(w, aspect_height) } else { exact_offer(aspect_width, h) },
            }
        },
        (ProposedDimension::Exact(w), ProposedDimension::Infinite) => match mode {
            ContentMode::Fit => exact_offer(w, scale(w, rh, rw)),
            ContentMode::Fill => ProposedDimensions { width: ProposedDimension::Infinite, height: ProposedDimension::Infinite },
        },
        (ProposedDimension::Infinite, ProposedDimension::Exact(h)) => match mode {
            ContentMode::Fit => exact_offer(scale(h, rw, rh), h),
            ContentMode::Fill => ProposedDimensions { width: ProposedDimension::Infinite, height: ProposedDimension::Infinite },
        },
        (ProposedDimension::Exact(w), ProposedDimension::Compact) => exact_offer(w, scale(w, rh, rw)),
        (ProposedDimension::Compact, ProposedDimension::Exact(h)) => exact_offer(scale(h, rw, rh), h),
        _ => offer,
    }
}

/// The proposal made to the child for a nonzero ratio `rw : rh`.
fn fit_offer(offer: ProposedDimensions, mode: ContentMode, rw: u32, rh: u32) -> (r: ProposedDimensions)
    requires
        rw > 0,
        rh > 0,
        ratio_arithmetic_fits(offer, mode, rw, rh),
    ensures
        r == ratio_offer(offer, mode, rw, rh),
{
    match (offer.width, offer.height) {
        (ProposedDimension::Exact(w), ProposedDimension::Exact(h)) => {
            let aspect_height = w * rh / rw;
            let aspect_width = h * rw / rh;
            let (final_width, final_height) = match mode {
                // Choose the smaller scale to fit within bounds
                ContentMode::Fit => if aspect_height <= h { (w, aspect_height) } else { (aspect_width, h) },
                // Choose the larger scale to fill the space
                ContentMode::Fill => if aspect_height >= h { (w, aspect_height) } else { (aspect_width, h) },
            };
            ProposedDimensions::new(ProposedDimension::Exact(final_width), ProposedDimension::Exact(final_height))
        },
        // One exact dimension, one infinite: Fill proposes an infinite size, Fit computes
        (ProposedDimension::Exact(w), ProposedDimension::Infinite) => match mode {
            ContentMode::Fit => {
                let height = w * rh / rw;
                ProposedDimensions::new(ProposedDimension::Exact(w), ProposedDimension::Exact(height))
            },
            ContentMode::Fill => ProposedDimensions::infinite(),
        },
        (ProposedDimension::Infinite, ProposedDimension::Exact(h)) => match mode {
            ContentMode::Fit => {
                let width = h * rw / rh;
                ProposedDimensions::new(ProposedDimension::Exact(width), ProposedDimension::Exact(h))
            },
            ContentMode::Fill => ProposedDimensions::infinite(),
        },
        // One exact dimension, one compact: always compute the missing dimension
        (ProposedDimension::Exact(w), ProposedDimension::Compact) => {
            let height = w * rh / rw;
            ProposedDimensions::new(ProposedDimension::Exact(w), ProposedDimension::Exact(height))
        },
        (ProposedDimension::Compact, ProposedDimension::Exact(h)) => {
            let width = h * rw / rh;
            ProposedDimensions::new(ProposedDimension::Exact(width), ProposedDimension::Exact(h))
        },
        // All other cases delegate to the child
        _ => offer,
    }
}

impl<T: ViewLayout> AspectRatio<T> {
    /// The ratio `(width, height)` the frame maintains: the fixed ratio, or the size of the
    /// child's compact layout.
    pub open spec fn ratio(&self, env: DefaultEnvironment) -> (u32, u32) {
        match self.aspect_ratio {
            Ratio::Fixed(w, h) => (w, h),
            Ratio::Ideal => {
                let ideal = self.child.spec_layout(
                    ProposedDimensions { width: ProposedDimension::Compact, height: ProposedDimension::Compact },
                    env,
                ).resolved_size;
                (ideal.width.0, ideal.height.0)
            },
        }
    }

    /// The proposal the view makes to its child: the offer itself when either ratio
    /// component is zero.
    pub open spec fn child_offer(&self, offer: ProposedDimensions, env: DefaultEnvironment) -> ProposedDimensions {
        let (rw, rh) = self.ratio(env);
        if rw == 0 || rh == 0 { offer } else { ratio_offer(offer, self.content_mode, rw, rh) }
    }
}

impl<T: ViewLayout> ViewLayout for AspectRatio<T> {
    type Sublayout = T::Sublayout;
    type Renderables = T::Renderables;

    open spec fn spec_priority(&self) -> i8 { self.child.spec_priority() }
    open spec fn spec_is_empty(&self) -> bool { self.child.spec_is_empty() }

    open spec fn admits(&self, offer: ProposedDimensions, env: DefaultEnvironment) -> bool {
        let (rw, rh) = self.ratio(env);
        &&& (self.aspect_ratio is Ideal ==> self.child.admits(
            ProposedDimensions { width: ProposedDimension::Compact, height: ProposedDimension::Compact },
            env,
        ))
        &&& (rw != 0 && rh != 0 ==> ratio_arithmetic_fits(offer, self.content_mode, rw, rh))
        &&& self.child.admits(self.child_offer(offer, env), env)
    }

    open spec fn spec_layout(&self, offer: ProposedDimensions, env: DefaultEnvironment) -> ResolvedLayout<T::Sublayout> {
        self.child.spec_layout(self.child_offer(offer, env), env)
    }

    open spec fn render_admits(&self, layout: ResolvedLayout<T::Sublayout>, origin: Point, env: DefaultEnvironment) -> bool {
        self.child.render_admits(layout, origin, env)
    }

    open spec fn spec_render_tree(&self, layout: ResolvedLayout<T::Sublayout>, origin: Point, env: DefaultEnvironment) -> T::Renderables {
        self.child.spec_render_tree(layout, origin, env)
    }

    fn priority(&self) -> (r: i8) { self.child.priority() }

    fn is_empty(&self) -> (r: bool) { self.child.is_empty() }

    fn layout(&self, offer: &ProposedDimensions, env: &DefaultEnvironment) -> (r: ResolvedLayout<T::Sublayout>) {
        let (ratio_width, ratio_height) = match self.aspect_ratio {
            Ratio::Fixed(width, height) => (width, height),
            Ratio::Ideal => {
                // Use the child's ideal size to determine the aspect ratio
                let child_ideal_size = self.child.layout(&ProposedDimensions::compact(), env).resolved_size;
                (child_ideal_size.width.0, child_ideal_size.height.0)
            },
        };
        // Avoid division by zero
        if ratio_width == 0 || ratio_height == 0 {
            return self.child.layout(offer, env);
        }
        let new_offer = fit_offer(*offer, self.content_mode, ratio_width, ratio_height);
        self.child.layout(&new_offer, env)
    }

    fn render_tree(&self, layout: &ResolvedLayout<T::Sublayout>, origin: Point, env: &DefaultEnvironment) -> (r: T::Renderables) {
        // delegate all rendering to the child
        self.child.render_tree(layout, origin, env)
    }
}

/// For an exact offer and a nonzero ratio, `Fit` proposes a size within the offer and
/// `Fill` proposes a size covering it, and the proposal keeps the ratio along the axis
/// it computes.
pub proof fn lemma_fit_within_fill_covers(w: u32, h: u32, rw: u32, rh: u32)
    requires
        rw > 0,
        rh > 0,
        product_fits(w, rh),
        product_fits(h, rw),
    ensures
        ({
            let fit = ratio_offer(exact_offer(w, h), ContentMode::Fit, rw, rh);
            let fill = ratio_offer(exact_offer(w, h), ContentMode::Fill, rw, rh);
            &&& fit.width matches ProposedDimension::Exact(fw) && fw <= w
            &&& fit.height matches ProposedDimension::Exact(fh) && fh <= h
            &&& fill.width matches ProposedDimension::Exact(lw) && lw >= w
            &&& fill.height matches ProposedDimension::Exact(lh) && lh >= h
        }),
{
    let (wi, hi, rwi, rhi) = (w as int, h as int, rw as int, rh as int);
    if (wi * rhi) / rwi > hi {
        // w * rh / rw > h, so w * rh >= (h + 1) * rw and h * rw / rh < w
        assert(wi * rhi >= (hi + 1) * rwi) by (nonlinear_arith)
            requires
                (wi * rhi) / rwi > hi,
                rwi > 0,
        ;
        assert((hi * rwi) / rhi <= wi) by (nonlinear_arith)
            requires
                wi * rhi >= (hi + 1) * rwi,
                rwi > 0,
                rhi > 0,
        ;
    }
    if (wi * rhi) / rwi < hi {
        assert(wi * rhi < hi * rwi) by (nonlinear_arith)
            requires
                (wi * rhi) / rwi < hi,
                rwi > 0,
        ;
        assert((hi * rwi) / rhi >= wi) by (nonlinear_arith)
            requires
                wi * rhi < hi * rwi,
                rhi > 0,
        ;
    }
}

} // verus!
