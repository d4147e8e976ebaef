//! A view that shows an image at its own size.

use vstd::prelude::*;
use core::marker::PhantomData;
use crate::layout::{DefaultEnvironment, ResolvedLayout};
use crate::primitives::{Dimension, Dimensions, Point, ProposedDimensions, Size};
use crate::view::ViewLayout;

verus! {

/// Draw an image with its own colours.
#[derive(Debug, Clone, Copy, PartialEq, Eq)]
pub struct Original;

/// Draw an image as a template, in the foreground colour.
#[derive(Debug, Clone, Copy, PartialEq, Eq)]
pub struct Template;

/// An image of a known size, drawn in a mode.
#[derive(Debug)]
pub struct Image<'a, T, Mode> {
    pub image: &'a T,
    pub size: Size,
    pub _mode: PhantomData<Mode>,
}

/// The render tree of an image: the image placed at an origin.
#[derive(Debug)]
pub struct ImageRender<'a, T, Mode> {
    pub origin: Point,
    pub image: &'a T,
    pub _mode: PhantomData<Mode>,
}

impl<'a, T> Image<'a, T, Original> {
    /// An image of the given size, drawn with its own colours.
    pub fn new(image: &'a T, size: Size) -> (r: Self)
        ensures
            r.image == image,
            r.size == size,
    {
        Image { image, size, _mode: PhantomData }
    }

    /// The same image drawn as a template.
    pub fn as_template(self) -> (r: Image<'a, T, Template>)
        ensures
            r.image == self.image,
            r.size == self.size,
    {
        Image { image: self.image, size: self.size, _mode: PhantomData }
    }
}

impl<'a, T, Mode> ViewLayout for Image<'a, T, Mode> {
    type Sublayout = ();
    type Renderables = ImageRender<'a, T, Mode>;

    open spec fn spec_priority(&self) -> i8 { 0 }
    open spec fn spec_is_empty(&self) -> bool { false }

    open spec fn admits(&self, offer: ProposedDimensions, env: DefaultEnvironment) -> bool {
        true
    }

    open spec fn spec_layout(&self, offer: ProposedDimensions, env: DefaultEnvironment) -> ResolvedLayout<()> {
        ResolvedLayout { sublayouts: (), resolved_size: Dimensions { width: Dimension(self.size.width), height: Dimension(self.size.height) } }
    }

    open spec fn render_admits(&self, layout: ResolvedLayout<()>, origin: Point, env: DefaultEnvironment) -> bool {
        true
    }

    open spec fn spec_render_tree(&self, layout: ResolvedLayout<()>, origin: Point, env: DefaultEnvironment) -> ImageRender<'a, T, Mode> {
        ImageRender { origin, image: self.image, _mode: PhantomData }
    }

    fn priority(&self) -> (r: i8) { 0 }

    fn is_empty(&self) -> (r: bool) { false }

    fn layout(&self, offer: &ProposedDimensions, env: &DefaultEnvironment) -> (r: ResolvedLayout<()>) {
        ResolvedLayout { sublayouts: (), resolved_size: Dimensions::new(self.size.width, self.size.height) }
    }

    fn render_tree(&self, layout: &ResolvedLayout<()>, origin: Point, env: &DefaultEnvironment) -> (r: ImageRender<'a, T, Mode>) {
        ImageRender { origin, image: self.image, _mode: PhantomData }
    }
}

} // verus!
