//! Font metrics: how far each character advances and how tall a line is.

use vstd::prelude::*;

verus! {

/// The metrics of a font that text is laid out with.
pub trait FontMetrics {
    /// How far the pen moves after drawing a character.
    spec fn spec_advance(&self, c: char) -> u32;

    /// The height of a line of text.
    spec fn spec_line_height(&self) -> u32;

    /// How far the pen moves after drawing `c`.
    fn advance(&self, c: char) -> (r: u32)
        ensures
            r == self.spec_advance(c),
    ;

    /// The height of a line of text.
    fn default_line_height(&self) -> (r: u32)
        ensures
            r == self.spec_line_height(),
    ;
}

/// A font in which every character has the same width.
#[derive(Debug, Clone, Copy, PartialEq, Eq, Structural)]
pub struct MonospaceFont {
    /// The height of a line.
    pub line_height: u32,
    /// The advance of every character, spacing included.
    pub character_width: u32,
}

impl MonospaceFont {
    /// A font with lines `line_height` high and characters `character_width` wide.
    pub fn new(line_height: u32, character_width: u32) -> (r: MonospaceFont)
        ensures
            r == (MonospaceFont { line_height, character_width }),
    {
        MonospaceFont { line_height, character_width }
    }
}

impl FontMetrics for MonospaceFont {
    open spec fn spec_advance(&self, c: char) -> u32 {
        self.character_width
    }

    open spec fn spec_line_height(&self) -> u32 {
        self.line_height
    }

    fn advance(&self, c: char) -> (r: u32) {
        self.character_width
    }

    fn default_line_height(&self) -> (r: u32) {
        self.line_height
    }
}

} // verus!
