//! The palette and text styles as plain values: colors are RGBA bytes,
//! sizes pixels. The rendering collaborator owns fonts and surfaces and
//! only looks these up.

use vstd::prelude::*;

verus! {

/// Named colors of the game's palette.
#[derive(Copy, Clone, Eq, PartialEq, Structural, Debug, Hash)]
pub enum Palette {
    Background,
}

impl Palette {
    /// The palette entry's color, RGBA bytes.
    pub fn color(&self) -> (r: (u8, u8, u8, u8))
        ensures
            *self == Palette::Background ==> r == (0u8, 0u8, 0u8, 255u8),
    {
        match self {
            Palette::Background => (0, 0, 0, 255),
        }
    }
}

/// The two text styles: the readable face and its drop shadow.
#[derive(Copy, Clone, Eq, PartialEq, Structural, Debug)]
pub enum TextStyles {
    Basic,
    Black,
}

impl TextStyles {
    /// Font size in pixels (8 px glyphs at 4x scale) and fill color.
    pub fn style(&self) -> (r: (u32, (u8, u8, u8, u8)))
        ensures
            *self == TextStyles::Basic ==> r == (32u32, (255u8, 255u8, 255u8, 255u8)),
            *self == TextStyles::Black ==> r == (32u32, (0u8, 0u8, 0u8, 255u8)),
    {
        match self {
            TextStyles::Basic => (32, (255, 255, 255, 255)),
            TextStyles::Black => (32, (0, 0, 0, 255)),
        }
    }

    /// The same style at a given alpha, thousandths mapped onto the byte
    /// range.
    pub fn style_with_alpha(&self, alpha: i64) -> (r: (u32, (u8, u8, u8, u8)))
        requires
            0 <= alpha <= 1000,
        ensures
            r.0 == 32,
            r.1.3 == alpha * 255 / 1000,
            *self == TextStyles::Basic ==> (r.1.0, r.1.1, r.1.2) == (255u8, 255u8, 255u8),
            *self == TextStyles::Black ==> (r.1.0, r.1.1, r.1.2) == (0u8, 0u8, 0u8),
    {
        let (size, color) = self.style();
        let a: u8 = (alpha * 255 / 1000) as u8;
        (size, (color.0, color.1, color.2, a))
    }
}

} // verus!
