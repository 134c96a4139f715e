use crate::matrix::character::MatrixChar;
use vstd::prelude::*;

verus! {

/// The colours that the animation uses.
#[derive(Debug, Clone, Copy, PartialEq, Eq, Structural)]
pub enum Color {
    Black,
    White,
    Rgb(u8, u8, u8),
}

/// How much of a glyph's brightness is left at its age, in thousandths: all
/// of it at age 0, nothing from age 20 on.
pub open spec fn fade_permille(age: u8) -> int {
    if age >= 20 {
        0
    } else {
        1000 - age * 50
    }
}

/// The colour of a glyph in a column of the given intensity, in thousandths.
/// A head that has just appeared is white; the others are the darker a green
/// the older they are and the fainter their column is.
pub open spec fn char_color(c: MatrixChar, intensity_permille: u16) -> Color {
    let brightness = fade_permille(c.age) * intensity_permille;
    if c.is_head && c.age == 0 {
        Color::White
    } else if brightness > 800_000 {
        Color::Rgb(0, 255, 0)
    } else if brightness > 600_000 {
        Color::Rgb(0, 220, 0)
    } else if brightness > 400_000 {
        Color::Rgb(0, 180, 0)
    } else if brightness > 200_000 {
        Color::Rgb(0, 120, 0)
    } else {
        Color::Rgb(0, 80, 0)
    }
}

/// The colour of the overlaid text at a progress given in thousandths.
pub open spec fn overlay_color(progress_permille: u16) -> Color {
    if progress_permille < 200 {
        Color::White
    } else if progress_permille < 500 {
        Color::Rgb(0, 255, 100)
    } else if progress_permille < 800 {
        Color::Rgb(0, 200, 150)
    } else {
        Color::Rgb(0, 150, 200)
    }
}

/// Gives the glyphs and the overlay their colours.
pub struct ColorCalculator;

impl ColorCalculator {
    /// A calculator of colours.
    pub fn new() -> Self {
        Self
    }

    /// The colour of a glyph in a column of the given intensity.
    pub fn get_char_color(&self, char_data: &MatrixChar, intensity_permille: u16) -> (r: Color)
        ensures
            r == char_color(*char_data, intensity_permille),
    {
        let fade: u64 = if char_data.age >= 20 {
            0
        } else {
            1000 - (char_data.age as u64) * 50
        };
        assert(fade * (intensity_permille as u64) <= 1000 * 65535) by (nonlinear_arith)
            requires
                fade <= 1000,
                intensity_permille <= 65535,
        ;
        let brightness: u64 = fade * (intensity_permille as u64);
        if char_data.is_head && char_data.age == 0 {
            Color::White
        } else if brightness > 800_000 {
            Color::Rgb(0, 255, 0)
        } else if brightness > 600_000 {
            Color::Rgb(0, 220, 0)
        } else if brightness > 400_000 {
            Color::Rgb(0, 180, 0)
        } else if brightness > 200_000 {
            Color::Rgb(0, 120, 0)
        } else {
            Color::Rgb(0, 80, 0)
        }
    }

    /// The colour of the overlaid text at the given progress.
    pub fn get_overlay_color(&self, progress_permille: u16) -> (r: Color)
        ensures
            r == overlay_color(progress_permille),
    {
        if progress_permille < 200 {
            Color::White
        } else if progress_permille < 500 {
            Color::Rgb(0, 255, 100)
        } else if progress_permille < 800 {
            Color::Rgb(0, 200, 150)
        } else {
            Color::Rgb(0, 150, 200)
        }
    }
}

impl Default for ColorCalculator {
    fn default() -> Self {
        Self::new()
    }
}

} // verus!
