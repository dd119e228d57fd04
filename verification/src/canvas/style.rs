//! Drawing styles: independently optional outline and fill brightness
//! intents, clamped to the dither range at construction.

use super::dither;
use vstd::prelude::*;

verus! {

/// `b` clamped to the brightness range `[0, 64]`.
pub open spec fn clamp_brightness(b: usize) -> usize {
    if b > 64 {
        64usize
    } else {
        b
    }
}

/// Drawing style. A shape's `outline` and `fill` modes can be independently
/// configured. Each field, if `Some`, indicates the dither brightness.
#[derive(Clone, Copy)]
pub struct Style {
    pub outline: Option<usize>,
    pub fill: Option<usize>,
}

impl Default for Style {
    /// A style with nothing configured.
    fn default() -> (r: Self)
        ensures
            r.outline is None,
            r.fill is None,
    {
        Style { outline: None, fill: None }
    }
}

impl Style {
    /// The outline brightness actually used when drawing edges. If the fill
    /// and the outline are both set to the same brightness, there is no
    /// difference between how they are rendered and it is a waste to draw
    /// the outline; and with no outline configured there is none, whatever
    /// the fill says.
    pub open spec fn spec_distinguishable_outline(self) -> Option<usize> {
        match self.outline {
            None => None,
            Some(o) => match self.fill {
                Some(f) => if f == o {
                    None
                } else {
                    Some(o)
                },
                None => Some(o),
            },
        }
    }

    /// Get a new `Style` object with nothing configured. Using this verbatim
    /// will result in nothing being drawn.
    pub fn none() -> (r: Self)
        ensures
            r.outline is None,
            r.fill is None,
    {
        Self::default()
    }

    /// Get a new `Style` object with the fill set to full brightness.
    pub fn filled() -> (r: Self)
        ensures
            r.outline is None,
            r.fill == Some(64usize),
    {
        Self::none().fill_on()
    }

    /// Get a new `Style` object with the specified fill brightness.
    pub fn filled_with_brightness(brightness: usize) -> (r: Self)
        ensures
            r.outline is None,
            r.fill == Some(clamp_brightness(brightness)),
    {
        Self::none().fill_brightness(brightness)
    }

    /// Get a new `Style` object with the outline set to full brightness.
    pub fn outlined() -> (r: Self)
        ensures
            r.outline == Some(64usize),
            r.fill is None,
    {
        Self::none().outline_on()
    }

    /// Get a new `Style` object with the specified outline brightness.
    pub fn outlined_with_brightness(brightness: usize) -> (r: Self)
        ensures
            r.outline == Some(clamp_brightness(brightness)),
            r.fill is None,
    {
        Self::none().outline_brightness(brightness)
    }

    /// Sets the fill (background) to full brightness (every dot enabled).
    pub fn fill_on(self) -> (r: Self)
        ensures
            r.fill == Some(64usize),
            r.outline == self.outline,
    {
        Self { fill: Some(dither::max_brightness()), ..self }
    }

    /// Sets the raw brightness value (dither threshold) for the fill
    /// (background).
    pub fn fill_brightness(self, brightness: usize) -> (r: Self)
        ensures
            r.fill == Some(clamp_brightness(brightness)),
            r.outline == self.outline,
    {
        let m = dither::max_brightness();
        let b = if brightness < m {
            brightness
        } else {
            m
        };
        Self { fill: Some(b), ..self }
    }

    /// Sets the fill (background) to lowest brightness. Every dot drawn will
    /// be cleared.
    pub fn fill_off(self) -> (r: Self)
        ensures
            r.fill == Some(0usize),
            r.outline == self.outline,
    {
        Self { fill: Some(0), ..self }
    }

    /// Disables the fill. Dots inside the shape drawn will be left unchanged.
    pub fn no_fill(self) -> (r: Self)
        ensures
            r.fill is None,
            r.outline == self.outline,
    {
        Self { fill: None, ..self }
    }

    /// Sets the outline to full brightness (every dot enabled).
    pub fn outline_on(self) -> (r: Self)
        ensures
            r.outline == Some(64usize),
            r.fill == self.fill,
    {
        Self { outline: Some(dither::max_brightness()), ..self }
    }

    /// Sets the raw brightness value (dither threshold) for the outline.
    pub fn outline_brightness(self, brightness: usize) -> (r: Self)
        ensures
            r.outline == Some(clamp_brightness(brightness)),
            r.fill == self.fill,
    {
        let m = dither::max_brightness();
        let b = if brightness < m {
            brightness
        } else {
            m
        };
        Self { outline: Some(b), ..self }
    }

    /// Sets the outline to lowest brightness. Every dot drawn will be
    /// cleared.
    pub fn outline_off(self) -> (r: Self)
        ensures
            r.outline == Some(0usize),
            r.fill == self.fill,
    {
        Self { outline: Some(0), ..self }
    }

    /// Disables the outline.
    pub fn no_outline(self) -> (r: Self)
        ensures
            r.outline is None,
            r.fill == self.fill,
    {
        Self { outline: None, ..self }
    }

    /// Return the "distinguishable outline" for the style.
    pub fn distinguishable_outline(&self) -> (r: Option<usize>)
        ensures
            r == self.spec_distinguishable_outline(),
    {
        match self.outline {
            None => None,
            Some(o) => match self.fill {
                Some(f) => if f == o {
                    None
                } else {
                    Some(o)
                },
                None => Some(o),
            },
        }
    }
}

/// How the distinguishable outline relates to the configured fields: an
/// outline equal to the fill is treated as absent; an outline with no fill
/// present stands unchanged; with no outline configured there is none,
/// whatever the fill; and an outline different from a present fill stands
/// unchanged.
pub proof fn lemma_distinguishable_outline(s: Style)
    ensures
        s.outline is Some && s.fill == s.outline ==> s.spec_distinguishable_outline() is None,
        s.outline is Some && s.fill is None ==> s.spec_distinguishable_outline() == s.outline,
        s.outline is None ==> s.spec_distinguishable_outline() is None,
        s.outline is Some && s.fill is Some && s.fill != s.outline
            ==> s.spec_distinguishable_outline() == s.outline,
{
}

} // verus!
