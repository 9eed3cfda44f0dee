use vstd::prelude::*;

verus! {

/// A color. It is represented as 3 `rgb` values, without an alpha.
#[derive(Clone, Copy, Debug, PartialEq, Eq, Structural)]
pub struct Color {
    /// The amount of red.
    pub r: u8,
    /// The amount of green.
    pub g: u8,
    /// The amount of blue.
    pub b: u8,
}

impl Color {
    /// Constructs a new color with the given `rgb` values.
    pub fn new(r: u8, g: u8, b: u8) -> (color: Color)
        ensures
            color == (Color { r, g, b }),
    {
        Color { r, g, b }
    }

    /// The color `(255, 0, 0)`.
    pub open spec fn spec_red() -> Color {
        Color { r: 255, g: 0, b: 0 }
    }

    /// The color `(255, 0, 0)`.
    #[verifier::when_used_as_spec(spec_red)]
    pub fn red() -> (color: Color)
        ensures
            color == Color::spec_red(),
    {
        Color { r: 255, g: 0, b: 0 }
    }

    /// The color `(0, 255, 0)`.
    pub open spec fn spec_green() -> Color {
        Color { r: 0, g: 255, b: 0 }
    }

    /// The color `(0, 255, 0)`.
    #[verifier::when_used_as_spec(spec_green)]
    pub fn green() -> (color: Color)
        ensures
            color == Color::spec_green(),
    {
        Color { r: 0, g: 255, b: 0 }
    }

    /// The color `(0, 0, 255)`.
    pub open spec fn spec_blue() -> Color {
        Color { r: 0, g: 0, b: 255 }
    }

    /// The color `(0, 0, 255)`.
    #[verifier::when_used_as_spec(spec_blue)]
    pub fn blue() -> (color: Color)
        ensures
            color == Color::spec_blue(),
    {
        Color { r: 0, g: 0, b: 255 }
    }

    /// The color `(255, 255, 0)`.
    pub open spec fn spec_yellow() -> Color {
        Color { r: 255, g: 255, b: 0 }
    }

    /// The color `(255, 255, 0)`.
    #[verifier::when_used_as_spec(spec_yellow)]
    pub fn yellow() -> (color: Color)
        ensures
            color == Color::spec_yellow(),
    {
        Color { r: 255, g: 255, b: 0 }
    }

    /// The color `(255, 0, 255)`.
    pub open spec fn spec_magenta() -> Color {
        Color { r: 255, g: 0, b: 255 }
    }

    /// The color `(255, 0, 255)`.
    #[verifier::when_used_as_spec(spec_magenta)]
    pub fn magenta() -> (color: Color)
        ensures
            color == Color::spec_magenta(),
    {
        Color { r: 255, g: 0, b: 255 }
    }

    /// The color `(0, 255, 255)`.
    pub open spec fn spec_cyan() -> Color {
        Color { r: 0, g: 255, b: 255 }
    }

    /// The color `(0, 255, 255)`.
    #[verifier::when_used_as_spec(spec_cyan)]
    pub fn cyan() -> (color: Color)
        ensures
            color == Color::spec_cyan(),
    {
        Color { r: 0, g: 255, b: 255 }
    }

    /// The color `(255, 128, 0)`.
    pub open spec fn spec_orange() -> Color {
        Color { r: 255, g: 128, b: 0 }
    }

    /// The color `(255, 128, 0)`.
    #[verifier::when_used_as_spec(spec_orange)]
    pub fn orange() -> (color: Color)
        ensures
            color == Color::spec_orange(),
    {
        Color { r: 255, g: 128, b: 0 }
    }

    /// The color `(128, 255, 0)`.
    pub open spec fn spec_lightgreen() -> Color {
        Color { r: 128, g: 255, b: 0 }
    }

    /// The color `(128, 255, 0)`.
    #[verifier::when_used_as_spec(spec_lightgreen)]
    pub fn lightgreen() -> (color: Color)
        ensures
            color == Color::spec_lightgreen(),
    {
        Color { r: 128, g: 255, b: 0 }
    }

    /// The color `(0, 255, 128)`.
    pub open spec fn spec_darkgreen() -> Color {
        Color { r: 0, g: 255, b: 128 }
    }

    /// The color `(0, 255, 128)`.
    #[verifier::when_used_as_spec(spec_darkgreen)]
    pub fn darkgreen() -> (color: Color)
        ensures
            color == Color::spec_darkgreen(),
    {
        Color { r: 0, g: 255, b: 128 }
    }

    /// The color `(0, 128, 255)`.
    pub open spec fn spec_lightblue() -> Color {
        Color { r: 0, g: 128, b: 255 }
    }

    /// The color `(0, 128, 255)`.
    #[verifier::when_used_as_spec(spec_lightblue)]
    pub fn lightblue() -> (color: Color)
        ensures
            color == Color::spec_lightblue(),
    {
        Color { r: 0, g: 128, b: 255 }
    }

    /// The color `(128, 0, 255)`.
    pub open spec fn spec_purple() -> Color {
        Color { r: 128, g: 0, b: 255 }
    }

    /// The color `(128, 0, 255)`.
    #[verifier::when_used_as_spec(spec_purple)]
    pub fn purple() -> (color: Color)
        ensures
            color == Color::spec_purple(),
    {
        Color { r: 128, g: 0, b: 255 }
    }

    /// The color `(255, 0, 128)`.
    pub open spec fn spec_pink() -> Color {
        Color { r: 255, g: 0, b: 128 }
    }

    /// The color `(255, 0, 128)`.
    #[verifier::when_used_as_spec(spec_pink)]
    pub fn pink() -> (color: Color)
        ensures
            color == Color::spec_pink(),
    {
        Color { r: 255, g: 0, b: 128 }
    }

    /// The color `(128, 128, 128)`.
    pub open spec fn spec_grey() -> Color {
        Color { r: 128, g: 128, b: 128 }
    }

    /// The color `(128, 128, 128)`.
    #[verifier::when_used_as_spec(spec_grey)]
    pub fn grey() -> (color: Color)
        ensures
            color == Color::spec_grey(),
    {
        Color { r: 128, g: 128, b: 128 }
    }

    /// The color `(0, 0, 0)`.
    pub open spec fn spec_black() -> Color {
        Color { r: 0, g: 0, b: 0 }
    }

    /// The color `(0, 0, 0)`.
    #[verifier::when_used_as_spec(spec_black)]
    pub fn black() -> (color: Color)
        ensures
            color == Color::spec_black(),
    {
        Color { r: 0, g: 0, b: 0 }
    }

    /// The color `(255, 255, 255)`.
    pub open spec fn spec_white() -> Color {
        Color { r: 255, g: 255, b: 255 }
    }

    /// The color `(255, 255, 255)`.
    #[verifier::when_used_as_spec(spec_white)]
    pub fn white() -> (color: Color)
        ensures
            color == Color::spec_white(),
    {
        Color { r: 255, g: 255, b: 255 }
    }
}

} // verus!
