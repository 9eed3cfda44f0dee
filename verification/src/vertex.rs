use vstd::prelude::*;
use crate::color::Color;

verus! {

/// Where a vertex lies in the local space of its shape, which spans -1 to 1
/// along both axes.
#[derive(Clone, Copy, Debug, PartialEq, Eq, Structural)]
pub enum LocalPosition {
    /// The point with the whole-number coordinates `(x, y)`.
    Grid { x: i8, y: i8 },
    /// The point of the unit circle at `step / sides` of a full turn, that
    /// is at the angle `a = 2 * pi * step / sides`: the point
    /// `(-cos a, sin a)`.
    Arc { step: u16, sides: u16 },
}

/// A point of a texture: `(0, 0)` and `(1, 1)` are opposite corners of the
/// image.
#[derive(Clone, Copy, Debug, PartialEq, Eq, Structural)]
pub struct TexCoord {
    pub s: u8,
    pub t: u8,
}

/// A vertex. It consists of a position, a color and texture coordinates.
#[derive(Clone, Copy, Debug, PartialEq, Eq, Structural)]
pub struct Vertex {
    /// The position of the vertex, in the local space of its shape.
    pub pos: LocalPosition,
    /// The color of the vertex.
    pub color: Color,
    /// The texture coordinates.
    pub tex: TexCoord,
}

impl Vertex {
    /// The vertex at the origin, white, with the texture origin.
    pub open spec fn spec_default() -> Vertex {
        Vertex::colored(0, 0, Color::spec_white())
    }

    /// The colored vertex at the grid point `(x, y)`.
    pub open spec fn colored(x: int, y: int, color: Color) -> Vertex {
        Vertex {
            pos: LocalPosition::Grid { x: x as i8, y: y as i8 },
            color,
            tex: TexCoord { s: 0, t: 0 },
        }
    }

    /// The white vertex at the grid point `(x, y)` that shows the point
    /// `(s, t)` of a texture.
    pub open spec fn textured(x: int, y: int, s: int, t: int) -> Vertex {
        Vertex {
            pos: LocalPosition::Grid { x: x as i8, y: y as i8 },
            color: Color::spec_white(),
            tex: TexCoord { s: s as u8, t: t as u8 },
        }
    }

    /// The colored vertex on the unit circle at `step / sides` of a turn.
    pub open spec fn on_arc(step: int, sides: int, color: Color) -> Vertex {
        Vertex {
            pos: LocalPosition::Arc { step: step as u16, sides: sides as u16 },
            color,
            tex: TexCoord { s: 0, t: 0 },
        }
    }

    /// Creates a new vertex with the given `x`, `y` as a position, and
    /// `color` as the color.
    pub fn new(x: i8, y: i8, color: Color) -> (vertex: Vertex)
        ensures
            vertex == Vertex::colored(x as int, y as int, color),
    {
        Vertex { pos: LocalPosition::Grid { x, y }, color, tex: TexCoord { s: 0, t: 0 } }
    }

    /// Creates a new vertex with the given `x` and `y` as a position as
    /// well as texture coordinates `s` and `t`.
    pub fn with_tex(x: i8, y: i8, s: u8, t: u8) -> (vertex: Vertex)
        ensures
            vertex == Vertex::textured(x as int, y as int, s as int, t as int),
    {
        Vertex { pos: LocalPosition::Grid { x, y }, color: Color::white(), tex: TexCoord { s, t } }
    }

    /// Creates a new vertex on the unit circle, at `step / sides` of a full
    /// turn, with `color` as the color.
    pub fn on_circle(step: u16, sides: u16, color: Color) -> (vertex: Vertex)
        ensures
            vertex == Vertex::on_arc(step as int, sides as int, color),
    {
        Vertex { pos: LocalPosition::Arc { step, sides }, color, tex: TexCoord { s: 0, t: 0 } }
    }
}

impl Default for Vertex {
    fn default() -> (vertex: Vertex)
        ensures
            vertex == Vertex::spec_default(),
    {
        Vertex {
            pos: LocalPosition::Grid { x: 0, y: 0 },
            color: Color::white(),
            tex: TexCoord { s: 0, t: 0 },
        }
    }
}

} // verus!
