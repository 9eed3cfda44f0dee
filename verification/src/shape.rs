use vstd::prelude::*;
use vstd::pervasive::unreached;
use crate::color::Color;
use crate::graphics_handler::{quad_indices, GraphicsHandler, PrimitiveType};
use crate::shape::shader::{get_shader_params, is_shape_shader, Uniforms};
use crate::transform::{shape_mvp, DrawRange, Viewport};
use crate::vector::Vector2;
use crate::vertex::Vertex;

pub mod shader;

verus! {

/// The number of sides of the polygon that stands for a circle.
pub const NUMBER_OF_SIDES_IN_CIRCLE: usize = 20;

/// A shape type. Its `Lines` variant represent that it should be
/// rendered with lines instead.
#[derive(Clone, Copy, Debug, PartialEq, Eq, Structural)]
pub enum ShapeType {
    /// A square with a given size.
    Square(i32),
    /// A square with a given size, represented by lines.
    SquareLines(i32),
    /// A rectangle with a width and a height.
    Rectangle(i32, i32),
    /// A rectangle with a width and a height, represented by lines.
    RectangleLines(i32, i32),
    /// A triangle with a base width and a height.
    Triangle(i32, i32),
    /// A triangle with a base width and a height, represented by lines.
    TriangleLines(i32, i32),
    /// A circle with a radius.
    Circle(i32),
    /// A circle with a radius, represented by lines.
    CircleLines(i32),
    /// A line with an starting point and an ending point.
    Line(i32, i32),
}

/// A center position. Determines whether the center should be
/// at the middle or at (-1, 1) vertex coordinates of the texture.
#[derive(Clone, Copy, Debug, PartialEq, Eq, Structural)]
pub enum ShapeCenterPosition {
    /// The middle of the texture, that is, (0, 0).
    Middle,
    /// The top-left edge of the texture, that is, (-1, 1).
    TopLeft,
}

/// Represents the shape settings that can be applied.
#[derive(Clone, Copy, Debug, PartialEq, Eq, Structural)]
pub struct ShapeParams {
    /// Represents the center position of the shape.
    pub center: ShapeCenterPosition,
}

impl Default for ShapeParams {
    fn default() -> (params: ShapeParams)
        ensures
            params == (ShapeParams { center: ShapeCenterPosition::TopLeft }),
    {
        ShapeParams { center: ShapeCenterPosition::TopLeft }
    }
}

/// The four corners of a rectangle: `(-1, 1)`, `(1, 1)`, `(1, -1)` and
/// `(-1, -1)`.
pub open spec fn rectangle_vertices(color: Color) -> Seq<Vertex> {
    seq![
        Vertex::colored(-1, 1, color),
        Vertex::colored(1, 1, color),
        Vertex::colored(1, -1, color),
        Vertex::colored(-1, -1, color),
    ]
}

/// The corners of a rectangle, each one twice, so that every line segment
/// of the outline has end points of its own.
pub open spec fn rectangle_lines_vertices(color: Color) -> Seq<Vertex> {
    seq![
        Vertex::colored(-1, 1, color),
        Vertex::colored(1, 1, color),
        Vertex::colored(1, 1, color),
        Vertex::colored(1, -1, color),
        Vertex::colored(1, -1, color),
        Vertex::colored(-1, -1, color),
        Vertex::colored(-1, -1, color),
        Vertex::colored(-1, 1, color),
    ]
}

/// The line segments of the outline of a rectangle.
pub open spec fn rectangle_lines_indices() -> Seq<u16> {
    seq![
        0u16, 1u16, 4u16, 1u16, 4u16, 5u16, 1u16, 5u16, 6u16, 1u16, 2u16, 6u16,
        3u16, 7u16, 2u16, 2u16, 7u16, 6u16, 0u16, 4u16, 3u16, 3u16, 4u16, 7u16,
    ]
}

/// The three corners of a triangle: `(-1, -1)`, `(0, 1)` and `(1, -1)`.
pub open spec fn triangle_vertices(color: Color) -> Seq<Vertex> {
    seq![
        Vertex::colored(-1, -1, color),
        Vertex::colored(0, 1, color),
        Vertex::colored(1, -1, color),
    ]
}

/// The one triangle over three corners.
pub open spec fn triangle_indices() -> Seq<u16> {
    seq![0u16, 1u16, 2u16]
}

/// The six vertices of the outline of a triangle.
pub open spec fn triangle_lines_vertices(color: Color) -> Seq<Vertex> {
    seq![
        Vertex::colored(-1, -1, color),
        Vertex::colored(0, 1, color),
        Vertex::colored(0, 1, color),
        Vertex::colored(1, 1, color),
        Vertex::colored(1, 1, color),
        Vertex::colored(-1, -1, color),
    ]
}

/// The line segments of the outline of a triangle.
pub open spec fn triangle_lines_indices() -> Seq<u16> {
    seq![0u16, 1u16, 2u16, 3u16, 4u16, 5u16, 2u16, 3u16, 1u16, 4u16, 5u16, 1u16]
}

/// The vertices of a circle: one at each twentieth of a turn, the last
/// where the first is, which closes the loop.
pub open spec fn circle_vertices(color: Color) -> Seq<Vertex> {
    Seq::new(
        (NUMBER_OF_SIDES_IN_CIRCLE + 1) as nat,
        |i: int| Vertex::on_arc(i, NUMBER_OF_SIDES_IN_CIRCLE as int, color),
    )
}

/// The triangle fan of a circle: triangle `i` joins the vertices `0`,
/// `i + 1` and `i + 2`. The last triangle so names the index 21, one past
/// the last vertex.
pub open spec fn circle_indices() -> Seq<u16> {
    Seq::new(
        (NUMBER_OF_SIDES_IN_CIRCLE * 3) as nat,
        |k: int|
            if k % 3 == 0 {
                0u16
            } else {
                (k / 3 + k % 3) as u16
            },
    )
}

impl ShapeType {
    /// Whether geometry exists for this type. The outline of a circle and
    /// the line have none.
    pub open spec fn spec_is_supported(self) -> bool {
        !(self is CircleLines) && !(self is Line)
    }

    /// Tells whether geometry exists for this type, so that a shape of it
    /// can be constructed and drawn.
    #[verifier::when_used_as_spec(spec_is_supported)]
    pub fn is_supported(self) -> (supported: bool)
        ensures
            supported == self.spec_is_supported(),
    {
        match self {
            ShapeType::CircleLines(_) | ShapeType::Line(_, _) => false,
            _ => true,
        }
    }

    /// The type that a shape of this type records: a square is the
    /// rectangle of equal sides.
    pub open spec fn canonical(self) -> ShapeType {
        match self {
            ShapeType::Square(size) => ShapeType::Rectangle(size, size),
            ShapeType::SquareLines(size) => ShapeType::RectangleLines(size, size),
            other => other,
        }
    }

    /// The size of a shape of this type: its width and height, or its
    /// radius both ways.
    pub open spec fn extent(self) -> Vector2 {
        match self {
            ShapeType::Square(size) | ShapeType::SquareLines(size) => Vector2 { x: size, y: size },
            ShapeType::Rectangle(x, y)
            | ShapeType::RectangleLines(x, y)
            | ShapeType::Triangle(x, y)
            | ShapeType::TriangleLines(x, y)
            | ShapeType::Line(x, y) => Vector2 { x, y },
            ShapeType::Circle(r) | ShapeType::CircleLines(r) => Vector2 { x: r, y: r },
        }
    }

    /// The vertices of a shape of this type, in the local space. They do
    /// not depend on the size.
    pub open spec fn vertices(self, color: Color) -> Seq<Vertex> {
        match self {
            ShapeType::Square(_) | ShapeType::Rectangle(_, _) => rectangle_vertices(color),
            ShapeType::SquareLines(_) | ShapeType::RectangleLines(_, _) => rectangle_lines_vertices(
                color,
            ),
            ShapeType::Triangle(_, _) => triangle_vertices(color),
            ShapeType::TriangleLines(_, _) => triangle_lines_vertices(color),
            ShapeType::Circle(_) => circle_vertices(color),
            _ => Seq::empty(),
        }
    }

    /// The indices of a shape of this type.
    pub open spec fn indices(self) -> Seq<u16> {
        match self {
            ShapeType::Square(_) | ShapeType::Rectangle(_, _) => quad_indices(),
            ShapeType::SquareLines(_) | ShapeType::RectangleLines(_, _) => {
                rectangle_lines_indices()
            },
            ShapeType::Triangle(_, _) => triangle_indices(),
            ShapeType::TriangleLines(_, _) => triangle_lines_indices(),
            ShapeType::Circle(_) => circle_indices(),
            _ => Seq::empty(),
        }
    }

    /// How the indices of a shape of this type are assembled: filled
    /// shapes into triangles, outlines into lines.
    pub open spec fn primitive_type(self) -> PrimitiveType {
        match self {
            ShapeType::SquareLines(_)
            | ShapeType::RectangleLines(_, _)
            | ShapeType::TriangleLines(_, _)
            | ShapeType::CircleLines(_)
            | ShapeType::Line(_, _) => PrimitiveType::Lines,
            _ => PrimitiveType::Triangles,
        }
    }

    /// The number of elements that drawing a shape of this type draws.
    pub open spec fn draw_count(self) -> int {
        match self {
            ShapeType::Square(_) | ShapeType::Rectangle(_, _) => 6,
            ShapeType::SquareLines(_) | ShapeType::RectangleLines(_, _) => 24,
            ShapeType::Triangle(_, _) => 3,
            ShapeType::TriangleLines(_, _) => 12,
            ShapeType::Circle(_) => NUMBER_OF_SIDES_IN_CIRCLE * 3,
            _ => 0,
        }
    }
}

impl ShapeCenterPosition {
    /// What is added to each local vertex before the transform: nothing
    /// for a shape placed by its middle, `(1, 1)` for one placed by its
    /// top-left corner.
    pub open spec fn offset(self) -> Vector2 {
        match self {
            ShapeCenterPosition::Middle => Vector2 { x: 0, y: 0 },
            ShapeCenterPosition::TopLeft => Vector2 { x: 1, y: 1 },
        }
    }
}

/// Represents a shape.
#[derive(Debug)]
pub struct Shape {
    /// The shape type, having its size in it.
    pub shape_type: ShapeType,
    /// Where the shape should be placed in screen coordinates.
    pub position: Vector2,
    /// The size of the shape. This is the length of its sides, or the radius.
    pub size: Vector2,
    /// The params of the shape.
    pub params: ShapeParams,
    /// What the shape needs on the GPU.
    pub graphics_handler: GraphicsHandler,
}

impl Shape {
    /// Whether this is the shape that was asked for by the given type,
    /// position, color and params: it records the canonical type and the
    /// size that the type holds, and its geometry is that of the type in
    /// the color, under the shape shader, with as many indices as a draw
    /// call of the type draws.
    pub open spec fn is_built(
        &self,
        shape_type: ShapeType,
        position: Vector2,
        color: Color,
        params: ShapeParams,
    ) -> bool {
        &&& self.shape_type == shape_type.canonical()
        &&& self.position == position
        &&& self.size == shape_type.extent()
        &&& self.params == params
        &&& self.graphics_handler.is_colored(
            shape_type.vertices(color),
            shape_type.indices(),
            shape_type.primitive_type(),
        )
        &&& is_shape_shader(self.graphics_handler.shader())
        &&& self.graphics_handler.indices().len() == self.shape_type.draw_count()
    }

    /// What `draw` hands out for a shape with this type, position, size and
    /// center: the offset of the center, the transform of the shape, and
    /// the elements of its type.
    pub open spec fn draw_call(&self, viewport: Viewport) -> (Uniforms, DrawRange) {
        (
            Uniforms {
                offset: self.params.center.offset(),
                mvp: shape_mvp(self.position, self.size, viewport.spec_window_size()),
            },
            DrawRange::first(self.shape_type.draw_count()),
        )
    }

    /// Constructs a new shape, placed by its top-left corner.
    ///
    /// # Example
    /// ```text
    /// let pos = Vector2::new(125, 250);
    /// let size = 16;
    /// let shape = Shape::new(ShapeType::Square(size), pos, Color::white());
    /// ```
    pub fn new(shape_type: ShapeType, position: Vector2, color: Color) -> (shape: Shape)
        requires
            shape_type.is_supported(),
        ensures
            shape.is_built(
                shape_type,
                position,
                color,
                ShapeParams { center: ShapeCenterPosition::TopLeft },
            ),
    {
        Shape::with_params(shape_type, position, color, ShapeParams::default())
    }

    /// Constructs a shape with the given params.
    ///
    /// A rectangle has 4 vertices and 6 indices, each of which names one of
    /// the vertices, and a circle has 21 vertices and 60 indices, whatever
    /// their sizes.
    ///
    /// # Example
    /// ```text
    /// let pos = Vector2::new(500, 500);
    /// let radius = 16;
    /// let params = ShapeParams { center: ShapeCenterPosition::Middle };
    /// let shape = Shape::with_params(ShapeType::Circle(radius), pos, Color::white(), params);
    /// ```
    pub fn with_params(
        shape_type: ShapeType,
        position: Vector2,
        color: Color,
        params: ShapeParams,
    ) -> (shape: Shape)
        requires
            shape_type.is_supported(),
        ensures
            shape.is_built(shape_type, position, color, params),
            shape_type is Rectangle ==> {
                &&& shape.graphics_handler.vertices().len() == 4
                &&& shape.graphics_handler.indices().len() == 6
                &&& forall|i: int|
                    0 <= i < 6 ==> 0 <= #[trigger] shape.graphics_handler.indices()[i] < 4
            },
            shape_type is Circle ==> {
                &&& shape.graphics_handler.vertices().len() == 21
                &&& shape.graphics_handler.indices().len() == 60
            },
    {
        match shape_type {
            ShapeType::Square(size) => Shape::new_square(position, size, color, params),
            ShapeType::SquareLines(size) => Shape::new_square_lines(position, size, color, params),
            ShapeType::Rectangle(x, y) => {
                let size = Vector2::new(x, y);
                Shape::new_rectangle(position, size, color, params)
            },
            ShapeType::RectangleLines(x, y) => {
                let size = Vector2::new(x, y);
                Shape::new_rectangle_lines(position, size, color, params)
            },
            ShapeType::Triangle(x, y) => {
                let size = Vector2::new(x, y);
                Shape::new_triangle(position, size, color, params)
            },
            ShapeType::TriangleLines(x, y) => {
                let size = Vector2::new(x, y);
                Shape::new_triangle_lines(position, size, color, params)
            },
            ShapeType::Circle(r) => Shape::new_circle(position, r, color, params),
            _ => unreached(),
        }
    }

    /// Creates a square with the position and size given.
    fn new_square(position: Vector2, size: i32, color: Color, params: ShapeParams) -> (shape: Shape)
        ensures
            shape.is_built(ShapeType::Square(size), position, color, params),
    {
        let size = Vector2::new(size, size);
        Shape::new_rectangle(position, size, color, params)
    }

    /// Creates a square's contour.
    fn new_square_lines(position: Vector2, size: i32, color: Color, params: ShapeParams) -> (shape:
        Shape)
        ensures
            shape.is_built(ShapeType::SquareLines(size), position, color, params),
    {
        let size = Vector2::new(size, size);
        Shape::new_rectangle_lines(position, size, color, params)
    }

    /// Creates a rectangle with the position and size given.
    fn new_rectangle(position: Vector2, size: Vector2, color: Color, params: ShapeParams) -> (shape:
        Shape)
        ensures
            shape.is_built(ShapeType::Rectangle(size.x, size.y), position, color, params),
            shape.graphics_handler.vertices().len() == 4,
            shape.graphics_handler.indices().len() == 6,
            forall|i: int| 0 <= i < 6 ==> 0 <= #[trigger] shape.graphics_handler.indices()[i] < 4,
    {
        let mut vertices: Vec<Vertex> = Vec::new();
        vertices.push(Vertex::new(-1, 1, color));
        vertices.push(Vertex::new(1, 1, color));
        vertices.push(Vertex::new(1, -1, color));
        vertices.push(Vertex::new(-1, -1, color));
        assert(vertices@ =~= rectangle_vertices(color));

        let mut indices: Vec<u16> = Vec::new();
        indices.push(0);
        indices.push(1);
        indices.push(2);
        indices.push(0);
        indices.push(2);
        indices.push(3);
        assert(indices@ =~= quad_indices());

        let shader_params = get_shader_params();
        let draw_mode = PrimitiveType::Triangles;
        let graphics_handler = GraphicsHandler::new(
            vertices.as_slice(),
            indices.as_slice(),
            draw_mode,
            shader_params,
        );

        Shape {
            position,
            size,
            graphics_handler,
            params,
            shape_type: ShapeType::Rectangle(size.x, size.y),
        }
    }

    /// Creates a rectangle's contour.
    fn new_rectangle_lines(
        position: Vector2,
        size: Vector2,
        color: Color,
        params: ShapeParams,
    ) -> (shape: Shape)
        ensures
            shape.is_built(ShapeType::RectangleLines(size.x, size.y), position, color, params),
    {
        let mut vertices: Vec<Vertex> = Vec::new();
        vertices.push(Vertex::new(-1, 1, color));
        vertices.push(Vertex::new(1, 1, color));
        vertices.push(Vertex::new(1, 1, color));
        vertices.push(Vertex::new(1, -1, color));
        vertices.push(Vertex::new(1, -1, color));
        vertices.push(Vertex::new(-1, -1, color));
        vertices.push(Vertex::new(-1, -1, color));
        vertices.push(Vertex::new(-1, 1, color));
        assert(vertices@ =~= rectangle_lines_vertices(color));

        let mut indices: Vec<u16> = Vec::new();
        indices.push(0);
        indices.push(1);
        indices.push(4);
        indices.push(1);
        indices.push(4);
        indices.push(5);
        indices.push(1);
        indices.push(5);
        indices.push(6);
        indices.push(1);
        indices.push(2);
        indices.push(6);
        indices.push(3);
        indices.push(7);
        indices.push(2);
        indices.push(2);
        indices.push(7);
        indices.push(6);
        indices.push(0);
        indices.push(4);
        indices.push(3);
        indices.push(3);
        indices.push(4);
        indices.push(7);
        assert(indices@ =~= rectangle_lines_indices());

        let shader_params = get_shader_params();
        let draw_mode = PrimitiveType::Lines;
        let graphics_handler = GraphicsHandler::new(
            vertices.as_slice(),
            indices.as_slice(),
            draw_mode,
            shader_params,
        );

        Shape {
            position,
            size,
            graphics_handler,
            params,
            shape_type: ShapeType::RectangleLines(size.x, size.y),
        }
    }

    /// Creates a triangle with the position and size given.
    fn new_triangle(position: Vector2, size: Vector2, color: Color, params: ShapeParams) -> (shape:
        Shape)
        ensures
            shape.is_built(ShapeType::Triangle(size.x, size.y), position, color, params),
    {
        let mut vertices: Vec<Vertex> = Vec::new();
        vertices.push(Vertex::new(-1, -1, color));
        vertices.push(Vertex::new(0, 1, color));
        vertices.push(Vertex::new(1, -1, color));
        assert(vertices@ =~= triangle_vertices(color));

        let mut indices: Vec<u16> = Vec::new();
        indices.push(0);
        indices.push(1);
        indices.push(2);
        assert(indices@ =~= triangle_indices());

        let shader_params = get_shader_params();
        let draw_mode = PrimitiveType::Triangles;
        let graphics_handler = GraphicsHandler::new(
            vertices.as_slice(),
            indices.as_slice(),
            draw_mode,
            shader_params,
        );

        Shape {
            position,
            size,
            graphics_handler,
            params,
            shape_type: ShapeType::Triangle(size.x, size.y),
        }
    }

    /// Creates a triangle's contour.
    fn new_triangle_lines(
        position: Vector2,
        size: Vector2,
        color: Color,
        params: ShapeParams,
    ) -> (shape: Shape)
        ensures
            shape.is_built(ShapeType::TriangleLines(size.x, size.y), position, color, params),
    {
        let mut vertices: Vec<Vertex> = Vec::new();
        vertices.push(Vertex::new(-1, -1, color));
        vertices.push(Vertex::new(0, 1, color));
        vertices.push(Vertex::new(0, 1, color));
        vertices.push(Vertex::new(1, 1, color));
        vertices.push(Vertex::new(1, 1, color));
        vertices.push(Vertex::new(-1, -1, color));
        assert(vertices@ =~= triangle_lines_vertices(color));

        let mut indices: Vec<u16> = Vec::new();
        indices.push(0);
        indices.push(1);
        indices.push(2);
        indices.push(3);
        indices.push(4);
        indices.push(5);
        indices.push(2);
        indices.push(3);
        indices.push(1);
        indices.push(4);
        indices.push(5);
        indices.push(1);
        assert(indices@ =~= triangle_lines_indices());

        let shader_params = get_shader_params();
        let draw_mode = PrimitiveType::Lines;
        let graphics_handler = GraphicsHandler::new(
            vertices.as_slice(),
            indices.as_slice(),
            draw_mode,
            shader_params,
        );

        Shape {
            position,
            size,
            graphics_handler,
            params,
            shape_type: ShapeType::TriangleLines(size.x, size.y),
        }
    }

    /// Creates a new circle with the given position and radius.
    fn new_circle(position: Vector2, radius: i32, color: Color, params: ShapeParams) -> (shape:
        Shape)
        ensures
            shape.is_built(ShapeType::Circle(radius), position, color, params),
            shape.graphics_handler.vertices().len() == 21,
            shape.graphics_handler.indices().len() == 60,
    {
        let mut vertices: Vec<Vertex> = Vec::with_capacity(NUMBER_OF_SIDES_IN_CIRCLE + 2);
        let mut indices: Vec<u16> = Vec::with_capacity(NUMBER_OF_SIDES_IN_CIRCLE * 3);

        let mut i: usize = 0;
        while i < NUMBER_OF_SIDES_IN_CIRCLE + 1
            invariant
                i <= NUMBER_OF_SIDES_IN_CIRCLE + 1,
                vertices@.len() == i,
                forall|k: int|
                    0 <= k < i ==> vertices@[k] == Vertex::on_arc(
                        k,
                        NUMBER_OF_SIDES_IN_CIRCLE as int,
                        color,
                    ),
                indices@.len() == 3 * (if i < NUMBER_OF_SIDES_IN_CIRCLE {
                    i
                } else {
                    NUMBER_OF_SIDES_IN_CIRCLE
                }),
                forall|k: int| 0 <= k < indices@.len() ==> indices@[k] == circle_indices()[k],
            decreases NUMBER_OF_SIDES_IN_CIRCLE + 1 - i,
        {
            let vertex = Vertex::on_circle(i as u16, NUMBER_OF_SIDES_IN_CIRCLE as u16, color);
            vertices.push(vertex);

            if i != NUMBER_OF_SIDES_IN_CIRCLE {
                indices.push(0);
                indices.push(i as u16 + 1);
                indices.push(i as u16 + 2);
            }
            i += 1;
        }
        assert(vertices@ =~= circle_vertices(color));
        assert(indices@ =~= circle_indices());

        let size = Vector2::new(radius, radius);
        let shader_params = get_shader_params();
        let draw_mode = PrimitiveType::Triangles;
        let graphics_handler = GraphicsHandler::new(
            vertices.as_slice(),
            indices.as_slice(),
            draw_mode,
            shader_params,
        );

        Shape { position, size, graphics_handler, shape_type: ShapeType::Circle(radius), params }
    }

    /// Describes the draw call of the shape in the given viewport.
    pub fn draw(&self, viewport: &Viewport) -> (call: (Uniforms, DrawRange))
        requires
            self.shape_type.is_supported(),
        ensures
            call == self.draw_call(*viewport),
    {
        let mvp = viewport.shape_mvp(self.position, self.size);

        let offset = match self.params.center {
            ShapeCenterPosition::Middle => Vector2::new(0, 0),
            ShapeCenterPosition::TopLeft => Vector2::new(1, 1),
        };

        let num_elements: i32 = match self.shape_type {
            ShapeType::Square(_) | ShapeType::Rectangle(_, _) => 6,
            ShapeType::SquareLines(_) | ShapeType::RectangleLines(_, _) => 24,
            ShapeType::Triangle(_, _) => 3,
            ShapeType::TriangleLines(_, _) => 12,
            ShapeType::Circle(_) => NUMBER_OF_SIDES_IN_CIRCLE as i32 * 3,
            _ => 0,
        };

        (Uniforms { offset, mvp }, DrawRange { base_element: 0, num_elements, num_instances: 1 })
    }
}

} // verus!
