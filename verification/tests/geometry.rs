use rusty_engine::color::Color;
use rusty_engine::graphics_handler::{
    FilterMode, GraphicsHandler, PrimitiveType, TextureParams, TextureWrap, UniformType,
    VertexFormat,
};
use rusty_engine::shape::shader as shape_shader;
use rusty_engine::shape::{Shape, ShapeCenterPosition, ShapeParams, ShapeType};
use rusty_engine::sprite::shader as sprite_shader;
use rusty_engine::texture::Texture;
use rusty_engine::transform::Viewport;
use rusty_engine::vector::Vector2;
use rusty_engine::vertex::{LocalPosition, TexCoord, Vertex};

fn grid(vertices: &[Vertex]) -> Vec<(i8, i8)> {
    vertices
        .iter()
        .map(|vertex| match vertex.pos {
            LocalPosition::Grid { x, y } => (x, y),
            LocalPosition::Arc { .. } => panic!("a vertex on the circle"),
        })
        .collect()
}

fn viewport() -> Viewport {
    Viewport::new(Vector2::new(800, 600), Vector2::new(800, 600))
}

#[test]
fn vertex_new_is_colored_at_the_texture_origin() {
    let vertex = Vertex::new(-1, 1, Color::new(1, 2, 3));
    assert_eq!(vertex.pos, LocalPosition::Grid { x: -1, y: 1 });
    assert_eq!(vertex.color, Color::new(1, 2, 3));
    assert_eq!(vertex.tex, TexCoord { s: 0, t: 0 });
}

#[test]
fn vertex_with_tex_is_white() {
    let vertex = Vertex::with_tex(1, -1, 1, 0);
    assert_eq!(vertex.pos, LocalPosition::Grid { x: 1, y: -1 });
    assert_eq!(vertex.color, Color::new(255, 255, 255));
    assert_eq!(vertex.tex, TexCoord { s: 1, t: 0 });
}

#[test]
fn vertex_on_circle_records_its_part_of_the_turn() {
    let vertex = Vertex::on_circle(5, 20, Color::red());
    assert_eq!(vertex.pos, LocalPosition::Arc { step: 5, sides: 20 });
    assert_eq!(vertex.color, Color::red());
    assert_eq!(vertex.tex, TexCoord { s: 0, t: 0 });
}

#[test]
fn vertex_default_is_white_at_the_origin() {
    let vertex = Vertex::default();
    assert_eq!(vertex.pos, LocalPosition::Grid { x: 0, y: 0 });
    assert_eq!(vertex.color, Color::white());
    assert_eq!(vertex.tex, TexCoord { s: 0, t: 0 });
}

#[test]
fn rectangle_has_four_vertices_and_six_valid_indices() {
    for &(w, h) in [(1, 1), (16, 48), (1000, 3), (i32::MAX, i32::MAX)].iter() {
        let shape = Shape::new(ShapeType::Rectangle(w, h), Vector2::new(0, 0), Color::white());
        let bindings = shape.graphics_handler.bindings();
        assert_eq!(bindings.vertex_buffer.len(), 4);
        assert_eq!(bindings.index_buffer.len(), 6);
        assert!(bindings.index_buffer.iter().all(|&index| index < 4));
        assert_eq!(shape.size, Vector2::new(w, h));
        assert_eq!(shape.shape_type, ShapeType::Rectangle(w, h));
    }
}

#[test]
fn rectangle_geometry_is_two_triangles_over_the_corners() {
    let color = Color::new(9, 8, 7);
    let shape = Shape::new(ShapeType::Rectangle(16, 48), Vector2::new(5, 6), color);
    let handler = &shape.graphics_handler;
    assert_eq!(grid(&handler.bindings().vertex_buffer), vec![(-1, 1), (1, 1), (1, -1), (-1, -1)]);
    assert!(handler.bindings().vertex_buffer.iter().all(|vertex| vertex.color == color));
    assert!(handler.bindings().vertex_buffer.iter().all(|v| v.tex == TexCoord { s: 0, t: 0 }));
    assert_eq!(handler.bindings().index_buffer, vec![0, 1, 2, 0, 2, 3]);
    assert_eq!(handler.pipeline().primitive_type, PrimitiveType::Triangles);
    assert_eq!(shape.position, Vector2::new(5, 6));
    assert_eq!(shape.params, ShapeParams { center: ShapeCenterPosition::TopLeft });
}

#[test]
fn degenerate_sizes_still_give_geometry() {
    for &(w, h) in [(0, 0), (-5, 3), (3, -5), (i32::MIN, 0)].iter() {
        let shape = Shape::new(ShapeType::Rectangle(w, h), Vector2::new(0, 0), Color::white());
        assert_eq!(shape.graphics_handler.bindings().vertex_buffer.len(), 4);
        assert_eq!(shape.graphics_handler.bindings().index_buffer.len(), 6);
        assert_eq!(shape.size, Vector2::new(w, h));
    }
    let circle = Shape::new(ShapeType::Circle(-1), Vector2::new(0, 0), Color::white());
    assert_eq!(circle.graphics_handler.bindings().vertex_buffer.len(), 21);
}

#[test]
fn square_is_the_rectangle_of_equal_sides() {
    let shape = Shape::new(ShapeType::Square(16), Vector2::new(125, 250), Color::white());
    assert_eq!(shape.shape_type, ShapeType::Rectangle(16, 16));
    assert_eq!(shape.size, Vector2::new(16, 16));
    assert_eq!(shape.graphics_handler.bindings().index_buffer, vec![0, 1, 2, 0, 2, 3]);
    assert_eq!(shape.graphics_handler.pipeline().primitive_type, PrimitiveType::Triangles);

    let lines = Shape::new(ShapeType::SquareLines(7), Vector2::new(0, 0), Color::white());
    assert_eq!(lines.shape_type, ShapeType::RectangleLines(7, 7));
    assert_eq!(lines.size, Vector2::new(7, 7));
    assert_eq!(lines.graphics_handler.bindings().index_buffer.len(), 24);
}

#[test]
fn rectangle_outline_doubles_the_corners() {
    let shape =
        Shape::new(ShapeType::RectangleLines(16, 48), Vector2::new(0, 0), Color::green());
    let handler = &shape.graphics_handler;
    assert_eq!(
        grid(&handler.bindings().vertex_buffer),
        vec![(-1, 1), (1, 1), (1, 1), (1, -1), (1, -1), (-1, -1), (-1, -1), (-1, 1)]
    );
    assert_eq!(
        handler.bindings().index_buffer,
        vec![0, 1, 4, 1, 4, 5, 1, 5, 6, 1, 2, 6, 3, 7, 2, 2, 7, 6, 0, 4, 3, 3, 4, 7]
    );
    assert!(handler.bindings().index_buffer.iter().all(|&index| index < 8));
    assert_eq!(handler.pipeline().primitive_type, PrimitiveType::Lines);
    assert_eq!(shape.shape_type, ShapeType::RectangleLines(16, 48));
}

#[test]
fn triangle_has_three_vertices_and_indices() {
    let shape = Shape::new(ShapeType::Triangle(10, 20), Vector2::new(0, 0), Color::blue());
    let handler = &shape.graphics_handler;
    assert_eq!(grid(&handler.bindings().vertex_buffer), vec![(-1, -1), (0, 1), (1, -1)]);
    assert_eq!(handler.bindings().index_buffer, vec![0, 1, 2]);
    assert_eq!(handler.pipeline().primitive_type, PrimitiveType::Triangles);
    assert_eq!(shape.size, Vector2::new(10, 20));
    assert_eq!(shape.shape_type, ShapeType::Triangle(10, 20));
}

#[test]
fn triangle_outline_has_six_vertices_and_twelve_indices() {
    let shape = Shape::new(ShapeType::TriangleLines(10, 20), Vector2::new(0, 0), Color::blue());
    let handler = &shape.graphics_handler;
    assert_eq!(
        grid(&handler.bindings().vertex_buffer),
        vec![(-1, -1), (0, 1), (0, 1), (1, 1), (1, 1), (-1, -1)]
    );
    assert_eq!(handler.bindings().index_buffer, vec![0, 1, 2, 3, 4, 5, 2, 3, 1, 4, 5, 1]);
    assert_eq!(handler.pipeline().primitive_type, PrimitiveType::Lines);
    assert_eq!(shape.shape_type, ShapeType::TriangleLines(10, 20));
}

#[test]
fn circle_has_21_vertices_and_60_indices_whatever_the_radius() {
    for &radius in [1, 16, 500, 0, -3].iter() {
        let shape = Shape::new(ShapeType::Circle(radius), Vector2::new(0, 0), Color::white());
        assert_eq!(shape.graphics_handler.bindings().vertex_buffer.len(), 21);
        assert_eq!(shape.graphics_handler.bindings().index_buffer.len(), 60);
        assert_eq!(shape.size, Vector2::new(radius, radius));
        assert_eq!(shape.shape_type, ShapeType::Circle(radius));
    }
}

#[test]
fn circle_is_a_fan_of_twenty_triangles_from_the_first_vertex() {
    let color = Color::new(4, 5, 6);
    let shape = Shape::new(ShapeType::Circle(16), Vector2::new(0, 0), color);
    let bindings = shape.graphics_handler.bindings();
    for (i, vertex) in bindings.vertex_buffer.iter().enumerate() {
        assert_eq!(vertex.pos, LocalPosition::Arc { step: i as u16, sides: 20 });
        assert_eq!(vertex.color, color);
    }
    for i in 0..20 {
        let triangle = &bindings.index_buffer[3 * i..3 * i + 3];
        assert_eq!(triangle, &[0, i as u16 + 1, i as u16 + 2]);
    }
    assert_eq!(bindings.index_buffer[57..60], [0, 20, 21]);
    assert_eq!(shape.graphics_handler.pipeline().primitive_type, PrimitiveType::Triangles);
}

#[test]
fn colored_geometry_is_bound_with_a_white_texture() {
    let shape = Shape::new(ShapeType::Triangle(1, 1), Vector2::new(0, 0), Color::white());
    let image = &shape.graphics_handler.bindings().image;
    assert_eq!(image.pixels, vec![0xFF; 64]);
    assert_eq!(
        image.params,
        TextureParams { wrap: TextureWrap::Clamp, filter: FilterMode::Linear, width: 4, height: 4 }
    );
    let attributes: Vec<(&str, VertexFormat)> = shape
        .graphics_handler
        .pipeline()
        .attributes
        .iter()
        .map(|attribute| (attribute.name, attribute.format))
        .collect();
    assert_eq!(attributes, vec![("pos", VertexFormat::Float2), ("color0", VertexFormat::Float3)]);
}

#[test]
fn graphics_handler_new_keeps_what_it_is_given() {
    let vertices = [Vertex::new(0, 1, Color::red()), Vertex::with_tex(1, 0, 1, 1)];
    let indices = [1, 0, 1];
    let handler = GraphicsHandler::new(
        &vertices,
        &indices,
        PrimitiveType::Lines,
        shape_shader::get_shader_params(),
    );
    assert_eq!(handler.bindings().vertex_buffer, vertices.to_vec());
    assert_eq!(handler.bindings().index_buffer, indices.to_vec());
    assert_eq!(handler.pipeline().primitive_type, PrimitiveType::Lines);
    assert_eq!(handler.pipeline().shader.vertex_shader, shape_shader::VERTEX);
    assert_eq!(handler.pipeline().shader.fragment_shader, shape_shader::FRAGMENT);

    let empty = GraphicsHandler::new(
        &[],
        &[],
        PrimitiveType::Triangles,
        shape_shader::get_shader_params(),
    );
    assert!(empty.bindings().vertex_buffer.is_empty());
    assert!(empty.bindings().index_buffer.is_empty());
    assert_eq!(empty.bindings().image.pixels.len(), 64);
}

#[test]
fn shape_shader_has_offset_and_mvp() {
    let meta = shape_shader::meta();
    assert_eq!(meta.images, vec!["tex"]);
    let uniforms: Vec<(&str, UniformType)> =
        meta.uniforms.iter().map(|uniform| (uniform.name, uniform.uniform_type)).collect();
    assert_eq!(uniforms, vec![("offset", UniformType::Float2), ("mvp", UniformType::Mat4)]);

    let params = shape_shader::get_shader_params();
    assert_eq!(params.vertex_shader, shape_shader::VERTEX);
    assert_eq!(params.fragment_shader, shape_shader::FRAGMENT);
    assert_eq!(params.meta.images, vec!["tex"]);
    assert_eq!(params.meta.uniforms.len(), 2);
    assert!(params.vertex_shader.contains("attribute vec2 pos;"));
    assert!(params.vertex_shader.contains("attribute vec3 color0;"));
    assert!(params.vertex_shader.contains("uniform vec2 offset;"));
    assert!(params.vertex_shader.contains("uniform mat4 mvp;"));
    assert!(!params.vertex_shader.contains("tex0"));
}

#[test]
fn sprite_shader_has_tex_scale_too() {
    let meta = sprite_shader::meta();
    assert_eq!(meta.images, vec!["tex"]);
    let uniforms: Vec<(&str, UniformType)> =
        meta.uniforms.iter().map(|uniform| (uniform.name, uniform.uniform_type)).collect();
    assert_eq!(
        uniforms,
        vec![
            ("offset", UniformType::Float2),
            ("mvp", UniformType::Mat4),
            ("tex_scale", UniformType::Float2)
        ]
    );

    let params = sprite_shader::get_shader_params();
    assert_eq!(params.vertex_shader, sprite_shader::VERTEX);
    assert_eq!(params.fragment_shader, sprite_shader::FRAGMENT);
    assert_eq!(params.meta.uniforms.len(), 3);
    assert!(params.vertex_shader.contains("attribute vec2 tex0;"));
    assert!(params.vertex_shader.contains("uniform vec2 tex_scale;"));
    assert!(params.fragment_shader.contains("uniform sampler2D tex;"));
}

#[test]
fn textured_quad_maps_the_image_onto_the_corners() {
    let bytes: Vec<u8> = (0..24).collect();
    let params = TextureParams {
        wrap: TextureWrap::Repeat,
        filter: FilterMode::Nearest,
        width: 77,
        height: 99,
    };
    let handler = GraphicsHandler::from_texture_with_params(
        (3, 2),
        &bytes,
        sprite_shader::get_shader_params(),
        params,
    );
    let bindings = handler.bindings();
    assert_eq!(grid(&bindings.vertex_buffer), vec![(-1, 1), (1, 1), (1, -1), (-1, -1)]);
    let tex: Vec<(u8, u8)> = bindings.vertex_buffer.iter().map(|v| (v.tex.s, v.tex.t)).collect();
    assert_eq!(tex, vec![(0, 1), (1, 1), (1, 0), (0, 0)]);
    assert!(bindings.vertex_buffer.iter().all(|vertex| vertex.color == Color::white()));
    assert_eq!(bindings.index_buffer, vec![0, 1, 2, 0, 2, 3]);
    assert_eq!(bindings.image.pixels, bytes);
    assert_eq!(
        bindings.image.params,
        TextureParams {
            wrap: TextureWrap::Repeat,
            filter: FilterMode::Nearest,
            width: 3,
            height: 2
        }
    );
    let attributes: Vec<(&str, VertexFormat)> =
        handler.pipeline().attributes.iter().map(|a| (a.name, a.format)).collect();
    assert_eq!(
        attributes,
        vec![
            ("pos", VertexFormat::Float2),
            ("color0", VertexFormat::Float3),
            ("tex0", VertexFormat::Float2)
        ]
    );
    assert_eq!(handler.pipeline().primitive_type, PrimitiveType::Triangles);
    assert_eq!(handler.pipeline().shader.vertex_shader, sprite_shader::VERTEX);
}

#[test]
fn from_texture_takes_the_default_settings() {
    let bytes = [7u8; 16];
    let handler =
        GraphicsHandler::from_texture((2, 2), &bytes, sprite_shader::get_shader_params());
    assert_eq!(
        handler.bindings().image.params,
        TextureParams { wrap: TextureWrap::Clamp, filter: FilterMode::Linear, width: 2, height: 2 }
    );
    assert_eq!(handler.bindings().image.pixels, bytes.to_vec());
}

#[test]
fn texture_params_default_is_an_empty_clamped_texture() {
    assert_eq!(
        TextureParams::default(),
        TextureParams { wrap: TextureWrap::Clamp, filter: FilterMode::Linear, width: 0, height: 0 }
    );
}

#[test]
fn texture_records_size_and_wrap_mode() {
    let bytes = [1u8; 32];
    let params = TextureParams {
        wrap: TextureWrap::Mirror,
        filter: FilterMode::Linear,
        width: 0,
        height: 0,
    };
    let texture =
        Texture::with_params((4, 2), &bytes, sprite_shader::get_shader_params(), params);
    assert_eq!(texture.size(), (4, 2));
    assert_eq!(texture.wrap_mode(), TextureWrap::Mirror);
    assert_eq!(texture.bindings().image.pixels, bytes.to_vec());
    assert_eq!(texture.bindings().image.params.width, 4);
    assert_eq!(texture.bindings().image.params.height, 2);
    assert_eq!(texture.bindings().image.params.wrap, TextureWrap::Mirror);
    assert_eq!(texture.pipeline().attributes.len(), 3);

    let texture = Texture::from_path((4, 2), &bytes, sprite_shader::get_shader_params());
    assert_eq!(texture.size(), (4, 2));
    assert_eq!(texture.wrap_mode(), TextureWrap::Clamp);
    assert_eq!(texture.bindings().image.params.filter, FilterMode::Nearest);

    let empty = Texture::from_path((0, 9), &[], sprite_shader::get_shader_params());
    assert_eq!(empty.size(), (0, 9));
    assert!(empty.bindings().image.pixels.is_empty());
}

#[test]
fn shape_params_default_is_top_left() {
    assert_eq!(ShapeParams::default().center, ShapeCenterPosition::TopLeft);
}

#[test]
fn draw_count_follows_the_shape_type() {
    let viewport = viewport();
    let cases = [
        (ShapeType::Square(1), 6),
        (ShapeType::Rectangle(1, 2), 6),
        (ShapeType::SquareLines(1), 24),
        (ShapeType::RectangleLines(1, 2), 24),
        (ShapeType::Triangle(1, 2), 3),
        (ShapeType::TriangleLines(1, 2), 12),
        (ShapeType::Circle(1), 60),
    ];
    for &(shape_type, count) in cases.iter() {
        let shape = Shape::new(shape_type, Vector2::new(0, 0), Color::white());
        let (_, range) = shape.draw(&viewport);
        assert_eq!(range.base_element, 0);
        assert_eq!(range.num_elements, count);
        assert_eq!(range.num_instances, 1);
        assert_eq!(shape.graphics_handler.bindings().index_buffer.len(), count as usize);
    }
    let mut square = Shape::new(ShapeType::Rectangle(1, 1), Vector2::new(0, 0), Color::white());
    square.shape_type = ShapeType::Square(1);
    assert_eq!(square.draw(&viewport).1.num_elements, 6);
}

#[test]
fn offset_follows_the_center() {
    let viewport = viewport();
    let top_left = Shape::new(ShapeType::Circle(16), Vector2::new(0, 0), Color::white());
    assert_eq!(top_left.draw(&viewport).0.offset, Vector2::new(1, 1));

    let middle = Shape::with_params(
        ShapeType::Circle(16),
        Vector2::new(500, 500),
        Color::white(),
        ShapeParams { center: ShapeCenterPosition::Middle },
    );
    assert_eq!(middle.params.center, ShapeCenterPosition::Middle);
    assert_eq!(middle.draw(&viewport).0.offset, Vector2::new(0, 0));
    assert_eq!(middle.position, Vector2::new(500, 500));
}

#[test]
fn every_type_but_the_circle_outline_and_the_line_has_geometry() {
    assert!(ShapeType::Square(1).is_supported());
    assert!(ShapeType::SquareLines(1).is_supported());
    assert!(ShapeType::Rectangle(1, 2).is_supported());
    assert!(ShapeType::RectangleLines(1, 2).is_supported());
    assert!(ShapeType::Triangle(1, 2).is_supported());
    assert!(ShapeType::TriangleLines(1, 2).is_supported());
    assert!(ShapeType::Circle(1).is_supported());
    assert!(!ShapeType::CircleLines(1).is_supported());
    assert!(!ShapeType::Line(1, 2).is_supported());
}
