use vstd::prelude::*;
use crate::graphics_handler::{
    name_list, uniform_layout, ShaderMeta, ShaderParams, UniformDesc, UniformType,
};
use crate::transform::Mvp;
use crate::vector::Vector2;

verus! {

/// The vertex shader of a colored shape.
pub const VERTEX: &'static str = r#"#version 100
    attribute vec2 pos;
    attribute vec3 color0;

    uniform vec2 offset;
    uniform mat4 mvp;

    varying lowp vec4 color;

    void main() {
        vec4 pos = vec4(pos + offset, 0, 1);
        gl_Position = mvp * pos;
        color = vec4(color0, 1.0);
    }"#;

/// The fragment shader of a colored shape.
pub const FRAGMENT: &'static str = r#"#version 100
    varying lowp vec4 color;

    void main() {
        gl_FragColor = color;
    }
    "#;

/// The samplers of the shape shader: `tex`.
pub open spec fn image_names() -> Seq<Seq<char>> {
    seq!["tex"@]
}

/// The uniform block of the shape shader: `offset`, `mvp`.
pub open spec fn uniform_block() -> Seq<(Seq<char>, UniformType)> {
    seq![("offset"@, UniformType::Float2), ("mvp"@, UniformType::Mat4)]
}

/// Whether `params` are the settings of the shape shader.
pub open spec fn is_shape_shader(params: ShaderParams) -> bool {
    &&& params.vertex_shader@ == VERTEX@
    &&& params.fragment_shader@ == FRAGMENT@
    &&& name_list(params.meta.images@) == image_names()
    &&& uniform_layout(params.meta.uniforms@) == uniform_block()
}

/// The names and types that drive the shape shader.
pub fn meta() -> (meta: ShaderMeta)
    ensures
        name_list(meta.images@) == image_names(),
        uniform_layout(meta.uniforms@) == uniform_block(),
{
    let mut images: Vec<&'static str> = Vec::new();
    images.push("tex");
    assert(name_list(images@) =~= image_names());

    let mut uniforms: Vec<UniformDesc> = Vec::new();
    uniforms.push(UniformDesc { name: "offset", uniform_type: UniformType::Float2 });
    uniforms.push(UniformDesc { name: "mvp", uniform_type: UniformType::Mat4 });
    assert(uniform_layout(uniforms@) =~= uniform_block());

    ShaderMeta { images, uniforms }
}

/// The settings of the shape shader.
pub fn get_shader_params() -> (params: ShaderParams)
    ensures
        is_shape_shader(params),
{
    ShaderParams { vertex_shader: VERTEX, fragment_shader: FRAGMENT, meta: meta() }
}

/// The uniforms of one draw call of the shape shader.
#[derive(Clone, Copy, Debug, PartialEq, Eq, Structural)]
pub struct Uniforms {
    /// What is added to each local vertex before the transform.
    pub offset: Vector2,
    pub mvp: Mvp,
}

} // verus!
