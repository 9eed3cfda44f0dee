use vstd::prelude::*;
use vstd::slice::slice_to_vec;
use crate::vertex::Vertex;

verus! {

/// How the GPU assembles the entries of an index buffer into primitives.
#[derive(Clone, Copy, Debug, PartialEq, Eq, Structural)]
pub enum PrimitiveType {
    /// Every three indices form a filled triangle.
    Triangles,
    /// Every two indices form a line segment.
    Lines,
}

/// What a texture shows at coordinates outside 0 to 1.
#[derive(Clone, Copy, Debug, PartialEq, Eq, Structural)]
pub enum TextureWrap {
    /// The texture tiles.
    Repeat,
    /// The texture tiles, every other tile mirrored.
    Mirror,
    /// The texture's edge is stretched.
    Clamp,
}

/// How a texture is sampled between its pixels.
#[derive(Clone, Copy, Debug, PartialEq, Eq, Structural)]
pub enum FilterMode {
    Linear,
    Nearest,
}

/// The settings of a texture of four 8-bit channels per pixel.
#[derive(Clone, Copy, Debug, PartialEq, Eq, Structural)]
pub struct TextureParams {
    pub wrap: TextureWrap,
    pub filter: FilterMode,
    pub width: u32,
    pub height: u32,
}

impl TextureParams {
    /// An empty texture that clamps and filters linearly.
    pub open spec fn spec_default() -> TextureParams {
        TextureParams { wrap: TextureWrap::Clamp, filter: FilterMode::Linear, width: 0, height: 0 }
    }

    /// Whether `len` bytes are the pixels of an image of `img_size`
    /// pixels, four bytes for each, and `u32` can hold their number.
    pub open spec fn holds_image(img_size: (u32, u32), len: int) -> bool {
        len == 4 * img_size.0 * img_size.1 && len <= u32::MAX
    }
}

impl Default for TextureParams {
    fn default() -> (params: TextureParams)
        ensures
            params == TextureParams::spec_default(),
    {
        TextureParams { wrap: TextureWrap::Clamp, filter: FilterMode::Linear, width: 0, height: 0 }
    }
}

/// The type of a vertex attribute.
#[derive(Clone, Copy, Debug, PartialEq, Eq, Structural)]
pub enum VertexFormat {
    /// Two single-precision numbers.
    Float2,
    /// Three single-precision numbers.
    Float3,
}

/// The type of a shader uniform.
#[derive(Clone, Copy, Debug, PartialEq, Eq, Structural)]
pub enum UniformType {
    /// Two single-precision numbers.
    Float2,
    /// A matrix of four by four single-precision numbers.
    Mat4,
}

/// One attribute that a vertex shader reads from each vertex.
#[derive(Clone, Copy, Debug)]
pub struct VertexAttribute {
    pub name: &'static str,
    pub format: VertexFormat,
}

/// One uniform of a shader's uniform block.
#[derive(Clone, Copy, Debug)]
pub struct UniformDesc {
    pub name: &'static str,
    pub uniform_type: UniformType,
}

/// The names and types by which a shader program is driven.
#[derive(Debug)]
pub struct ShaderMeta {
    /// The samplers that the program binds, by name.
    pub images: Vec<&'static str>,
    /// The uniform block, in order.
    pub uniforms: Vec<UniformDesc>,
}

/// Represents settings for a shader.
#[derive(Debug)]
pub struct ShaderParams {
    /// The vertex shader.
    pub vertex_shader: &'static str,
    /// The fragment shader.
    pub fragment_shader: &'static str,
    /// Information about the shader.
    pub meta: ShaderMeta,
}

/// A texture to allocate: its settings and its pixels, row by row.
#[derive(Debug)]
pub struct TextureData {
    pub params: TextureParams,
    pub pixels: Vec<u8>,
}

/// The buffers and the texture that a draw call reads.
#[derive(Debug)]
pub struct Bindings {
    pub vertex_buffer: Vec<Vertex>,
    pub index_buffer: Vec<u16>,
    pub image: TextureData,
}

/// The shader program of a draw call and how it reads the buffers.
#[derive(Debug)]
pub struct Pipeline {
    pub attributes: Vec<VertexAttribute>,
    pub shader: ShaderParams,
    pub primitive_type: PrimitiveType,
}

/// The names and formats of a list of vertex attributes, in order.
pub open spec fn attribute_layout(attributes: Seq<VertexAttribute>) -> Seq<
    (Seq<char>, VertexFormat),
> {
    attributes.map_values(|a: VertexAttribute| (a.name@, a.format))
}

/// The names and types of a list of uniforms, in order.
pub open spec fn uniform_layout(uniforms: Seq<UniformDesc>) -> Seq<(Seq<char>, UniformType)> {
    uniforms.map_values(|u: UniformDesc| (u.name@, u.uniform_type))
}

/// The texts of a list of names, in order.
pub open spec fn name_list(names: Seq<&'static str>) -> Seq<Seq<char>> {
    names.map_values(|n: &'static str| n@)
}

/// The attributes of a colored vertex: `pos` and `color0`.
pub open spec fn colored_attributes() -> Seq<(Seq<char>, VertexFormat)> {
    seq![("pos"@, VertexFormat::Float2), ("color0"@, VertexFormat::Float3)]
}

/// The attributes of a textured vertex: `pos`, `color0` and `tex0`.
pub open spec fn textured_attributes() -> Seq<(Seq<char>, VertexFormat)> {
    seq![
        ("pos"@, VertexFormat::Float2),
        ("color0"@, VertexFormat::Float3),
        ("tex0"@, VertexFormat::Float2),
    ]
}

/// The settings of the white texture that colored geometry is bound with.
pub open spec fn white_texture_params() -> TextureParams {
    TextureParams { wrap: TextureWrap::Clamp, filter: FilterMode::Linear, width: 4, height: 4 }
}

/// The pixels of the white texture: 64 bytes, all `0xFF`.
pub open spec fn white_texture_pixels() -> Seq<u8> {
    Seq::new(64, |i: int| 0xFFu8)
}

/// The corners of an image, with the texture coordinates that map the whole
/// image onto them.
pub open spec fn textured_quad_vertices() -> Seq<Vertex> {
    seq![
        Vertex::textured(-1, 1, 0, 1),
        Vertex::textured(1, 1, 1, 1),
        Vertex::textured(1, -1, 1, 0),
        Vertex::textured(-1, -1, 0, 0),
    ]
}

/// The two triangles of a quad over four corners in winding order.
pub open spec fn quad_indices() -> Seq<u16> {
    seq![0u16, 1u16, 2u16, 0u16, 2u16, 3u16]
}

/// High level description of what one piece of geometry needs on the GPU:
/// a pipeline with its shader, and the bindings of buffers and texture.
#[derive(Debug)]
pub struct GraphicsHandler {
    /// The pipeline used to render vertex and fragment shaders.
    pipeline: Pipeline,
    /// Binds vertex and index buffers as well as textures.
    bindings: Bindings,
}

impl GraphicsHandler {
    pub closed spec fn spec_pipeline(&self) -> &Pipeline {
        &self.pipeline
    }

    pub closed spec fn spec_bindings(&self) -> &Bindings {
        &self.bindings
    }

    /// The vertices of the geometry.
    pub open spec fn vertices(&self) -> Seq<Vertex> {
        self.spec_bindings().vertex_buffer@
    }

    /// The indices of the geometry.
    pub open spec fn indices(&self) -> Seq<u16> {
        self.spec_bindings().index_buffer@
    }

    /// The shader that the geometry is drawn with.
    pub open spec fn shader(&self) -> ShaderParams {
        self.spec_pipeline().shader
    }

    /// Whether this is the description of colored geometry with the given
    /// vertices, indices and primitive type.
    pub open spec fn is_colored(
        &self,
        vertices: Seq<Vertex>,
        indices: Seq<u16>,
        primitive_type: PrimitiveType,
    ) -> bool {
        &&& self.vertices() == vertices
        &&& self.indices() == indices
        &&& self.spec_bindings().image.params == white_texture_params()
        &&& self.spec_bindings().image.pixels@ == white_texture_pixels()
        &&& attribute_layout(self.spec_pipeline().attributes@) == colored_attributes()
        &&& self.spec_pipeline().primitive_type == primitive_type
    }

    /// Whether this is the description of a quad that shows the image
    /// `img_bytes` of `img_size` pixels, with the given texture settings but
    /// for the size.
    pub open spec fn is_textured(
        &self,
        img_size: (u32, u32),
        img_bytes: Seq<u8>,
        texture_params: TextureParams,
    ) -> bool {
        &&& self.vertices() == textured_quad_vertices()
        &&& self.indices() == quad_indices()
        &&& self.spec_bindings().image.params == (TextureParams {
            width: img_size.0,
            height: img_size.1,
            ..texture_params
        })
        &&& self.spec_bindings().image.pixels@ == img_bytes
        &&& attribute_layout(self.spec_pipeline().attributes@) == textured_attributes()
        &&& self.spec_pipeline().primitive_type == PrimitiveType::Triangles
    }

    /// Describes colored geometry: a pipeline with the `primitive_type` and
    /// `shader_params` in it, which reads the attributes `pos` and `color0`,
    /// and bindings with the provided vertices and indices and a white
    /// texture of 4 by 4 pixels.
    pub fn new(
        vertices: &[Vertex],
        indices: &[u16],
        primitive_type: PrimitiveType,
        shader_params: ShaderParams,
    ) -> (handler: GraphicsHandler)
        ensures
            handler.is_colored(vertices@, indices@, primitive_type),
            handler.shader() == shader_params,
    {
        let vertex_buffer = slice_to_vec(vertices);
        let index_buffer = slice_to_vec(indices);

        let mut pixels: Vec<u8> = Vec::new();
        let mut i: usize = 0;
        while i < 64
            invariant
                i <= 64,
                pixels@ == Seq::new(i as nat, |k: int| 0xFFu8),
            decreases 64 - i,
        {
            pixels.push(0xFF);
            i += 1;
        }
        let image = TextureData {
            params: TextureParams {
                wrap: TextureWrap::Clamp,
                filter: FilterMode::Linear,
                width: 4,
                height: 4,
            },
            pixels,
        };

        let bindings = Bindings { vertex_buffer, index_buffer, image };

        let mut attributes: Vec<VertexAttribute> = Vec::new();
        attributes.push(VertexAttribute { name: "pos", format: VertexFormat::Float2 });
        attributes.push(VertexAttribute { name: "color0", format: VertexFormat::Float3 });
        assert(attribute_layout(attributes@) =~= colored_attributes());

        let pipeline = Pipeline { attributes, shader: shader_params, primitive_type };

        GraphicsHandler { pipeline, bindings }
    }

    /// Describes the quad that shows an image, with default texture
    /// settings.
    pub fn from_texture(
        img_size: (u32, u32),
        img_bytes: &[u8],
        shader_params: ShaderParams,
    ) -> (handler: GraphicsHandler)
        requires
            TextureParams::holds_image(img_size, img_bytes@.len() as int),
        ensures
            handler.is_textured(img_size, img_bytes@, TextureParams::spec_default()),
            handler.shader() == shader_params,
    {
        GraphicsHandler::from_texture_with_params(
            img_size,
            img_bytes,
            shader_params,
            TextureParams::default(),
        )
    }

    /// Describes the quad that shows an image, with the texture settings
    /// specified: the four corners with the texture coordinates that map the
    /// image onto them, the two triangles between them, the image as a
    /// texture of its own size, and a pipeline that reads the attributes
    /// `pos`, `color0` and `tex0`.
    ///
    /// The image holds four bytes for each of its pixels.
    pub fn from_texture_with_params(
        img_size: (u32, u32),
        img_bytes: &[u8],
        shader_params: ShaderParams,
        texture_params: TextureParams,
    ) -> (handler: GraphicsHandler)
        requires
            TextureParams::holds_image(img_size, img_bytes@.len() as int),
        ensures
            handler.is_textured(img_size, img_bytes@, texture_params),
            handler.shader() == shader_params,
    {
        let (img_width, img_height) = img_size;
        let mut vertex_buffer: Vec<Vertex> = Vec::new();
        vertex_buffer.push(Vertex::with_tex(-1, 1, 0, 1));
        vertex_buffer.push(Vertex::with_tex(1, 1, 1, 1));
        vertex_buffer.push(Vertex::with_tex(1, -1, 1, 0));
        vertex_buffer.push(Vertex::with_tex(-1, -1, 0, 0));
        assert(vertex_buffer@ =~= textured_quad_vertices());

        let mut index_buffer: Vec<u16> = Vec::new();
        index_buffer.push(0);
        index_buffer.push(1);
        index_buffer.push(2);
        index_buffer.push(0);
        index_buffer.push(2);
        index_buffer.push(3);
        assert(index_buffer@ =~= quad_indices());

        let image = TextureData {
            params: TextureParams {
                wrap: texture_params.wrap,
                filter: texture_params.filter,
                width: img_width,
                height: img_height,
            },
            pixels: slice_to_vec(img_bytes),
        };

        let bindings = Bindings { vertex_buffer, index_buffer, image };

        let mut attributes: Vec<VertexAttribute> = Vec::new();
        attributes.push(VertexAttribute { name: "pos", format: VertexFormat::Float2 });
        attributes.push(VertexAttribute { name: "color0", format: VertexFormat::Float3 });
        attributes.push(VertexAttribute { name: "tex0", format: VertexFormat::Float2 });
        assert(attribute_layout(attributes@) =~= textured_attributes());

        let pipeline = Pipeline {
            attributes,
            shader: shader_params,
            primitive_type: PrimitiveType::Triangles,
        };

        GraphicsHandler { pipeline, bindings }
    }

    /// Returns its pipeline.
    #[verifier::when_used_as_spec(spec_pipeline)]
    pub fn pipeline(&self) -> (pipeline: &Pipeline)
        ensures
            pipeline == self.spec_pipeline(),
    {
        &self.pipeline
    }

    /// Returns its bindings.
    #[verifier::when_used_as_spec(spec_bindings)]
    pub fn bindings(&self) -> (bindings: &Bindings)
        ensures
            bindings == self.spec_bindings(),
    {
        &self.bindings
    }
}

} // verus!
