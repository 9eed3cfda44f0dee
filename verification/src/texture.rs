use vstd::prelude::*;
use crate::graphics_handler::{
    Bindings, FilterMode, GraphicsHandler, Pipeline, ShaderParams, TextureParams, TextureWrap,
};

verus! {

/// A texture to allocate on the GPU, with what draws it.
#[derive(Debug)]
pub struct Texture {
    /// The size of the image loaded.
    size: (u32, u32),
    wrap_mode: TextureWrap,
    graphics_handler: GraphicsHandler,
}

impl Texture {
    pub closed spec fn spec_size(&self) -> (u32, u32) {
        self.size
    }

    pub closed spec fn spec_wrap_mode(&self) -> TextureWrap {
        self.wrap_mode
    }

    pub closed spec fn spec_graphics_handler(&self) -> &GraphicsHandler {
        &self.graphics_handler
    }

    /// The texture settings of `from_path`: clamped, sampled at the
    /// nearest pixel.
    pub open spec fn nearest_params() -> TextureParams {
        TextureParams { filter: FilterMode::Nearest, ..TextureParams::spec_default() }
    }

    /// The shader that the texture is drawn with.
    pub open spec fn shader(&self) -> ShaderParams {
        self.spec_graphics_handler().shader()
    }

    /// Whether this is the texture of the image `img_bytes` of
    /// `img_dimensions` pixels, under the given texture settings.
    pub open spec fn shows(
        &self,
        img_dimensions: (u32, u32),
        img_bytes: Seq<u8>,
        texture_params: TextureParams,
    ) -> bool {
        &&& self.spec_size() == img_dimensions
        &&& self.spec_wrap_mode() == texture_params.wrap
        &&& self.spec_graphics_handler().is_textured(img_dimensions, img_bytes, texture_params)
    }

    /// Describes the texture of an image file whose decoded pixels the
    /// caller supplies, four bytes for each pixel. The texture clamps and is
    /// sampled at the nearest pixel.
    pub fn from_path(
        img_dimensions: (u32, u32),
        img_bytes: &[u8],
        shader_params: ShaderParams,
    ) -> (texture: Texture)
        requires
            TextureParams::holds_image(img_dimensions, img_bytes@.len() as int),
        ensures
            texture.shows(img_dimensions, img_bytes@, Texture::nearest_params()),
            texture.shader() == shader_params,
    {
        let defaults = TextureParams::default();
        Texture::with_params(
            img_dimensions,
            img_bytes,
            shader_params,
            TextureParams {
                wrap: defaults.wrap,
                filter: FilterMode::Nearest,
                width: defaults.width,
                height: defaults.height,
            },
        )
    }

    /// Describes the texture of a decoded image, four bytes for each pixel,
    /// with the texture settings specified. The width and height of the
    /// settings are replaced by those of the image.
    pub fn with_params(
        img_dimensions: (u32, u32),
        img_bytes: &[u8],
        shader_params: ShaderParams,
        texture_params: TextureParams,
    ) -> (texture: Texture)
        requires
            TextureParams::holds_image(img_dimensions, img_bytes@.len() as int),
        ensures
            texture.shows(img_dimensions, img_bytes@, texture_params),
            texture.shader() == shader_params,
    {
        let graphics_handler = GraphicsHandler::from_texture_with_params(
            img_dimensions,
            img_bytes,
            shader_params,
            texture_params,
        );

        Texture { graphics_handler, size: img_dimensions, wrap_mode: texture_params.wrap }
    }

    /// Returns the pipeline used to render to the screen.
    pub fn pipeline(&self) -> (pipeline: &Pipeline)
        ensures
            pipeline == self.spec_graphics_handler().spec_pipeline(),
    {
        self.graphics_handler.pipeline()
    }

    /// Returns the bindings used to render to the screen.
    pub fn bindings(&self) -> (bindings: &Bindings)
        ensures
            bindings == self.spec_graphics_handler().spec_bindings(),
    {
        self.graphics_handler.bindings()
    }

    /// The size of the image, in pixels.
    #[verifier::when_used_as_spec(spec_size)]
    pub fn size(&self) -> (size: (u32, u32))
        ensures
            size == self.spec_size(),
    {
        self.size
    }

    /// What the texture shows outside its image.
    #[verifier::when_used_as_spec(spec_wrap_mode)]
    pub fn wrap_mode(&self) -> (wrap_mode: TextureWrap)
        ensures
            wrap_mode == self.spec_wrap_mode(),
    {
        self.wrap_mode
    }
}

} // verus!
