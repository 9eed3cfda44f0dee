use vstd::prelude::*;
use crate::graphics_handler::{FilterMode, TextureParams};
use crate::sprite::shader::{get_shader_params, is_sprite_shader, Uniforms};
use crate::texture::Texture;
use crate::transform::{sprite_mvp, tex_scale, DrawRange, Viewport};
use crate::vector::Vector2;

pub mod shader;

verus! {

/// A sprite. Represents an image on the screen.
#[derive(Debug)]
pub struct Sprite {
    /// The position where the sprite will be located, with a center at the
    /// top-left corner of the sprite, in units of the virtual resolution.
    pub position: Vector2,
    /// The size of the sprite. It can be scaled without keeping track of the
    /// dimensions of the loaded texture.
    pub size: Vector2,
    /// The texture the sprite will be rendering.
    pub texture: Texture,
    /// The dimensions of the texture. This may be different than the size,
    /// as is the native size of the texture loaded, rather than the size
    /// of the sprite.
    pub dimensions: (u32, u32),
}

impl Sprite {
    /// Whether this is the sprite of the image `img_bytes` of
    /// `img_dimensions` pixels at its own size, under the given texture
    /// settings.
    pub open spec fn shows(
        &self,
        img_dimensions: (u32, u32),
        img_bytes: Seq<u8>,
        texture_params: TextureParams,
    ) -> bool {
        &&& self.size.x == img_dimensions.0
        &&& self.size.y == img_dimensions.1
        &&& self.dimensions == img_dimensions
        &&& self.texture.shows(img_dimensions, img_bytes, texture_params)
        &&& is_sprite_shader(self.texture.shader())
    }

    /// What `draw` hands out for a sprite with this position, size, wrap
    /// mode and image dimensions: the offset `(1, 1)`, which puts the
    /// top-left corner of the image at the position, the transform of the
    /// sprite, the factors for its texture coordinates, and the six
    /// elements of its quad.
    pub open spec fn draw_call(&self, viewport: Viewport) -> (Uniforms, DrawRange) {
        let scale = tex_scale(
            self.texture.spec_wrap_mode(),
            viewport.spec_window_size(),
            self.dimensions,
        );
        (
            Uniforms {
                offset: Vector2 { x: 1, y: 1 },
                mvp: sprite_mvp(self.position, self.size, viewport),
                tex_scale_x: scale.0,
                tex_scale_y: scale.1,
            },
            DrawRange::first(6),
        )
    }

    /// Creates a new sprite at a given position, for an image file whose
    /// decoded pixels the caller supplies, four bytes for each pixel.
    pub fn new(position: Vector2, img_dimensions: (u32, u32), img_bytes: &[u8]) -> (sprite: Sprite)
        requires
            TextureParams::holds_image(img_dimensions, img_bytes@.len() as int),
            img_dimensions.0 <= i32::MAX,
            img_dimensions.1 <= i32::MAX,
        ensures
            sprite.position == position,
            sprite.shows(img_dimensions, img_bytes@, Texture::nearest_params()),
    {
        let defaults = TextureParams::default();
        Sprite::with_params(
            position,
            img_dimensions,
            img_bytes,
            TextureParams {
                wrap: defaults.wrap,
                filter: FilterMode::Nearest,
                width: defaults.width,
                height: defaults.height,
            },
        )
    }

    /// Creates a sprite at a given position, with the texture settings
    /// specified. The sprite has the size of its image.
    pub fn with_params(
        position: Vector2,
        img_dimensions: (u32, u32),
        img_bytes: &[u8],
        texture_params: TextureParams,
    ) -> (sprite: Sprite)
        requires
            TextureParams::holds_image(img_dimensions, img_bytes@.len() as int),
            img_dimensions.0 <= i32::MAX,
            img_dimensions.1 <= i32::MAX,
        ensures
            sprite.position == position,
            sprite.shows(img_dimensions, img_bytes@, texture_params),
    {
        let shader_params = get_shader_params();
        let texture = Texture::with_params(
            img_dimensions,
            img_bytes,
            shader_params,
            texture_params,
        );
        let (size_x, size_y) = texture.size();
        let size = Vector2::new(size_x as i32, size_y as i32);

        Sprite { position, size, texture, dimensions: (size_x, size_y) }
    }

    /// Scales the sprite to a given width and height.
    pub fn scale_to(&mut self, x: i32, y: i32)
        ensures
            final(self).size == (Vector2 { x, y }),
            final(self).position == old(self).position,
            final(self).texture == old(self).texture,
            final(self).dimensions == old(self).dimensions,
    {
        self.size.x = x;
        self.size.y = y;
    }

    /// Describes the draw call of the sprite in the given viewport.
    pub fn draw(&self, viewport: &Viewport) -> (call: (Uniforms, DrawRange))
        requires
            viewport.wf(),
            self.position.in_range(),
            self.size.in_range(),
        ensures
            call == self.draw_call(*viewport),
    {
        let mvp = viewport.sprite_mvp(self.position, self.size);

        // set the pos of the image to be in respect to the top left corner
        // otherwise it will position the middle of the image in the
        // specified coordinates
        let offset = Vector2::new(1, 1);

        // if the texture repeats, scale the texture coords
        // instead of scaling the image itself
        let (tex_scale_x, tex_scale_y) = viewport.tex_scale(
            self.texture.wrap_mode(),
            self.dimensions,
        );

        (
            Uniforms { offset, mvp, tex_scale_x, tex_scale_y },
            DrawRange { base_element: 0, num_elements: 6, num_instances: 1 },
        )
    }
}

} // verus!
