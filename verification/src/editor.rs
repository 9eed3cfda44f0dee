use vstd::prelude::*;
use crate::graphics_handler::{FilterMode, TextureParams, TextureWrap};
use crate::sprite::Sprite;
use crate::vector::Vector2;

verus! {

/// The editor: the background that lies behind everything it shows.
#[derive(Debug)]
pub struct Editor {
    pub background_image: Sprite,
}

impl Editor {
    /// The texture settings of the background: it tiles, sampled at the
    /// nearest pixel.
    pub open spec fn background_params() -> TextureParams {
        TextureParams {
            filter: FilterMode::Nearest,
            wrap: TextureWrap::Repeat,
            ..TextureParams::spec_default()
        }
    }

    /// Creates the editor of a window of the size `screen_size`, with a
    /// background image whose decoded pixels the caller supplies, four bytes
    /// for each pixel. The background starts at the origin and covers the
    /// window.
    pub fn new(screen_size: Vector2, img_dimensions: (u32, u32), img_bytes: &[u8]) -> (editor:
        Editor)
        requires
            TextureParams::holds_image(img_dimensions, img_bytes@.len() as int),
            img_dimensions.0 <= i32::MAX,
            img_dimensions.1 <= i32::MAX,
        ensures
            editor.background_image.position == (Vector2 { x: 0, y: 0 }),
            editor.background_image.size == screen_size,
            editor.background_image.dimensions == img_dimensions,
            editor.background_image.texture.shows(
                img_dimensions,
                img_bytes@,
                Editor::background_params(),
            ),
    {
        let image_pos = Vector2::new(0, 0);
        let defaults = TextureParams::default();
        let texture_params = TextureParams {
            filter: FilterMode::Nearest,
            wrap: TextureWrap::Repeat,
            width: defaults.width,
            height: defaults.height,
        };

        let mut background_image = Sprite::with_params(
            image_pos,
            img_dimensions,
            img_bytes,
            texture_params,
        );
        background_image.scale_to(screen_size.x, screen_size.y);

        Editor { background_image }
    }

    /// Takes the new size of the window: the background covers it.
    pub fn resize_event(&mut self, width: i32, height: i32)
        ensures
            final(self).background_image.size == (Vector2 { x: width, y: height }),
            final(self).background_image.position == old(self).background_image.position,
            final(self).background_image.texture == old(self).background_image.texture,
            final(self).background_image.dimensions == old(self).background_image.dimensions,
    {
        self.background_image.scale_to(width, height);
    }
}

} // verus!
