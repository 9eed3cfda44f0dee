use vstd::prelude::*;
use crate::editor::Editor;
use crate::graphics_handler::TextureParams;
use crate::input_handler::KEY_ESCAPE;
use crate::sprite::shader::Uniforms;
use crate::sprite::Sprite;
use crate::texture::Texture;
use crate::transform::{DrawRange, Viewport};
use crate::vector::Vector2;

verus! {

/// What the game asks of the window.
#[derive(Clone, Copy, Debug, PartialEq, Eq, Structural)]
pub enum Request {
    /// Close the window.
    Quit,
    /// Enter or leave fullscreen.
    Fullscreen(bool),
}

/// The game. :)
#[derive(Debug)]
pub struct Game {
    pub sprite: Sprite,
    pub editor: Editor,
}

impl Game {
    /// What a key that went down asks of the window: the escape key closes
    /// it.
    pub open spec fn key_request(keycode: u32) -> Option<Request> {
        if keycode == KEY_ESCAPE {
            Some(Request::Quit)
        } else {
            None
        }
    }

    /// What a character that was typed asks of the window: `z` enters
    /// fullscreen and `x` leaves it.
    pub open spec fn char_request(character: char) -> Option<Request> {
        if character == 'z' {
            Some(Request::Fullscreen(true))
        } else if character == 'x' {
            Some(Request::Fullscreen(false))
        } else {
            None
        }
    }

    /// Constructs the game with all the necessary elements into it: the
    /// sprite at `(64, 32)` and the editor of a window of the size
    /// `screen_size`. The caller supplies the decoded pixels of the two
    /// images, four bytes for each pixel.
    pub fn new(
        screen_size: Vector2,
        sprite_dimensions: (u32, u32),
        sprite_bytes: &[u8],
        background_dimensions: (u32, u32),
        background_bytes: &[u8],
    ) -> (game: Game)
        requires
            TextureParams::holds_image(sprite_dimensions, sprite_bytes@.len() as int),
            sprite_dimensions.0 <= i32::MAX,
            sprite_dimensions.1 <= i32::MAX,
            TextureParams::holds_image(background_dimensions, background_bytes@.len() as int),
            background_dimensions.0 <= i32::MAX,
            background_dimensions.1 <= i32::MAX,
        ensures
            game.sprite.position == (Vector2 { x: 64, y: 32 }),
            game.sprite.shows(sprite_dimensions, sprite_bytes@, Texture::nearest_params()),
            game.editor.background_image.position == (Vector2 { x: 0, y: 0 }),
            game.editor.background_image.size == screen_size,
            game.editor.background_image.dimensions == background_dimensions,
            game.editor.background_image.texture.shows(
                background_dimensions,
                background_bytes@,
                Editor::background_params(),
            ),
    {
        let position = Vector2::new(64, 32);
        let sprite = Sprite::new(position, sprite_dimensions, sprite_bytes);
        let editor = Editor::new(screen_size, background_dimensions, background_bytes);

        Game { sprite, editor }
    }

    /// Whether `draw` can describe the frame in `viewport`.
    pub open spec fn drawable(&self, viewport: Viewport) -> bool {
        &&& viewport.wf()
        &&& self.sprite.position.in_range()
        &&& self.sprite.size.in_range()
        &&& self.editor.background_image.position.in_range()
        &&& self.editor.background_image.size.in_range()
    }

    /// Describes the draw calls of a frame: the background, then the
    /// sprite. The editor's own interface goes on top of both.
    pub fn draw(&self, viewport: &Viewport) -> (calls: (
        (Uniforms, DrawRange),
        (Uniforms, DrawRange),
    ))
        requires
            self.drawable(*viewport),
        ensures
            calls.0 == self.editor.background_image.draw_call(*viewport),
            calls.1 == self.sprite.draw_call(*viewport),
    {
        (self.editor.background_image.draw(viewport), self.sprite.draw(viewport))
    }

    /// Takes a key that went down and tells what it asks of the window.
    pub fn key_down_event(&self, keycode: u32) -> (request: Option<Request>)
        ensures
            request == Game::key_request(keycode),
    {
        if keycode == KEY_ESCAPE {
            Some(Request::Quit)
        } else {
            None
        }
    }

    /// Takes a character that was typed and tells what it asks of the
    /// window.
    pub fn char_event(&self, character: char) -> (request: Option<Request>)
        ensures
            request == Game::char_request(character),
    {
        match character {
            'z' => Some(Request::Fullscreen(true)),
            'x' => Some(Request::Fullscreen(false)),
            _ => None,
        }
    }

    /// Takes the new size of the window: the background of the editor
    /// covers it.
    pub fn resize_event(&mut self, width: i32, height: i32)
        ensures
            final(self).editor.background_image.size == (Vector2 { x: width, y: height }),
            final(self).editor.background_image.position
                == old(self).editor.background_image.position,
            final(self).editor.background_image.texture
                == old(self).editor.background_image.texture,
            final(self).editor.background_image.dimensions
                == old(self).editor.background_image.dimensions,
            final(self).sprite == old(self).sprite,
    {
        self.editor.resize_event(width, height);
    }
}

} // verus!
