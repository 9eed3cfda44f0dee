use vstd::prelude::*;
use std::collections::HashSet;

verus! {

broadcast use vstd::std_specs::hash::group_hash_axioms;

/// The code of the key W. Key codes are the library's own: a renderer maps
/// the keys of its windowing layer to them, and any key to a code of its
/// own.
pub const KEY_W: u32 = 87;

/// The code of the key S.
pub const KEY_S: u32 = 83;

/// The code of the escape key.
pub const KEY_ESCAPE: u32 = 256;

/// One of the two sticks of a gamepad.
#[derive(Clone, Copy, Debug, PartialEq, Eq, Structural)]
pub enum Stick {
    Left,
    Right,
}

/// An axis of a gamepad.
#[derive(Clone, Copy, Debug, PartialEq, Eq, Structural)]
pub enum Axis {
    LeftStickX,
    LeftStickY,
    RightStickX,
    RightStickY,
}

impl Stick {
    /// The horizontal and the vertical axis of the stick.
    pub open spec fn spec_axes(self) -> (Axis, Axis) {
        match self {
            Stick::Left => (Axis::LeftStickX, Axis::LeftStickY),
            Stick::Right => (Axis::RightStickX, Axis::RightStickY),
        }
    }

    /// The horizontal and the vertical axis of the stick, in this order.
    #[verifier::when_used_as_spec(spec_axes)]
    pub fn axes(self) -> (axes: (Axis, Axis))
        ensures
            axes == self.spec_axes(),
    {
        match self {
            Stick::Left => (Axis::LeftStickX, Axis::LeftStickY),
            Stick::Right => (Axis::RightStickX, Axis::RightStickY),
        }
    }
}

/// Handles the input.
/// Keeps track of the gamepad in use, of the keys and mouse buttons that
/// are held, each by its code, and of the last key released.
#[derive(Debug)]
pub struct InputHandler {
    /// The current gamepad ID.
    current_gamepad_id: Option<usize>,
    /// All the unique keys pressed at a given time.
    keys_pressed: HashSet<u32>,
    /// Similar to `keys_pressed`, but for mouse buttons.
    mouse_buttons_pressed: HashSet<u32>,
    /// Stores the last key that was released after an event.
    last_key_down: Option<u32>,
    /// Stores the last mouse position recorded after an event.
    last_mouse_position: (usize, usize),
}

impl InputHandler {
    /// The keys that are held.
    pub closed spec fn keys(&self) -> Set<u32> {
        self.keys_pressed@
    }

    /// The mouse buttons that are held.
    pub closed spec fn mouse_buttons(&self) -> Set<u32> {
        self.mouse_buttons_pressed@
    }

    /// The key that was released last, until `on_key_release` takes it.
    pub closed spec fn last_released(&self) -> Option<u32> {
        self.last_key_down
    }

    /// The gamepad in use.
    pub closed spec fn gamepad(&self) -> Option<usize> {
        self.current_gamepad_id
    }

    /// Where the mouse was when a button of it was last pressed.
    pub closed spec fn mouse_position(&self) -> (usize, usize) {
        self.last_mouse_position
    }

    /// This handler once the gamepad event `event`, if any, was taken: the
    /// gamepad that sent it is the one in use.
    pub closed spec fn with_gamepad(self, event: Option<usize>) -> InputHandler {
        InputHandler {
            current_gamepad_id: match event {
                Some(id) => Some(id),
                None => self.current_gamepad_id,
            },
            ..self
        }
    }

    /// Whether nothing is held or remembered and no gamepad is in use.
    pub open spec fn is_initial(&self) -> bool {
        &&& self.keys() == Set::<u32>::empty()
        &&& self.mouse_buttons() == Set::<u32>::empty()
        &&& self.last_released() == None::<u32>
        &&& self.gamepad() == None::<usize>
        &&& self.mouse_position() == (0usize, 0usize)
    }

    /// Creates a handler that holds nothing.
    pub fn new() -> (handler: InputHandler)
        ensures
            handler.is_initial(),
    {
        InputHandler::default()
    }

    /// Gets the current used gamepad.
    pub fn current_gamepad(&self) -> (id: Option<usize>)
        ensures
            id == self.gamepad(),
    {
        self.current_gamepad_id
    }

    /// Gets all pressed keys at a given moment.
    pub fn pressed_keys(&self) -> (keys: &HashSet<u32>)
        ensures
            keys@ == self.keys(),
    {
        &self.keys_pressed
    }

    /// Check whether the given key is in the last pressed ones.
    pub fn is_key_pressed(&self, key: u32) -> (pressed: bool)
        ensures
            pressed == self.keys().contains(key),
    {
        self.keys_pressed.contains(&key)
    }

    /// Tells whether `key` is the key that was released last, and forgets
    /// which key that was. The caller runs the code that waits for the
    /// release of `key` when this returns `true`.
    pub fn on_key_release(&mut self, key: u32) -> (released: bool)
        ensures
            released == (old(self).last_released() == Some(key)),
            final(self).last_released() == None::<u32>,
            final(self).keys() == old(self).keys(),
            final(self).mouse_buttons() == old(self).mouse_buttons(),
            final(self).gamepad() == old(self).gamepad(),
            final(self).mouse_position() == old(self).mouse_position(),
    {
        let released = match self.last_key_down {
            Some(last) => last == key,
            None => false,
        };

        self.last_key_down = None;
        released
    }

    /// Takes the event of a gamepad, if there was one: the gamepad that
    /// sent it is the one in use from now on.
    pub fn check_for_gamepad(&mut self, event: Option<usize>)
        ensures
            *final(self) == old(self).with_gamepad(event),
            final(self).gamepad() == (match event {
                Some(id) => Some(id),
                None => old(self).gamepad(),
            }),
            final(self).keys() == old(self).keys(),
            final(self).mouse_buttons() == old(self).mouse_buttons(),
            final(self).last_released() == old(self).last_released(),
            final(self).mouse_position() == old(self).mouse_position(),
    {
        if let Some(id) = event {
            if self.current_gamepad_id == Some(id) {
                return ;
            }
            self.current_gamepad_id = Some(id);
        }
    }

    /// Records that a key went down.
    pub fn key_down_event(&mut self, keycode: u32)
        ensures
            final(self).keys() == old(self).keys().insert(keycode),
            final(self).mouse_buttons() == old(self).mouse_buttons(),
            final(self).last_released() == old(self).last_released(),
            final(self).gamepad() == old(self).gamepad(),
            final(self).mouse_position() == old(self).mouse_position(),
    {
        self.keys_pressed.insert(keycode);
    }

    /// Records that a key went up: it is no longer held, and it is the key
    /// released last.
    pub fn key_up_event(&mut self, keycode: u32)
        ensures
            final(self).keys() == old(self).keys().remove(keycode),
            final(self).last_released() == Some(keycode),
            final(self).mouse_buttons() == old(self).mouse_buttons(),
            final(self).gamepad() == old(self).gamepad(),
            final(self).mouse_position() == old(self).mouse_position(),
    {
        self.keys_pressed.remove(&keycode);
        self.last_key_down = Some(keycode);
    }

    /// Records that a mouse button went down at the position `(x, y)`.
    pub fn mouse_button_down_event(&mut self, button: u32, x: usize, y: usize)
        ensures
            final(self).mouse_buttons() == old(self).mouse_buttons().insert(button),
            final(self).mouse_position() == (x, y),
            final(self).keys() == old(self).keys(),
            final(self).last_released() == old(self).last_released(),
            final(self).gamepad() == old(self).gamepad(),
    {
        self.mouse_buttons_pressed.insert(button);
        self.last_mouse_position = (x, y);
    }

    /// Records that a mouse button went up.
    pub fn mouse_button_up_event(&mut self, button: u32)
        ensures
            final(self).mouse_buttons() == old(self).mouse_buttons().remove(button),
            final(self).mouse_position() == old(self).mouse_position(),
            final(self).keys() == old(self).keys(),
            final(self).last_released() == old(self).last_released(),
            final(self).gamepad() == old(self).gamepad(),
    {
        self.mouse_buttons_pressed.remove(&button);
    }
}

impl Default for InputHandler {
    fn default() -> (handler: InputHandler)
        ensures
            handler.is_initial(),
    {
        let current_gamepad_id = None;
        let keys_pressed = HashSet::new();
        let mouse_buttons_pressed = HashSet::new();
        let last_key_down = None;
        let last_mouse_position = (0, 0);

        InputHandler {
            current_gamepad_id,
            keys_pressed,
            mouse_buttons_pressed,
            last_key_down,
            last_mouse_position,
        }
    }
}

} // verus!
