use vstd::prelude::*;
use crate::color::Color;
use crate::input_handler::{InputHandler, KEY_S, KEY_W};
use crate::shape::{Shape, ShapeCenterPosition, ShapeParams, ShapeType};
use crate::shape::shader::Uniforms;
use crate::transform::{DrawRange, Viewport};
use crate::vector::{in_range, Vector2, COORD_LIMIT};

verus! {

/// How close to the top and the bottom of the window a paddle comes.
pub const PADDING: i32 = 15;

/// The radius of the ball.
pub const BALL_RADIUS: i32 = 16;

/// The width of a paddle.
pub const PADDLE_WIDTH: i32 = 16;

/// The height of a paddle.
pub const PADDLE_HEIGHT: i32 = 48;

/// Whether `value` is a value of `i32`.
pub open spec fn fits_i32(value: int) -> bool {
    i32::MIN <= value <= i32::MAX
}

/// An axis-aligned box that answers overlap queries, with the outline that
/// shows it.
#[derive(Debug)]
pub struct Collider {
    pub position: Vector2,
    pub size: Vector2,
    pub shape: Shape,
}

impl Collider {
    /// Whether the two boxes intersect. Boxes that only touch do not.
    pub open spec fn spec_overlaps(&self, other: &Collider) -> bool {
        &&& self.position.x < other.position.x + other.size.x
        &&& self.position.x + self.size.x > other.position.x
        &&& self.position.y < other.position.y + other.size.y
        &&& self.position.y + self.size.y > other.position.y
    }

    /// Whether this is the box with the corner `(x, y)`, the width `w` and
    /// the height `h`, with a green outline of this place and size.
    pub open spec fn is_new(&self, x: i32, y: i32, w: i32, h: i32) -> bool {
        &&& self.position == (Vector2 { x, y })
        &&& self.size == (Vector2 { x: w, y: h })
        &&& self.shape.is_built(
            ShapeType::RectangleLines(w, h),
            Vector2 { x, y },
            Color::spec_green(),
            ShapeParams { center: ShapeCenterPosition::TopLeft },
        )
    }

    /// Whether moving the box by `delta` keeps its position, and that of
    /// its outline, within `i32`.
    pub open spec fn can_translate(&self, delta: Vector2) -> bool {
        &&& fits_i32(self.position.x + delta.x)
        &&& fits_i32(self.position.y + delta.y)
        &&& fits_i32(self.shape.position.x + delta.x)
        &&& fits_i32(self.shape.position.y + delta.y)
    }

    /// The box moved by `delta`, with its outline.
    pub open spec fn translated(self, delta: Vector2) -> Collider {
        Collider {
            position: Vector2 {
                x: (self.position.x + delta.x) as i32,
                y: (self.position.y + delta.y) as i32,
            },
            size: self.size,
            shape: Shape {
                position: Vector2 {
                    x: (self.shape.position.x + delta.x) as i32,
                    y: (self.shape.position.y + delta.y) as i32,
                },
                ..self.shape
            },
        }
    }

    /// Creates the box with the corner `(x, y)`, the width `w` and the
    /// height `h`. Its outline is green.
    pub fn new(x: i32, y: i32, w: i32, h: i32) -> (collider: Collider)
        ensures
            collider.is_new(x, y, w, h),
    {
        let position = Vector2::new(x, y);
        let size = Vector2::new(w, h);

        Collider {
            position,
            size,
            shape: Shape::new(ShapeType::RectangleLines(w, h), position, Color::green()),
        }
    }

    /// The corner of the box.
    pub fn pos(&self) -> (pos: (i32, i32))
        ensures
            pos == (self.position.x, self.position.y),
    {
        (self.position.x, self.position.y)
    }

    /// The width and the height of the box.
    pub fn size(&self) -> (size: (i32, i32))
        ensures
            size == (self.size.x, self.size.y),
    {
        (self.size.x, self.size.y)
    }

    /// Tells whether the two boxes intersect. Boxes that only touch, with
    /// an edge of one on an edge of the other, do not.
    #[verifier::when_used_as_spec(spec_overlaps)]
    pub fn overlaps(&self, other: &Collider) -> (hit: bool)
        ensures
            hit == self.spec_overlaps(other),
    {
        let (sx, sy) = self.pos();
        let (sw, sh) = self.size();
        let (ox, oy) = other.pos();
        let (ow, oh) = other.size();

        (sx as i64) < ox as i64 + ow as i64 && sx as i64 + sw as i64 > ox as i64 && (sy as i64)
            < oy as i64 + oh as i64 && sy as i64 + sh as i64 > oy as i64
    }

    /// Describes the draw call of the outline of the box.
    pub fn draw(&self, viewport: &Viewport) -> (call: (Uniforms, DrawRange))
        requires
            self.shape.shape_type.is_supported(),
        ensures
            call == self.shape.draw_call(*viewport),
    {
        self.shape.draw(viewport)
    }

    /// Moves the box, and its outline with it, by `delta`.
    pub fn translate(&mut self, delta: Vector2)
        requires
            old(self).can_translate(delta),
        ensures
            *final(self) == old(self).translated(delta),
    {
        self.position.x = self.position.x + delta.x;
        self.position.y = self.position.y + delta.y;
        self.shape.position.x = self.shape.position.x + delta.x;
        self.shape.position.y = self.shape.position.y + delta.y;
    }
}

/// Overlap does not depend on which box asks.
pub proof fn lemma_overlaps_symmetric(a: Collider, b: Collider)
    ensures
        a.overlaps(&b) == b.overlaps(&a),
{
}

/// Two boxes of which one ends where the other begins, along either axis,
/// do not overlap.
pub proof fn lemma_touching_boxes_do_not_overlap(a: Collider, b: Collider)
    requires
        a.position.x + a.size.x == b.position.x || a.position.y + a.size.y == b.position.y,
    ensures
        !a.overlaps(&b),
        !b.overlaps(&a),
{
}

/// The velocity component of a ball after the walls were looked at: it
/// is reversed where an edge of the ball lies beyond either end of the
/// window along that axis.
pub open spec fn bounced(position: int, velocity: int, extent: int) -> int {
    if position + BALL_RADIUS > extent || position - BALL_RADIUS < 0 {
        -velocity
    } else {
        velocity
    }
}

/// The ball: it moves at a constant speed and bounces off the edges of the
/// window.
#[derive(Debug)]
pub struct Ball {
    pub position: Vector2,
    pub velocity: Vector2,
    pub shape: Shape,
    pub collider: Collider,
}

impl Ball {
    /// Whether the shape and the collider are where the ball is.
    pub open spec fn synced(&self) -> bool {
        &&& self.shape.position == self.position
        &&& self.collider.position == self.position
        &&& self.collider.shape.position == self.position
    }

    /// Whether position and velocity lie within the coordinate limit.
    pub open spec fn in_range(&self) -> bool {
        self.position.in_range() && self.velocity.in_range()
    }

    /// Whether the ball lies inside a window of the size `window`, its
    /// edges on the edges of the window at most.
    pub open spec fn inside(&self, window: Vector2) -> bool {
        &&& 0 <= self.position.x - BALL_RADIUS
        &&& self.position.x + BALL_RADIUS <= window.x
        &&& 0 <= self.position.y - BALL_RADIUS
        &&& self.position.y + BALL_RADIUS <= window.y
    }

    /// The ball with the other horizontal direction.
    pub open spec fn reflected(self) -> Ball {
        Ball { velocity: Vector2 { x: (-self.velocity.x) as i32, y: self.velocity.y }, ..self }
    }

    /// The ball moved by `vel`, with its shape and its collider.
    pub open spec fn moved_by(self, vel: Vector2) -> Ball {
        Ball {
            position: Vector2 {
                x: (self.position.x + vel.x) as i32,
                y: (self.position.y + vel.y) as i32,
            },
            shape: Shape {
                position: Vector2 {
                    x: (self.shape.position.x + vel.x) as i32,
                    y: (self.shape.position.y + vel.y) as i32,
                },
                ..self.shape
            },
            collider: self.collider.translated(vel),
            ..self
        }
    }

    /// The ball after one frame in a window of the size `window`: each
    /// component of the velocity is reversed where the ball is beyond the
    /// window along it, and then the ball moves by the velocity.
    pub open spec fn updated(self, window: Vector2) -> Ball {
        let velocity = Vector2 {
            x: bounced(self.position.x as int, self.velocity.x as int, window.x as int) as i32,
            y: bounced(self.position.y as int, self.velocity.y as int, window.y as int) as i32,
        };
        (Ball { velocity, ..self }).moved_by(velocity)
    }

    /// Creates the ball in the middle of the window, with the velocity
    /// given.
    pub fn new(viewport: &Viewport, initial_velocity: Vector2) -> (ball: Ball)
        requires
            viewport.wf(),
        ensures
            ball.position == (Vector2 {
                x: (viewport.window_size().x / 2) as i32,
                y: (viewport.window_size().y / 2) as i32,
            }),
            ball.velocity == initial_velocity,
            ball.synced(),
            ball.shape.is_built(
                ShapeType::Circle(BALL_RADIUS),
                ball.position,
                Color::spec_white(),
                ShapeParams { center: ShapeCenterPosition::TopLeft },
            ),
            ball.collider.is_new(ball.position.x, ball.position.y, BALL_RADIUS, BALL_RADIUS),
    {
        let window = viewport.window_size();
        let position = Vector2::new(window.x / 2, window.y / 2);

        Ball {
            position,
            velocity: initial_velocity,
            shape: Shape::new(ShapeType::Circle(BALL_RADIUS), position, Color::white()),
            collider: Collider::new(position.x, position.y, BALL_RADIUS, BALL_RADIUS),
        }
    }

    /// The collider of the ball.
    pub fn collider(&self) -> (collider: &Collider)
        ensures
            *collider == self.collider,
    {
        &self.collider
    }

    fn move_by(&mut self, vel: Vector2)
        requires
            old(self).synced(),
            old(self).position.in_range(),
            vel.in_range(),
        ensures
            *final(self) == old(self).moved_by(vel),
            final(self).synced(),
    {
        self.shape.position.x = self.shape.position.x + vel.x;
        self.shape.position.y = self.shape.position.y + vel.y;
        self.collider.translate(vel);
        self.position.x = self.position.x + vel.x;
        self.position.y = self.position.y + vel.y;
    }

    /// Advances the ball by one frame: it bounces off the edges of the
    /// window that it is beyond, and then it moves by its velocity.
    ///
    /// A ball whose left edge is beyond the left edge of the window, and
    /// which moves to the left, moves to the right afterwards. A ball inside
    /// the window keeps its velocity.
    pub fn update(&mut self, viewport: &Viewport)
        requires
            old(self).synced(),
            old(self).in_range(),
            viewport.wf(),
        ensures
            *final(self) == old(self).updated(viewport.window_size()),
            final(self).synced(),
            old(self).position.x - BALL_RADIUS < 0 && old(self).velocity.x < 0
                ==> final(self).velocity.x > 0,
            old(self).inside(viewport.window_size()) ==> final(self).velocity == old(self).velocity,
    {
        let window = viewport.window_size();
        let left_bound_x = self.position.x - BALL_RADIUS;
        let right_bound_x = self.position.x + BALL_RADIUS;
        let top_bound_y = self.position.y - BALL_RADIUS;
        let bottom_bound_y = self.position.y + BALL_RADIUS;

        if right_bound_x > window.x || left_bound_x < 0 {
            self.velocity.x = -self.velocity.x;
        }
        if bottom_bound_y > window.y || top_bound_y < 0 {
            self.velocity.y = -self.velocity.y;
        }
        let velocity = self.velocity;
        self.move_by(velocity)
    }

    /// Whether geometry exists for the shape and for the outline of the
    /// collider.
    pub open spec fn drawable(&self) -> bool {
        self.shape.shape_type.is_supported() && self.collider.shape.shape_type.is_supported()
    }

    /// Describes the draw calls of the ball: its shape, then the outline
    /// of its collider.
    pub fn draw(&self, viewport: &Viewport) -> (calls: (
        (Uniforms, DrawRange),
        (Uniforms, DrawRange),
    ))
        requires
            self.drawable(),
        ensures
            calls.0 == self.shape.draw_call(*viewport),
            calls.1 == self.collider.shape.draw_call(*viewport),
    {
        (self.shape.draw(viewport), self.collider.draw(viewport))
    }
}

/// The lowest position of the top of a paddle of the height `height` in a
/// window of the height `window_height`: the paddle then ends at the
/// padding above the bottom of the window.
pub open spec fn lowest_top(height: int, window_height: int) -> int {
    window_height - PADDING - height
}

/// The vertical velocity of a paddle at `y`: `speed` upward while the key
/// for up is held and the paddle begins below the padding at the top,
/// `speed` downward while the key for down is held and the paddle ends above
/// the padding at the bottom. Both at once cancel.
pub open spec fn paddle_velocity(
    y: int,
    height: int,
    speed: int,
    up: bool,
    down: bool,
    window_height: int,
) -> int {
    (if up && y > PADDING {
        -speed
    } else {
        0
    }) + (if down && y + height < window_height - PADDING {
        speed
    } else {
        0
    })
}

/// The movement that a paddle at `y` makes of the velocity `velocity`: it
/// moves only while it is inside the band from `lo` to `hi` on the side that
/// it moves to, and it stops at the end of the band.
pub open spec fn clamped_step(y: int, velocity: int, lo: int, hi: int) -> int {
    if velocity < 0 {
        if y <= lo {
            0
        } else if y + velocity < lo {
            lo - y
        } else {
            velocity
        }
    } else if velocity > 0 {
        if y >= hi {
            0
        } else if y + velocity > hi {
            hi - y
        } else {
            velocity
        }
    } else {
        0
    }
}

/// The position of a paddle one frame after it was at `y`.
pub open spec fn paddle_step(
    y: int,
    height: int,
    speed: int,
    up: bool,
    down: bool,
    window_height: int,
) -> int {
    y + clamped_step(
        y,
        paddle_velocity(y, height, speed, up, down, window_height),
        PADDING as int,
        lowest_top(height, window_height),
    )
}

/// The position of a paddle after one frame for each entry of `held`, which
/// tells whether the key for up and the key for down were held in that
/// frame.
pub open spec fn paddle_run(
    y: int,
    height: int,
    speed: int,
    held: Seq<(bool, bool)>,
    window_height: int,
) -> int
    decreases held.len(),
{
    if held.len() == 0 {
        y
    } else {
        paddle_step(
            paddle_run(y, height, speed, held.drop_last(), window_height),
            height,
            speed,
            held.last().0,
            held.last().1,
            window_height,
        )
    }
}

/// A paddle between the padding at the top and the padding at the bottom
/// stays there for one frame, whichever keys are held.
pub proof fn lemma_paddle_step_stays_in_band(
    y: int,
    height: int,
    speed: int,
    up: bool,
    down: bool,
    window_height: int,
)
    requires
        PADDING <= y <= lowest_top(height, window_height),
    ensures
        PADDING <= paddle_step(y, height, speed, up, down, window_height) <= lowest_top(
            height,
            window_height,
        ),
{
}

/// A paddle between the padding at the top and the padding at the bottom
/// stays there over any number of frames, however long a key is held.
pub proof fn lemma_paddle_run_stays_in_band(
    y: int,
    height: int,
    speed: int,
    held: Seq<(bool, bool)>,
    window_height: int,
)
    requires
        PADDING <= y <= lowest_top(height, window_height),
    ensures
        PADDING <= paddle_run(y, height, speed, held, window_height) <= lowest_top(
            height,
            window_height,
        ),
    decreases held.len(),
{
    if held.len() > 0 {
        lemma_paddle_run_stays_in_band(y, height, speed, held.drop_last(), window_height);
        lemma_paddle_step_stays_in_band(
            paddle_run(y, height, speed, held.drop_last(), window_height),
            height,
            speed,
            held.last().0,
            held.last().1,
            window_height,
        );
    }
}

/// The paddle of the player: it moves up and down while the keys for it
/// are held.
#[derive(Debug)]
pub struct Player {
    pub position: Vector2,
    pub movement_speed: i32,
    pub shape: Shape,
    pub collider: Collider,
    pub input_handler: InputHandler,
}

impl Player {
    /// Whether the shape and the collider are where the paddle is.
    pub open spec fn synced(&self) -> bool {
        &&& self.shape.position == self.position
        &&& self.collider.position == self.position
        &&& self.collider.shape.position == self.position
    }

    /// Whether position, speed and height lie within the coordinate limit.
    pub open spec fn in_range(&self) -> bool {
        &&& self.position.in_range()
        &&& in_range(self.movement_speed as int)
        &&& in_range(self.shape.size.y as int)
    }

    /// The paddle moved down by `y`, with its shape and its collider.
    pub open spec fn moved_y(self, y: int) -> Player {
        Player {
            position: Vector2 { x: self.position.x, y: (self.position.y + y) as i32 },
            shape: Shape {
                position: Vector2 {
                    x: self.shape.position.x,
                    y: (self.shape.position.y + y) as i32,
                },
                ..self.shape
            },
            collider: self.collider.translated(Vector2 { x: 0, y: y as i32 }),
            ..self
        }
    }

    /// Where the top of the paddle is after one frame in a window of the
    /// height `window_height`.
    pub open spec fn next_y(&self, window_height: int) -> int {
        paddle_step(
            self.position.y as int,
            self.shape.size.y as int,
            self.movement_speed as int,
            self.input_handler.keys().contains(KEY_W),
            self.input_handler.keys().contains(KEY_S),
            window_height,
        )
    }

    /// The paddle after one frame in which the gamepad event `event`, if
    /// any, came in.
    pub open spec fn updated(self, window: Vector2, event: Option<usize>) -> Player {
        Player {
            input_handler: self.input_handler.with_gamepad(event),
            ..self.moved_y(self.next_y(window.y as int) - self.position.y)
        }
    }

    /// Creates the paddle at `position`, which the key W moves up and the
    /// key S moves down by `movement_speed` a frame.
    pub fn new(position: Vector2, movement_speed: i32) -> (player: Player)
        ensures
            player.position == position,
            player.movement_speed == movement_speed,
            player.synced(),
            player.input_handler.is_initial(),
            player.shape.is_built(
                ShapeType::Rectangle(PADDLE_WIDTH, PADDLE_HEIGHT),
                position,
                Color::spec_white(),
                ShapeParams { center: ShapeCenterPosition::TopLeft },
            ),
            player.collider.is_new(position.x, position.y, PADDLE_WIDTH, PADDLE_HEIGHT),
    {
        let (w, h) = (PADDLE_WIDTH, PADDLE_HEIGHT);

        Player {
            position,
            movement_speed,
            shape: Shape::new(ShapeType::Rectangle(w, h), position, Color::white()),
            collider: Collider::new(position.x, position.y, w, h),
            input_handler: InputHandler::new(),
        }
    }

    /// The collider of the paddle.
    pub fn collider(&self) -> (collider: &Collider)
        ensures
            *collider == self.collider,
    {
        &self.collider
    }

    fn move_y(&mut self, y: i32)
        requires
            old(self).synced(),
            fits_i32(old(self).position.y + y),
        ensures
            *final(self) == old(self).moved_y(y as int),
            final(self).synced(),
    {
        self.shape.position.y = self.shape.position.y + y;
        self.collider.translate(Vector2::new(0, y));
        self.position.y = self.position.y + y;
    }

    /// Advances the paddle by one frame: it takes the gamepad event, if
    /// any, and moves by its speed while a key for it is held, up to the
    /// padding at the top or at the bottom of the window.
    ///
    /// A paddle between the two paddings stays between them.
    pub fn update(&mut self, viewport: &Viewport, gamepad_event: Option<usize>)
        requires
            old(self).synced(),
            old(self).in_range(),
            viewport.wf(),
        ensures
            *final(self) == old(self).updated(viewport.window_size(), gamepad_event),
            final(self).synced(),
            final(self).position.y == old(self).next_y(viewport.window_size().y as int),
            PADDING <= old(self).position.y <= lowest_top(
                old(self).shape.size.y as int,
                viewport.window_size().y as int,
            ) ==> PADDING <= final(self).position.y <= lowest_top(
                old(self).shape.size.y as int,
                viewport.window_size().y as int,
            ),
    {
        let window_height = viewport.window_size().y;
        let padding = PADDING;

        self.input_handler.check_for_gamepad(gamepad_event);

        let mut movement_dir_y: i32 = 0;
        if self.input_handler.is_key_pressed(KEY_W) && self.position.y > padding {
            movement_dir_y = movement_dir_y - self.movement_speed;
        }
        if self.input_handler.is_key_pressed(KEY_S) && self.position.y + self.shape.size.y
            < window_height - padding {
            movement_dir_y = movement_dir_y + self.movement_speed;
        }
        let lowest = window_height - padding - self.shape.size.y;
        let step = clamp_step(self.position.y, movement_dir_y, padding, lowest);
        self.move_y(step);
    }

    /// Whether geometry exists for the shape and for the outline of the
    /// collider.
    pub open spec fn drawable(&self) -> bool {
        self.shape.shape_type.is_supported() && self.collider.shape.shape_type.is_supported()
    }

    /// Describes the draw calls of the paddle: its shape, then the outline
    /// of its collider.
    pub fn draw(&self, viewport: &Viewport) -> (calls: (
        (Uniforms, DrawRange),
        (Uniforms, DrawRange),
    ))
        requires
            self.drawable(),
        ensures
            calls.0 == self.shape.draw_call(*viewport),
            calls.1 == self.collider.shape.draw_call(*viewport),
    {
        (self.shape.draw(viewport), self.collider.draw(viewport))
    }
}

/// Computes the movement that a paddle at `y` makes of the velocity
/// `velocity` in the band from `lo` to `hi`.
fn clamp_step(y: i32, velocity: i32, lo: i32, hi: i32) -> (step: i32)
    requires
        in_range(y as int),
        in_range(velocity as int),
    ensures
        step == clamped_step(y as int, velocity as int, lo as int, hi as int),
        in_range(step as int),
{
    if velocity < 0 {
        if y <= lo {
            0
        } else if y + velocity < lo {
            lo - y
        } else {
            velocity
        }
    } else if velocity > 0 {
        if y >= hi {
            0
        } else if y + velocity > hi {
            hi - y
        } else {
            velocity
        }
    } else {
        0
    }
}

/// The speed of a scripted paddle at `y` after the band was looked at: it
/// is reversed where the paddle begins above the padding at the top or ends
/// below the padding at the bottom.
pub open spec fn turned(y: int, height: int, speed: int, window_height: int) -> int {
    if y < PADDING || y + height > window_height - PADDING {
        -speed
    } else {
        speed
    }
}

/// The scripted paddle: it moves at a constant speed and turns at the top
/// and at the bottom of the window.
#[derive(Debug)]
pub struct Enemy {
    pub position: Vector2,
    pub movement_speed: i32,
    pub shape: Shape,
    pub collider: Collider,
}

impl Enemy {
    /// Whether the shape and the collider are where the paddle is.
    pub open spec fn synced(&self) -> bool {
        &&& self.shape.position == self.position
        &&& self.collider.position == self.position
        &&& self.collider.shape.position == self.position
    }

    /// Whether position, speed and height lie within the coordinate limit.
    pub open spec fn in_range(&self) -> bool {
        &&& self.position.in_range()
        &&& in_range(self.movement_speed as int)
        &&& in_range(self.shape.size.y as int)
    }

    /// The paddle moved down by `y`, with its shape and its collider.
    pub open spec fn moved_y(self, y: int) -> Enemy {
        Enemy {
            position: Vector2 { x: self.position.x, y: (self.position.y + y) as i32 },
            shape: Shape {
                position: Vector2 {
                    x: self.shape.position.x,
                    y: (self.shape.position.y + y) as i32,
                },
                ..self.shape
            },
            collider: self.collider.translated(Vector2 { x: 0, y: y as i32 }),
            ..self
        }
    }

    /// The paddle after one frame in a window of the size `window`: it
    /// turns where it is beyond the band, and then it moves by its speed.
    pub open spec fn updated(self, window: Vector2) -> Enemy {
        let speed = turned(
            self.position.y as int,
            self.shape.size.y as int,
            self.movement_speed as int,
            window.y as int,
        );
        (Enemy { movement_speed: speed as i32, ..self }).moved_y(speed)
    }

    /// Creates the paddle at `position`, which moves down by
    /// `movement_speed` a frame.
    pub fn new(position: Vector2, movement_speed: i32) -> (enemy: Enemy)
        ensures
            enemy.position == position,
            enemy.movement_speed == movement_speed,
            enemy.synced(),
            enemy.shape.is_built(
                ShapeType::Rectangle(PADDLE_WIDTH, PADDLE_HEIGHT),
                position,
                Color::spec_white(),
                ShapeParams { center: ShapeCenterPosition::TopLeft },
            ),
            enemy.collider.is_new(position.x, position.y, PADDLE_WIDTH, PADDLE_HEIGHT),
    {
        let (w, h) = (PADDLE_WIDTH, PADDLE_HEIGHT);

        Enemy {
            position,
            movement_speed,
            shape: Shape::new(ShapeType::Rectangle(w, h), position, Color::white()),
            collider: Collider::new(position.x, position.y, w, h),
        }
    }

    /// The collider of the paddle.
    pub fn collider(&self) -> (collider: &Collider)
        ensures
            *collider == self.collider,
    {
        &self.collider
    }

    fn move_y(&mut self, y: i32)
        requires
            old(self).synced(),
            fits_i32(old(self).position.y + y),
        ensures
            *final(self) == old(self).moved_y(y as int),
            final(self).synced(),
    {
        self.shape.position.y = self.shape.position.y + y;
        self.collider.translate(Vector2::new(0, y));
        self.position.y = self.position.y + y;
    }

    /// Advances the paddle by one frame: it turns where it is beyond the
    /// band between the paddings, and then it moves by its speed.
    pub fn update(&mut self, viewport: &Viewport)
        requires
            old(self).synced(),
            old(self).in_range(),
            viewport.wf(),
        ensures
            *final(self) == old(self).updated(viewport.window_size()),
            final(self).synced(),
    {
        let window_height = viewport.window_size().y;
        let padding = PADDING;

        if self.position.y < padding || self.position.y + self.shape.size.y > window_height
            - padding {
            self.movement_speed = -self.movement_speed;
        }
        let speed = self.movement_speed;
        self.move_y(speed);
    }

    /// Whether geometry exists for the shape and for the outline of the
    /// collider.
    pub open spec fn drawable(&self) -> bool {
        self.shape.shape_type.is_supported() && self.collider.shape.shape_type.is_supported()
    }

    /// Describes the draw calls of the paddle: its shape, then the outline
    /// of its collider.
    pub fn draw(&self, viewport: &Viewport) -> (calls: (
        (Uniforms, DrawRange),
        (Uniforms, DrawRange),
    ))
        requires
            self.drawable(),
        ensures
            calls.0 == self.shape.draw_call(*viewport),
            calls.1 == self.collider.shape.draw_call(*viewport),
    {
        (self.shape.draw(viewport), self.collider.draw(viewport))
    }
}

/// The game: the paddle of the player, the ball and the scripted paddle.
#[derive(Debug)]
pub struct Pong {
    pub player: Player,
    pub ball: Ball,
    pub enemy: Enemy,
}

impl Pong {
    /// Whether every shape and collider is where its entity is.
    pub open spec fn synced(&self) -> bool {
        self.player.synced() && self.ball.synced() && self.enemy.synced()
    }

    /// Whether every coordinate lies within the coordinate limit.
    pub open spec fn in_range(&self) -> bool {
        self.player.in_range() && self.ball.in_range() && self.enemy.in_range()
    }

    /// Whether the collider of the ball overlaps that of a paddle.
    pub open spec fn ball_hits_paddle(&self) -> bool {
        self.ball.collider.overlaps(&self.player.collider) || self.ball.collider.overlaps(
            &self.enemy.collider,
        )
    }

    /// The game after one frame. The ball that overlaps a paddle, as the
    /// colliders are before anything moves, takes the other horizontal
    /// direction and keeps its vertical one. Then the player, the ball and
    /// the scripted paddle are each advanced by one frame.
    pub open spec fn updated(self, window: Vector2, event: Option<usize>) -> Pong {
        let ball = if self.ball_hits_paddle() {
            self.ball.reflected()
        } else {
            self.ball
        };
        Pong {
            player: self.player.updated(window, event),
            ball: ball.updated(window),
            enemy: self.enemy.updated(window),
        }
    }

    /// Creates the game of the three entities.
    pub fn new(player: Player, ball: Ball, enemy: Enemy) -> (pong: Pong)
        ensures
            pong.player == player,
            pong.ball == ball,
            pong.enemy == enemy,
    {
        Pong { player, ball, enemy }
    }

    /// Tells whether every coordinate lies within the coordinate limit.
    pub fn is_in_range(&self) -> (b: bool)
        ensures
            b == self.in_range(),
    {
        self.player.position.is_in_range() && within_limit(self.player.movement_speed)
            && within_limit(self.player.shape.size.y) && self.ball.position.is_in_range()
            && self.ball.velocity.is_in_range() && self.enemy.position.is_in_range()
            && within_limit(self.enemy.movement_speed) && within_limit(self.enemy.shape.size.y)
    }

    /// Advances the game by one frame, in which the gamepad event
    /// `gamepad_event`, if any, came in.
    pub fn update(&mut self, viewport: &Viewport, gamepad_event: Option<usize>)
        requires
            old(self).synced(),
            old(self).in_range(),
            viewport.wf(),
        ensures
            *final(self) == old(self).updated(viewport.window_size(), gamepad_event),
            final(self).synced(),
    {
        let player_collider = self.player.collider();
        let ball_collider = self.ball.collider();
        let enemy_collider = self.enemy.collider();

        if ball_collider.overlaps(player_collider) || ball_collider.overlaps(enemy_collider) {
            self.ball.velocity.x = -self.ball.velocity.x;
        }
        self.player.update(viewport, gamepad_event);
        self.ball.update(viewport);
        self.enemy.update(viewport);
    }

    /// Whether geometry exists for every shape of the game.
    pub open spec fn drawable(&self) -> bool {
        self.player.drawable() && self.ball.drawable() && self.enemy.drawable()
    }

    /// Describes the draw calls of the game: those of the player, of the
    /// ball and of the scripted paddle, in this order.
    pub fn draw(&self, viewport: &Viewport) -> (calls: Vec<(Uniforms, DrawRange)>)
        requires
            self.drawable(),
        ensures
            calls@ == seq![
                self.player.shape.draw_call(*viewport),
                self.player.collider.shape.draw_call(*viewport),
                self.ball.shape.draw_call(*viewport),
                self.ball.collider.shape.draw_call(*viewport),
                self.enemy.shape.draw_call(*viewport),
                self.enemy.collider.shape.draw_call(*viewport),
            ],
    {
        let player = self.player.draw(viewport);
        let ball = self.ball.draw(viewport);
        let enemy = self.enemy.draw(viewport);

        let mut calls: Vec<(Uniforms, DrawRange)> = Vec::new();
        calls.push(player.0);
        calls.push(player.1);
        calls.push(ball.0);
        calls.push(ball.1);
        calls.push(enemy.0);
        calls.push(enemy.1);
        calls
    }

    /// Records that a key went down.
    pub fn key_down_event(&mut self, keycode: u32)
        ensures
            final(self).player.input_handler.keys()
                == old(self).player.input_handler.keys().insert(keycode),
            final(self).player.input_handler.last_released()
                == old(self).player.input_handler.last_released(),
            final(self).player.position == old(self).player.position,
            final(self).player.movement_speed == old(self).player.movement_speed,
            final(self).player.shape == old(self).player.shape,
            final(self).player.collider == old(self).player.collider,
            final(self).ball == old(self).ball,
            final(self).enemy == old(self).enemy,
    {
        self.player.input_handler.key_down_event(keycode)
    }

    /// Records that a key went up.
    pub fn key_up_event(&mut self, keycode: u32)
        ensures
            final(self).player.input_handler.keys()
                == old(self).player.input_handler.keys().remove(keycode),
            final(self).player.input_handler.last_released() == Some(keycode),
            final(self).player.position == old(self).player.position,
            final(self).player.movement_speed == old(self).player.movement_speed,
            final(self).player.shape == old(self).player.shape,
            final(self).player.collider == old(self).player.collider,
            final(self).ball == old(self).ball,
            final(self).enemy == old(self).enemy,
    {
        self.player.input_handler.key_up_event(keycode)
    }
}

/// Tells whether `value` lies within the coordinate limit.
fn within_limit(value: i32) -> (b: bool)
    ensures
        b == in_range(value as int),
{
    -COORD_LIMIT <= value && value <= COORD_LIMIT
}

} // verus!
