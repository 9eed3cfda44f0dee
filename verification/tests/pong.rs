use rusty_engine::color::Color;
use rusty_engine::input_handler::{KEY_S, KEY_W};
use rusty_engine::pong::{Ball, Collider, Enemy, Player, Pong};
use rusty_engine::shape::{ShapeCenterPosition, ShapeType};
use rusty_engine::transform::Viewport;
use rusty_engine::vector::Vector2;

fn window(width: i32, height: i32) -> Viewport {
    let mut viewport = Viewport::new(Vector2::new(1536, 864), Vector2::new(512, 288));
    viewport.resize(Vector2::new(width, height));
    viewport
}

fn ball_at(x: i32, y: i32, velocity: Vector2) -> Ball {
    let viewport = window(2 * x, 2 * y);
    Ball::new(&viewport, velocity)
}

#[test]
fn collider_new_records_corner_and_size() {
    let collider = Collider::new(3, 4, 16, 48);
    assert_eq!(collider.pos(), (3, 4));
    assert_eq!(collider.size(), (16, 48));
    assert_eq!(collider.shape.position, Vector2::new(3, 4));
    assert_eq!(collider.shape.size, Vector2::new(16, 48));
    assert_eq!(collider.shape.shape_type, ShapeType::RectangleLines(16, 48));
    assert_eq!(collider.shape.params.center, ShapeCenterPosition::TopLeft);
    assert_eq!(collider.shape.graphics_handler.bindings().vertex_buffer[0].color, Color::green());
}

#[test]
fn overlap_is_symmetric_on_a_grid_of_boxes() {
    let corners = [-20, -1, 0, 1, 7, 15, 16, 17, 40];
    let sizes = [0, 1, 16, 48];
    let fixed = Collider::new(0, 0, 16, 16);
    for &x in corners.iter() {
        for &y in corners.iter() {
            for &w in sizes.iter() {
                for &h in sizes.iter() {
                    let other = Collider::new(x, y, w, h);
                    assert_eq!(fixed.overlaps(&other), other.overlaps(&fixed));
                }
            }
        }
    }
}

#[test]
fn overlap_needs_both_axes() {
    let a = Collider::new(0, 0, 10, 10);
    assert!(a.overlaps(&Collider::new(5, 5, 10, 10)));
    assert!(a.overlaps(&Collider::new(9, 9, 1, 1)));
    assert!(a.overlaps(&Collider::new(-5, -5, 6, 6)));
    assert!(!a.overlaps(&Collider::new(5, 20, 10, 10)));
    assert!(!a.overlaps(&Collider::new(20, 5, 10, 10)));
    assert!(!a.overlaps(&Collider::new(-20, -20, 5, 5)));
}

#[test]
fn boxes_that_touch_at_an_edge_do_not_overlap() {
    let a = Collider::new(0, 0, 10, 10);
    let right = Collider::new(10, 0, 10, 10);
    let below = Collider::new(0, 10, 10, 10);
    let corner = Collider::new(10, 10, 10, 10);
    assert!(!a.overlaps(&right));
    assert!(!right.overlaps(&a));
    assert!(!a.overlaps(&below));
    assert!(!below.overlaps(&a));
    assert!(!a.overlaps(&corner));
    assert!(a.overlaps(&Collider::new(9, 0, 10, 10)));
}

#[test]
fn a_box_without_area_overlaps_nothing_it_only_touches() {
    let empty = Collider::new(5, 5, 0, 0);
    assert!(!empty.overlaps(&Collider::new(5, 5, 0, 0)));
    assert!(!empty.overlaps(&Collider::new(5, 5, 10, 10)));
    assert!(empty.overlaps(&Collider::new(0, 0, 10, 10)));
}

#[test]
fn overlap_near_the_limits_of_the_coordinates() {
    let a = Collider::new(i32::MAX, i32::MAX, i32::MAX, i32::MAX);
    let b = Collider::new(i32::MAX - 1, i32::MAX - 1, 2, 2);
    assert!(a.overlaps(&b));
    assert!(b.overlaps(&a));
    let c = Collider::new(i32::MIN, i32::MIN, 1, 1);
    assert!(!a.overlaps(&c));
}

#[test]
fn translate_moves_the_box_and_its_outline() {
    let mut collider = Collider::new(10, 20, 16, 48);
    collider.translate(Vector2::new(-3, 7));
    assert_eq!(collider.position, Vector2::new(7, 27));
    assert_eq!(collider.shape.position, Vector2::new(7, 27));
    assert_eq!(collider.size, Vector2::new(16, 48));
    collider.translate(Vector2::new(0, 0));
    assert_eq!(collider.position, Vector2::new(7, 27));
}

#[test]
fn colliders_at_one_place_overlap_until_one_moves_away() {
    let player = Player::new(Vector2::new(100, 200), 5);
    let mut ball = Collider::new(100, 200, 16, 48);
    assert_eq!(player.collider().pos(), ball.pos());
    assert_eq!(player.collider().size(), ball.size());
    assert!(player.collider().overlaps(&ball));
    assert!(ball.overlaps(player.collider()));

    ball.translate(Vector2::new(1000, 0));
    assert!(!ball.overlaps(player.collider()));
    assert!(!player.collider().overlaps(&ball));
}

#[test]
fn ball_starts_in_the_middle_of_the_window() {
    let viewport = window(800, 600);
    let ball = Ball::new(&viewport, Vector2::new(-4, 3));
    assert_eq!(ball.position, Vector2::new(400, 300));
    assert_eq!(ball.velocity, Vector2::new(-4, 3));
    assert_eq!(ball.shape.position, Vector2::new(400, 300));
    assert_eq!(ball.shape.shape_type, ShapeType::Circle(16));
    assert_eq!(ball.shape.size, Vector2::new(16, 16));
    assert_eq!(ball.collider().pos(), (400, 300));
    assert_eq!(ball.collider().size(), (16, 16));
    assert_eq!(Ball::new(&window(801, 601), Vector2::new(0, 0)).position, Vector2::new(400, 300));
}

#[test]
fn ball_moves_by_its_velocity_and_bounces_off_the_left_wall() {
    let viewport = window(800, 600);
    let mut ball = Ball::new(&viewport, Vector2::new(-4, 3));
    assert_eq!(ball.position, Vector2::new(400, 300));

    ball.update(&viewport);
    assert_eq!(ball.position, Vector2::new(396, 303));
    assert_eq!(ball.velocity, Vector2::new(-4, 3));
    assert_eq!(ball.shape.position, Vector2::new(396, 303));
    assert_eq!(ball.collider.position, Vector2::new(396, 303));
    assert_eq!(ball.collider.shape.position, Vector2::new(396, 303));

    while ball.position.x >= 16 {
        ball.update(&viewport);
    }
    assert!(ball.position.x <= 16);
    assert_eq!(ball.position.x, 12);
    assert!(ball.velocity.x < 0);
    ball.update(&viewport);
    assert!(ball.velocity.x > 0);
    assert_eq!(ball.velocity.x, 4);
    assert_eq!(ball.position.x, 16);
}

#[test]
fn ball_whose_edge_only_touches_the_wall_does_not_bounce() {
    let viewport = window(800, 600);
    let mut ball = Ball::new(&viewport, Vector2::new(-4, 0));
    for _ in 0..96 {
        ball.update(&viewport);
    }
    assert_eq!(ball.position, Vector2::new(16, 300));
    assert_eq!(ball.velocity, Vector2::new(-4, 0));
    ball.update(&viewport);
    assert_eq!(ball.position, Vector2::new(12, 300));
    assert_eq!(ball.velocity, Vector2::new(-4, 0));
    ball.update(&viewport);
    assert_eq!(ball.position, Vector2::new(16, 300));
    assert_eq!(ball.velocity, Vector2::new(4, 0));
}

#[test]
fn ball_beyond_the_left_wall_moving_left_turns_right() {
    let viewport = window(800, 600);
    let mut ball = ball_at(10, 300, Vector2::new(-4, 3));
    ball.update(&viewport);
    assert_eq!(ball.velocity, Vector2::new(4, 3));
    assert_eq!(ball.position, Vector2::new(14, 303));
}

#[test]
fn ball_inside_the_window_keeps_its_velocity() {
    let viewport = window(800, 600);
    for &(x, y) in [(16, 16), (784, 584), (400, 300), (16, 584)].iter() {
        let mut ball = ball_at(x, y, Vector2::new(7, -2));
        ball.update(&viewport);
        assert_eq!(ball.velocity, Vector2::new(7, -2));
        assert_eq!(ball.position, Vector2::new(x + 7, y - 2));
    }
}

#[test]
fn ball_bounces_off_each_wall() {
    let viewport = window(800, 600);

    let mut right = ball_at(785, 300, Vector2::new(4, 3));
    right.update(&viewport);
    assert_eq!(right.velocity, Vector2::new(-4, 3));
    assert_eq!(right.position, Vector2::new(781, 303));

    let mut top = ball_at(400, 15, Vector2::new(4, -3));
    top.update(&viewport);
    assert_eq!(top.velocity, Vector2::new(4, 3));
    assert_eq!(top.position, Vector2::new(404, 18));

    let mut bottom = ball_at(400, 585, Vector2::new(4, 3));
    bottom.update(&viewport);
    assert_eq!(bottom.velocity, Vector2::new(4, -3));
    assert_eq!(bottom.position, Vector2::new(404, 582));

    let mut corner = ball_at(10, 10, Vector2::new(-1, -1));
    corner.update(&viewport);
    assert_eq!(corner.velocity, Vector2::new(1, 1));
    assert_eq!(corner.position, Vector2::new(11, 11));
}

#[test]
fn ball_beyond_a_wall_turns_whichever_way_it_moves() {
    let viewport = window(800, 600);
    let mut ball = ball_at(790, 300, Vector2::new(-4, 0));
    ball.update(&viewport);
    assert_eq!(ball.velocity, Vector2::new(4, 0));
    assert_eq!(ball.position, Vector2::new(794, 300));
    ball.update(&viewport);
    assert_eq!(ball.velocity, Vector2::new(-4, 0));
    assert_eq!(ball.position, Vector2::new(790, 300));
}

#[test]
fn player_new_builds_a_paddle() {
    let player = Player::new(Vector2::new(30, 100), 5);
    assert_eq!(player.position, Vector2::new(30, 100));
    assert_eq!(player.movement_speed, 5);
    assert_eq!(player.shape.shape_type, ShapeType::Rectangle(16, 48));
    assert_eq!(player.shape.size, Vector2::new(16, 48));
    assert_eq!(player.shape.position, Vector2::new(30, 100));
    assert_eq!(player.collider().pos(), (30, 100));
    assert_eq!(player.collider().size(), (16, 48));
    assert!(player.input_handler.pressed_keys().is_empty());
}

#[test]
fn player_rests_while_no_key_is_held() {
    let viewport = window(800, 600);
    let mut player = Player::new(Vector2::new(30, 100), 5);
    player.update(&viewport, None);
    assert_eq!(player.position, Vector2::new(30, 100));
    player.input_handler.key_down_event(1);
    player.update(&viewport, None);
    assert_eq!(player.position, Vector2::new(30, 100));
}

#[test]
fn player_moves_while_a_key_is_held() {
    let viewport = window(800, 600);
    let mut player = Player::new(Vector2::new(30, 100), 5);

    player.input_handler.key_down_event(KEY_W);
    player.update(&viewport, None);
    assert_eq!(player.position, Vector2::new(30, 95));
    assert_eq!(player.shape.position, Vector2::new(30, 95));
    assert_eq!(player.collider.position, Vector2::new(30, 95));
    assert_eq!(player.collider.shape.position, Vector2::new(30, 95));
    player.update(&viewport, None);
    assert_eq!(player.position, Vector2::new(30, 90));

    player.input_handler.key_up_event(KEY_W);
    player.update(&viewport, None);
    assert_eq!(player.position, Vector2::new(30, 90));

    player.input_handler.key_down_event(KEY_S);
    player.update(&viewport, None);
    assert_eq!(player.position, Vector2::new(30, 95));

    player.input_handler.key_down_event(KEY_W);
    player.update(&viewport, None);
    assert_eq!(player.position, Vector2::new(30, 95));
}

#[test]
fn player_stops_at_the_padding_however_long_a_key_is_held() {
    let viewport = window(800, 600);
    let lowest = 600 - 15 - 48;

    let mut player = Player::new(Vector2::new(30, 100), 7);
    player.input_handler.key_down_event(KEY_W);
    for _ in 0..200 {
        player.update(&viewport, None);
        assert!(15 <= player.position.y && player.position.y <= lowest);
    }
    assert_eq!(player.position.y, 15);

    player.input_handler.key_up_event(KEY_W);
    player.input_handler.key_down_event(KEY_S);
    for _ in 0..200 {
        player.update(&viewport, None);
        assert!(15 <= player.position.y && player.position.y <= lowest);
    }
    assert_eq!(player.position.y, lowest);
    assert_eq!(player.collider.position.y, lowest);
    assert_eq!(player.shape.position.y, lowest);
}

#[test]
fn player_takes_the_last_step_short() {
    let viewport = window(800, 600);
    let mut player = Player::new(Vector2::new(30, 18), 7);
    player.input_handler.key_down_event(KEY_W);
    player.update(&viewport, None);
    assert_eq!(player.position.y, 15);

    let mut player = Player::new(Vector2::new(30, 535), 7);
    player.input_handler.key_down_event(KEY_S);
    player.update(&viewport, None);
    assert_eq!(player.position.y, 537);
}

#[test]
fn player_at_the_padding_moves_away_when_both_keys_are_held() {
    let viewport = window(800, 600);
    let mut player = Player::new(Vector2::new(30, 15), 5);
    player.input_handler.key_down_event(KEY_W);
    player.input_handler.key_down_event(KEY_S);
    player.update(&viewport, None);
    assert_eq!(player.position.y, 20);
}

#[test]
fn player_update_takes_the_gamepad_event() {
    let viewport = window(800, 600);
    let mut player = Player::new(Vector2::new(30, 100), 5);
    assert_eq!(player.input_handler.current_gamepad(), None);
    player.update(&viewport, Some(2));
    assert_eq!(player.input_handler.current_gamepad(), Some(2));
    player.update(&viewport, None);
    assert_eq!(player.input_handler.current_gamepad(), Some(2));
}

#[test]
fn enemy_moves_at_its_speed_and_turns_beyond_the_band() {
    let viewport = window(800, 600);
    let lowest = 600 - 15 - 48;

    let mut enemy = Enemy::new(Vector2::new(700, 100), 4);
    assert_eq!(enemy.shape.shape_type, ShapeType::Rectangle(16, 48));
    assert_eq!(enemy.collider().size(), (16, 48));
    enemy.update(&viewport);
    assert_eq!(enemy.position, Vector2::new(700, 104));
    assert_eq!(enemy.movement_speed, 4);
    assert_eq!(enemy.shape.position, Vector2::new(700, 104));
    assert_eq!(enemy.collider.position, Vector2::new(700, 104));

    let mut enemy = Enemy::new(Vector2::new(700, lowest), 4);
    enemy.update(&viewport);
    assert_eq!(enemy.position.y, lowest + 4);
    assert_eq!(enemy.movement_speed, 4);
    enemy.update(&viewport);
    assert_eq!(enemy.position.y, lowest);
    assert_eq!(enemy.movement_speed, -4);

    let mut enemy = Enemy::new(Vector2::new(700, 15), -4);
    enemy.update(&viewport);
    assert_eq!(enemy.position.y, 11);
    assert_eq!(enemy.movement_speed, -4);
    enemy.update(&viewport);
    assert_eq!(enemy.position.y, 15);
    assert_eq!(enemy.movement_speed, 4);
}

#[test]
fn pong_reflects_the_ball_that_overlaps_a_paddle() {
    let viewport = window(800, 600);
    let player = Player::new(Vector2::new(395, 290), 5);
    let ball = Ball::new(&viewport, Vector2::new(-4, 3));
    let enemy = Enemy::new(Vector2::new(700, 100), 2);
    let mut pong = Pong::new(player, ball, enemy);
    assert!(pong.is_in_range());

    pong.update(&viewport, None);
    assert_eq!(pong.ball.velocity, Vector2::new(4, 3));
    assert_eq!(pong.ball.position, Vector2::new(404, 303));
    assert_eq!(pong.player.position, Vector2::new(395, 290));
    assert_eq!(pong.enemy.position, Vector2::new(700, 102));
}

#[test]
fn pong_reflects_the_ball_on_the_other_paddle_too() {
    let viewport = window(800, 600);
    let player = Player::new(Vector2::new(30, 100), 5);
    let ball = Ball::new(&viewport, Vector2::new(4, -3));
    let enemy = Enemy::new(Vector2::new(410, 260), 2);
    let mut pong = Pong::new(player, ball, enemy);

    pong.update(&viewport, None);
    assert_eq!(pong.ball.velocity, Vector2::new(-4, -3));
    assert_eq!(pong.ball.position, Vector2::new(396, 297));
}

#[test]
fn pong_leaves_the_ball_that_overlaps_nothing() {
    let viewport = window(800, 600);
    let player = Player::new(Vector2::new(30, 100), 5);
    let ball = Ball::new(&viewport, Vector2::new(-4, 3));
    let enemy = Enemy::new(Vector2::new(700, 100), 2);
    let mut pong = Pong::new(player, ball, enemy);
    pong.key_down_event(KEY_S);

    pong.update(&viewport, Some(1));
    assert_eq!(pong.ball.velocity, Vector2::new(-4, 3));
    assert_eq!(pong.ball.position, Vector2::new(396, 303));
    assert_eq!(pong.player.position, Vector2::new(30, 105));
    assert_eq!(pong.player.input_handler.current_gamepad(), Some(1));
    assert_eq!(pong.enemy.position, Vector2::new(700, 102));

    pong.key_up_event(KEY_S);
    pong.update(&viewport, None);
    assert_eq!(pong.player.position, Vector2::new(30, 105));
}

#[test]
fn pong_reflects_at_a_wall_and_a_paddle_in_one_frame() {
    let viewport = window(800, 600);
    let player = Player::new(Vector2::new(5, 290), 5);
    let ball = ball_at(10, 300, Vector2::new(-4, 0));
    let enemy = Enemy::new(Vector2::new(700, 100), 2);
    let mut pong = Pong::new(player, ball, enemy);

    pong.update(&viewport, None);
    assert_eq!(pong.ball.velocity, Vector2::new(-4, 0));
    assert_eq!(pong.ball.position, Vector2::new(6, 300));
}

#[test]
fn pong_draws_every_shape_and_outline_in_order() {
    let viewport = window(800, 600);
    let player = Player::new(Vector2::new(30, 100), 5);
    let ball = Ball::new(&viewport, Vector2::new(-4, 3));
    let enemy = Enemy::new(Vector2::new(700, 100), 2);
    let pong = Pong::new(player, ball, enemy);

    let calls = pong.draw(&viewport);
    let counts: Vec<i32> = calls.iter().map(|call| call.1.num_elements).collect();
    assert_eq!(counts, vec![6, 24, 60, 24, 6, 24]);
    assert_eq!(calls[0].0.mvp.translation_x.num, 30);
    assert_eq!(calls[2].0.mvp.translation_y.num, 300);
    assert_eq!(calls[5].0.mvp.translation_x.num, 700);
    assert_eq!(calls[1], pong.player.collider.draw(&viewport));
    assert_eq!(pong.ball.draw(&viewport), (calls[2], calls[3]));
    assert_eq!(pong.enemy.draw(&viewport), (calls[4], calls[5]));
    assert_eq!(pong.player.draw(&viewport), (calls[0], calls[1]));
}

#[test]
fn pong_tells_when_a_coordinate_is_out_of_range() {
    let viewport = window(800, 600);
    let player = Player::new(Vector2::new(30, 100), 5);
    let ball = Ball::new(&viewport, Vector2::new(16_777_217, 3));
    let enemy = Enemy::new(Vector2::new(700, 100), 2);
    let pong = Pong::new(player, ball, enemy);
    assert!(!pong.is_in_range());

    let player = Player::new(Vector2::new(30, 100), 5);
    let ball = Ball::new(&viewport, Vector2::new(16_777_216, -16_777_216));
    let enemy = Enemy::new(Vector2::new(700, 100), 2);
    assert!(Pong::new(player, ball, enemy).is_in_range());
}
