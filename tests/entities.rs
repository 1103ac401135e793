use asteroids::asteroid::{outline_from_scales, Asteroid};
use asteroids::bullet::Bullet;
use asteroids::character::Character;
use asteroids::game::create_enemy_at;
use asteroids::kinematics::Body;
use asteroids::spaceship::Spaceship;
use asteroids::trig::{cosine_of, sine_of};

#[test]
fn wrap_past_right_edge_lands_at_minus_size() {
    let mut a = Asteroid::new();
    a.body = Body { x: 664_800, y: 100_000, speed_x: 400, speed_y: 0, size: 25_000 };
    a.step();
    assert_eq!(a.body.x, -25_000);
    assert_eq!(a.body.y, 100_000);
}

#[test]
fn wrap_past_top_edge_lands_at_far_side() {
    let mut a = Asteroid::new();
    a.body = Body { x: 300_000, y: -24_800, speed_x: 0, speed_y: -300, size: 25_000 };
    a.step();
    assert_eq!(a.body.y, 480_000 + 25_000);
    assert_eq!(a.body.x, 300_000);
}

#[test]
fn in_stage_step_is_plain_motion() {
    let mut a = Asteroid::new();
    a.body = Body { x: 100_000, y: 100_000, speed_x: -300, speed_y: 450, size: 25_000 };
    a.step();
    assert_eq!((a.body.x, a.body.y), (99_700, 100_450));
    assert!(!a.check_out_of_stage());
}

#[test]
fn ship_wraps_too() {
    let mut s = Spaceship::new();
    s.set_x(-24_000);
    s.set_y(200_000);
    s.body.speed_x = -2_000;
    s.step();
    assert_eq!(s.body.x, 640_000 + 25_000);
}

#[test]
fn bullet_is_culled_not_wrapped() {
    let mut b = Bullet::new();
    b.body.x = 630_000;
    b.body.y = 240_000;
    b.set_speed(8_000, 0);
    b.step();
    assert!(!b.is_destroyed);
    assert_eq!(b.body.x, 638_000);
    b.step();
    assert!(b.is_destroyed);
    assert_eq!(b.body.x, 646_000);
    assert!(b.check_out_of_stage());
    b.step();
    assert!(b.is_destroyed);
    assert_eq!(b.body.x, 654_000);
    assert_eq!(b.body.y, 240_000);
}

#[test]
fn bullet_center_is_half_size_ahead() {
    let mut b = Bullet::new();
    b.set_x(100_000);
    b.set_y(100_000);
    b.set_rotation(90);
    assert_eq!(b.get_center(), (100_000, 103_000));
    b.set_rotation(180);
    assert_eq!(b.get_center(), (98_000, 100_000));
    let fresh = Bullet::new();
    assert_eq!(fresh.get_center(), (3_000, 0));
}

#[test]
fn asteroid_and_ship_centers_truncate_to_pixels() {
    let mut a = Asteroid::new();
    a.set_x(1_500);
    a.set_y(-1_500);
    assert_eq!(a.get_center(), (1_000, -1_000));
    let mut s = Spaceship::new();
    s.set_x(2_999);
    s.set_y(-999);
    assert_eq!(s.get_center(), (2_000, 0));
}

#[test]
fn setters_move_only_the_position() {
    let mut a = create_enemy_at(10_000, 20_000, 2);
    let (sx, sy) = (a.body.speed_x, a.body.speed_y);
    a.set_x(30_000);
    a.set_y(40_000);
    assert_eq!((a.get_x(), a.get_y()), (30_000, 40_000));
    assert_eq!((a.body.speed_x, a.body.speed_y), (sx, sy));
    assert_eq!(a.get_size(), 30_000);
    let mut b = Bullet::new();
    b.set_x(7_000);
    b.set_y(8_000);
    assert_eq!((b.get_x(), b.get_y(), b.get_size()), (7_000, 8_000, 5_000));
}

#[test]
fn outline_from_given_scales_is_exact() {
    let scales = vec![700i64; 26];
    let shape = outline_from_scales(50_000, &scales);
    assert_eq!(shape.len(), 26);
    assert_eq!(shape[0], (0, 35_000));
    let full = vec![999i64; 26];
    let shape = outline_from_scales(50_000, &full);
    assert_eq!(shape[0], (0, 50_000));
    assert_eq!(shape[6], (50_000, 4_000));
    assert_eq!(shape[13], (-5_000, -49_000));
}

#[test]
fn bullet_line_runs_one_size_ahead() {
    let mut b = Bullet::new();
    b.body.x = 100_500;
    b.body.y = 200_000;
    b.set_rotation(0);
    assert_eq!(b.draw_character(), ((101, 200), (106, 200)));
}

#[test]
fn outline_has_twenty_six_vertices() {
    let a = create_enemy_at(200_000, 400_000, 3);
    assert_eq!(a.shape.len(), 26);
    let again = a.make_random_asteroid();
    assert_eq!(again.len(), 26);
    for &(x, y) in a.shape.iter() {
        assert_eq!(x % 1_000, 0);
        assert_eq!(y % 1_000, 0);
        let d2 = (x / 1_000) * (x / 1_000) + (y / 1_000) * (y / 1_000);
        assert!(d2 <= 52 * 52, "vertex too far: {} {}", x, y);
        assert!(d2 >= 33 * 33, "vertex too near: {} {}", x, y);
    }
}

#[test]
fn outline_first_vertex_points_down() {
    let a = create_enemy_at(0, 0, 2);
    let (x, y) = a.shape[0];
    assert_eq!(x, 0);
    assert!(y >= 21_000 && y <= 30_000);
}

#[test]
fn asteroid_outline_segments_close_the_loop() {
    let mut a = Asteroid::new();
    a.body.x = 10_500;
    a.body.y = 20_000;
    a.shape = vec![(0, 5_000), (5_000, 0), (0, -5_000)];
    let lines = a.draw_character();
    assert_eq!(lines, vec![((10, 25), (15, 20)), ((15, 20), (10, 15)), ((10, 25), (10, 15))]);
    let empty = Asteroid::new();
    assert!(empty.draw_character().is_empty());
}

#[test]
fn create_enemy_at_uses_tier_sizes() {
    let sizes = [15_000, 20_000, 30_000, 50_000];
    for level in 0..4usize {
        let a = create_enemy_at(1_000, 2_000, level);
        assert_eq!(a.level, level);
        assert_eq!(a.body.size, sizes[level]);
        assert_eq!((a.body.x, a.body.y), (1_000, 2_000));
        assert!(a.body.speed_x >= -500 && a.body.speed_x < 500);
        assert!(a.body.speed_y >= -500 && a.body.speed_y < 500);
        assert!(!a.is_destroyed);
    }
}

#[test]
fn drift_is_random() {
    let mut seen = std::collections::HashSet::new();
    for _ in 0..50 {
        let a = create_enemy_at(0, 0, 1);
        seen.insert(a.body.speed_x);
    }
    assert!(seen.len() > 1);
}

#[test]
fn intersects_uses_manhattan_threshold() {
    let mut a = Asteroid::new();
    a.set_size(50_000);
    a.body.x = 200_000;
    a.body.y = 400_000;
    let mut s = Spaceship::new();
    s.set_x(200_000 + 100_000);
    s.set_y(400_000 + 124_990);
    assert!(a.intersects(&s));
    s.set_y(400_000 + 125_000);
    assert!(!a.intersects(&s));
}

#[test]
fn trig_table_values() {
    assert_eq!(sine_of(0), 0);
    assert_eq!(sine_of(90), 1_000);
    assert_eq!(sine_of(270), -1_000);
    assert_eq!(cosine_of(0), 1_000);
    assert_eq!(cosine_of(180), -1_000);
    assert_eq!(cosine_of(60), 500);
    assert_eq!(sine_of(210), -500);
}
