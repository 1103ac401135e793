use asteroids::character::Character;
use asteroids::control::{frame_due, handle_inputs, pacing_delay, HeldKeys, InputEvent};
use asteroids::spaceship::Spaceship;

#[test]
fn new_ship_is_at_rest() {
    let s = Spaceship::new();
    assert_eq!((s.body.x, s.body.y, s.body.speed_x, s.body.speed_y), (0, 0, 0, 0));
    assert_eq!(s.body.size, 25_000);
    assert_eq!(s.rotation, 0);
    assert!(s.bullets.is_empty());
}

#[test]
fn fire_twice_within_cooldown_gives_one_projectile() {
    let mut s = Spaceship::new();
    s.set_x(320_000);
    s.set_y(240_000);
    s.fire();
    assert_eq!(s.bullets.len(), 1);
    assert_eq!(s.fire_cooldown, 10);
    for _ in 0..9 {
        s.step();
    }
    s.fire();
    assert_eq!(s.bullets.len(), 1);
}

#[test]
fn fire_every_tenth_tick_shoots_each_time() {
    let mut s = Spaceship::new();
    s.set_x(320_000);
    s.set_y(240_000);
    s.right();
    s.right();
    s.right();
    for k in 1..4 {
        s.fire();
        assert_eq!(s.bullets.len(), k);
        for _ in 0..10 {
            s.step();
        }
    }
}

#[test]
fn projectile_launch_speed_and_facing() {
    let mut s = Spaceship::new();
    s.set_x(320_000);
    s.set_y(240_000);
    for _ in 0..45 {
        s.right();
    }
    assert_eq!(s.rotation, 90);
    s.fire();
    let b = s.bullets[0];
    assert_eq!((b.body.x, b.body.y), (320_000, 240_000));
    assert_eq!((b.body.speed_x, b.body.speed_y), (0, 8_000));
    assert_eq!(b.rotation, 90);
    assert_eq!(b.body.size, 5_000);
}

#[test]
fn destroyed_projectiles_are_purged_in_order() {
    let mut s = Spaceship::new();
    s.set_x(320_000);
    s.set_y(240_000);
    for _ in 0..3 {
        s.fire();
        for _ in 0..10 {
            s.step();
        }
        s.right();
    }
    assert_eq!(s.bullets.len(), 3);
    let rotations: Vec<i64> = s.bullets.iter().map(|b| b.rotation).collect();
    s.bullets[1].destroy();
    s.clean_bullet_store();
    assert_eq!(s.bullets.len(), 2);
    assert_eq!(s.bullets[0].rotation, rotations[0]);
    assert_eq!(s.bullets[1].rotation, rotations[2]);
}

#[test]
fn projectile_leaves_the_stage_and_is_purged() {
    let mut s = Spaceship::new();
    s.set_x(600_000);
    s.set_y(240_000);
    s.fire();
    for _ in 0..5 {
        s.step();
    }
    assert_eq!(s.bullets.len(), 1);
    assert_eq!(s.bullets[0].body.x, 640_000);
    s.step();
    assert!(s.bullets.is_empty());
}

#[test]
fn thrust_stops_at_the_cap() {
    let mut s = Spaceship::new();
    for _ in 0..10 {
        s.up();
        assert!(s.body.speed_x.abs() <= 3_000);
    }
    assert_eq!(s.body.speed_x, 3_000);
    assert_eq!(s.body.speed_y, 0);
    s.down();
    assert_eq!(s.body.speed_x, 2_000);
}

#[test]
fn braking_is_allowed_past_the_cap() {
    let mut s = Spaceship::new();
    for _ in 0..4 {
        s.down();
    }
    assert_eq!(s.body.speed_x, -3_000);
    s.up();
    assert_eq!(s.body.speed_x, -2_000);
    s.body.speed_x = 3_500;
    s.down();
    assert_eq!(s.body.speed_x, 2_500);
}

#[test]
fn off_axis_thrust_overshoots_by_less_than_one_increment() {
    let mut s = Spaceship::new();
    for _ in 0..23 {
        s.right();
    }
    assert_eq!(s.rotation, 46);
    for _ in 0..10 {
        s.up();
    }
    assert_eq!(s.body.speed_x, 3_475);
    assert!(s.body.speed_x < 3_000 + 695);
}

#[test]
fn turning_wraps_the_heading() {
    let mut s = Spaceship::new();
    s.left();
    assert_eq!(s.rotation, 358);
    s.right();
    s.right();
    assert_eq!(s.rotation, 2);
}

#[test]
fn ship_outline_has_hull_and_projectiles() {
    let mut s = Spaceship::new();
    s.set_x(320_000);
    s.set_y(240_000);
    let hull = s.draw_character();
    assert_eq!(hull.len(), 3);
    assert_eq!(hull[0].0, (320, 240));
    assert_eq!(hull[2].1, (320, 240));
    assert_eq!(hull[0].1, (298, 252));
    assert_eq!(hull[1].1, (298, 229));
    s.fire();
    assert_eq!(s.draw_character().len(), 4);
}

#[test]
fn quit_event_stops_the_game() {
    let mut s = Spaceship::new();
    let held = HeldKeys { left: true, right: false, fire: true };
    let going = handle_inputs(&vec![InputEvent::Up, InputEvent::Quit, InputEvent::Up], held, &mut s);
    assert!(!going);
    assert_eq!(s.body.speed_x, 1_000);
    assert_eq!(s.rotation, 0);
    assert!(s.bullets.is_empty());
}

#[test]
fn held_keys_turn_and_fire() {
    let mut s = Spaceship::new();
    s.set_x(320_000);
    s.set_y(240_000);
    let held = HeldKeys { left: false, right: true, fire: true };
    let going = handle_inputs(&vec![InputEvent::Down], held, &mut s);
    assert!(going);
    assert_eq!(s.body.speed_x, -1_000);
    assert_eq!(s.rotation, 2);
    assert_eq!(s.bullets.len(), 1);
    assert_eq!(s.fire_cooldown, 10);
}

#[test]
fn cadence_decisions() {
    assert!(!frame_due(1_016, 1_000));
    assert!(frame_due(1_017, 1_000));
    assert!(!frame_due(5, 10));
    assert_eq!(pacing_delay(1_002, 1_000), 4);
    assert_eq!(pacing_delay(1_006, 1_000), 0);
    assert_eq!(pacing_delay(1_000, 2_000), 6);
}
