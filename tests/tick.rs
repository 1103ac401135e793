use asteroids::asteroid::Asteroid;
use asteroids::bullet::Bullet;
use asteroids::character::Character;
use asteroids::game::{advance, create_enemy_at};
use asteroids::kinematics::Body;
use asteroids::spaceship::Spaceship;

fn still(x: i64, y: i64, level: usize) -> Asteroid {
    let mut a = create_enemy_at(x, y, level);
    a.body.speed_x = 0;
    a.body.speed_y = 0;
    a
}

#[test]
fn end_to_end_tier_three_splits_into_four() {
    let mut player = Spaceship::new();
    player.set_x(320_000);
    player.set_y(240_000);
    for _ in 0..63 {
        player.right();
    }
    assert_eq!(player.rotation, 126);
    let mut enemies = vec![create_enemy_at(200_000, 400_000, 3)];
    player.fire();
    let mut ticks = 0;
    while enemies.len() == 1 && enemies[0].level == 3 && ticks < 100 {
        advance(&mut player, &mut enemies);
        ticks += 1;
    }
    assert!(ticks < 100);
    assert!(!player.is_destroyed);
    assert_eq!(enemies.len(), 4);
    let (x, y) = (enemies[0].body.x, enemies[0].body.y);
    for e in enemies.iter() {
        assert_eq!(e.level, 2);
        assert_eq!(e.body.size, 30_000);
        assert_eq!((e.body.x, e.body.y), (x, y));
        assert_eq!(e.shape.len(), 26);
        assert!(!e.is_destroyed);
    }
    assert!((x - 200_000).abs() <= 500 * ticks);
    assert!(player.bullets.is_empty());
}

#[test]
fn smallest_tier_leaves_no_fragments() {
    let mut player = Spaceship::new();
    player.set_x(320_000);
    player.set_y(240_000);
    player.fire();
    let mut enemies = vec![still(340_000, 240_000, 1)];
    advance(&mut player, &mut enemies);
    assert!(enemies.is_empty());
    assert!(player.bullets.is_empty());
}

#[test]
fn ship_touching_an_asteroid_is_destroyed() {
    let mut player = Spaceship::new();
    player.set_x(100_000);
    player.set_y(100_000);
    let mut enemies = vec![still(110_000, 105_000, 3)];
    advance(&mut player, &mut enemies);
    assert!(player.is_destroyed);
    assert_eq!(enemies.len(), 1);
}

#[test]
fn untouched_asteroids_survive_in_order() {
    let mut player = Spaceship::new();
    player.set_x(320_000);
    player.set_y(240_000);
    let mut enemies = vec![still(50_000, 50_000, 1), still(600_000, 50_000, 2)];
    enemies[0].body.speed_x = 100;
    advance(&mut player, &mut enemies);
    assert_eq!(enemies.len(), 2);
    assert_eq!(enemies[0].body.x, 50_100);
    assert_eq!(enemies[1].level, 2);
    assert!(!player.is_destroyed);
}

#[test]
fn two_hits_in_one_tick_fragment_twice() {
    let mut player = Spaceship::new();
    player.set_x(320_000);
    player.set_y(240_000);
    let mut b = Bullet::new();
    b.body = Body { x: 300_000, y: 240_000, speed_x: 0, speed_y: 0, size: 5_000 };
    player.bullets.push(b);
    player.bullets.push(b);
    let mut enemies = vec![still(300_000, 240_000, 2)];
    advance(&mut player, &mut enemies);
    assert_eq!(enemies.len(), 8);
    for e in enemies.iter() {
        assert_eq!(e.level, 1);
        assert_eq!((e.body.x, e.body.y), (300_000, 240_000));
    }
    assert!(player.bullets.is_empty());
}

#[test]
fn fragments_follow_survivors() {
    let mut player = Spaceship::new();
    player.set_x(320_000);
    player.set_y(240_000);
    let mut b = Bullet::new();
    b.body = Body { x: 100_000, y: 100_000, speed_x: 0, speed_y: 0, size: 5_000 };
    player.bullets.push(b);
    let mut enemies = vec![still(100_000, 100_000, 2), still(500_000, 400_000, 3)];
    advance(&mut player, &mut enemies);
    assert_eq!(enemies.len(), 5);
    assert_eq!(enemies[0].level, 3);
    for e in enemies[1..].iter() {
        assert_eq!(e.level, 1);
        assert_eq!(e.body.size, 20_000);
    }
}
