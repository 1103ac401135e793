use vstd::prelude::*;
use crate::asteroid::{hits, is_outline, Asteroid, DRIFT, MAX_LEVEL};
use crate::bullet::Bullet;
use crate::character::Character;
use crate::kinematics::{abs, POS_LIMIT};
use crate::spaceship::{live, Spaceship};

verus! {

/// Number of fragments that a hit on an asteroid above the smallest tier spawns.
pub const FRAGMENTS: usize = 4;

/// Size of an asteroid of each tier: 15, 20, 30 and 50 pixels.
pub open spec fn tier_size(level: int) -> int {
    if level == 0 {
        15_000
    } else if level == 1 {
        20_000
    } else if level == 2 {
        30_000
    } else {
        50_000
    }
}

fn tier_size_of(level: usize) -> (r: i64)
    requires
        level <= MAX_LEVEL,
    ensures
        r == tier_size(level as int),
{
    if level == 0 {
        15_000
    } else if level == 1 {
        20_000
    } else if level == 2 {
        30_000
    } else {
        50_000
    }
}

/// `a` is a freshly spawned asteroid of the given tier at `(x, y)`, with a
/// random drift and a random outline.
pub open spec fn is_spawn(a: Asteroid, x: int, y: int, level: int) -> bool {
    &&& a.wf()
    &&& a.body.x == x
    &&& a.body.y == y
    &&& a.body.size == tier_size(level)
    &&& a.level == level
    &&& -DRIFT <= a.body.speed_x < DRIFT
    &&& -DRIFT <= a.body.speed_y < DRIFT
    &&& is_outline(a.shape@, a.body.size as int)
    &&& !a.is_destroyed
}

/// A new asteroid of the given tier at `(x, y)`.
pub fn create_enemy_at(x: i64, y: i64, level: usize) -> (r: Asteroid)
    requires
        abs(x as int) <= POS_LIMIT,
        abs(y as int) <= POS_LIMIT,
        level <= MAX_LEVEL,
    ensures
        is_spawn(r, x as int, y as int, level as int),
{
    let mut enemy = Asteroid::new();
    enemy.level = level;
    enemy.set_size(tier_size_of(level));
    enemy.init();
    enemy.set_x(x);
    enemy.set_y(y);
    enemy
}

/// A live projectile that is close enough to the asteroid.
pub open spec fn struck(a: Asteroid, b: Bullet) -> bool {
    !b.is_destroyed && hits(a.body.size as int, a.center(), b.center())
}

/// The projectiles after the asteroid's pass: those that struck it are destroyed.
pub open spec fn strike_bullets(a: Asteroid, bs: Seq<Bullet>) -> Seq<Bullet> {
    bs.map_values(
        |b: Bullet|
            if struck(a, b) {
                Bullet { is_destroyed: true, ..b }
            } else {
                b
            },
    )
}

/// The test of a projectile against the asteroid, as a predicate.
pub open spec fn striker(a: Asteroid) -> spec_fn(Bullet) -> bool {
    |b: Bullet| struck(a, b)
}

/// How many projectiles strike the asteroid.
pub open spec fn strikes(a: Asteroid, bs: Seq<Bullet>) -> nat {
    bs.filter(striker(a)).len()
}

/// Where, and of which tier, the fragments of `n` strikes on `a` spawn:
/// `FRAGMENTS` per strike above the smallest tier, none at the smallest.
pub open spec fn fragments_of(a: Asteroid, n: nat) -> Seq<(int, int, int)> {
    if a.level > 1 {
        Seq::new((FRAGMENTS * n) as nat, |k: int| (a.body.x as int, a.body.y as int, a.level - 1))
    } else {
        Seq::empty()
    }
}

/// The projectiles after the passes of all the asteroids, in order.
pub open spec fn sweep(asts: Seq<Asteroid>, bs: Seq<Bullet>) -> Seq<Bullet>
    decreases asts.len(),
{
    if asts.len() == 0 {
        bs
    } else {
        strike_bullets(asts.last(), sweep(asts.drop_last(), bs))
    }
}

/// The strikes on the last asteroid, in its turn.
pub open spec fn last_strikes(asts: Seq<Asteroid>, bs: Seq<Bullet>) -> nat {
    strikes(asts.last(), sweep(asts.drop_last(), bs))
}

/// The asteroids that come out of the pass whole, in order.
pub open spec fn survivors(asts: Seq<Asteroid>, bs: Seq<Bullet>) -> Seq<Asteroid>
    decreases asts.len(),
{
    if asts.len() == 0 {
        Seq::empty()
    } else if !asts.last().is_destroyed && last_strikes(asts, bs) == 0 {
        survivors(asts.drop_last(), bs).push(asts.last())
    } else {
        survivors(asts.drop_last(), bs)
    }
}

/// Position and tier of every fragment that the pass spawns, in order.
pub open spec fn spawns(asts: Seq<Asteroid>, bs: Seq<Bullet>) -> Seq<(int, int, int)>
    decreases asts.len(),
{
    if asts.len() == 0 {
        Seq::empty()
    } else {
        spawns(asts.drop_last(), bs) + fragments_of(asts.last(), last_strikes(asts, bs))
    }
}

/// Some asteroid touches the ship.
pub open spec fn ship_struck(asts: Seq<Asteroid>, ship: Spaceship) -> bool {
    exists|i: int|
        0 <= i < asts.len() && hits(
            (#[trigger] asts[i]).body.size as int,
            asts[i].center(),
            ship.center(),
        )
}

/// The pass of one asteroid over the ship's projectiles: each live one that
/// strikes it is destroyed, the asteroid is destroyed if struck at all, and
/// each strike spawns its fragments into `fresh`.
fn strike(enemy: &mut Asteroid, bullets: &mut Vec<Bullet>, fresh: &mut Vec<Asteroid>)
    requires
        old(enemy).wf(),
        forall|j: int| 0 <= j < old(bullets)@.len() ==> (#[trigger] old(bullets)@[j]).wf(),
    ensures
        final(enemy).body == old(enemy).body,
        final(enemy).shape == old(enemy).shape,
        final(enemy).level == old(enemy).level,
        final(enemy).is_destroyed == (old(enemy).is_destroyed || strikes(
            *old(enemy),
            old(bullets)@,
        ) > 0),
        final(enemy).wf(),
        final(bullets)@ == strike_bullets(*old(enemy), old(bullets)@),
        forall|j: int| 0 <= j < final(bullets)@.len() ==> (#[trigger] final(bullets)@[j]).wf(),
        final(fresh)@.len() == old(fresh)@.len() + fragments_of(
            *old(enemy),
            strikes(*old(enemy), old(bullets)@),
        ).len(),
        forall|k: int|
            0 <= k < old(fresh)@.len() ==> #[trigger] final(fresh)@[k] == old(fresh)@[k],
        forall|k: int|
            0 <= k < fragments_of(*old(enemy), strikes(*old(enemy), old(bullets)@)).len() ==> {
                let p = #[trigger] fragments_of(
                    *old(enemy),
                    strikes(*old(enemy), old(bullets)@),
                )[k];
                is_spawn(final(fresh)@[old(fresh)@.len() + k], p.0, p.1, p.2)
            },
{
    let ghost a = *old(enemy);
    let ghost bs = old(bullets)@;
    let ghost f0 = old(fresh)@;
    let n = bullets.len();
    let mut i: usize = 0;
    let ghost mut count: nat = 0;
    while i < n
        invariant
            a.wf(),
            n == bullets@.len(),
            n == bs.len(),
            i <= n,
            enemy.body == a.body,
            enemy.shape == a.shape,
            enemy.level == a.level,
            enemy.is_destroyed == (a.is_destroyed || count > 0),
            count == strikes(a, bs.subrange(0, i as int)),
            forall|j: int| 0 <= j < bs.len() ==> (#[trigger] bs[j]).wf(),
            forall|j: int| 0 <= j < i ==> bullets@[j] == strike_bullets(a, bs)[j],
            forall|j: int| i <= j < n ==> bullets@[j] == bs[j],
            fresh@.len() == f0.len() + fragments_of(a, count).len(),
            forall|k: int| 0 <= k < f0.len() ==> #[trigger] fresh@[k] == f0[k],
            forall|k: int|
                0 <= k < fragments_of(a, count).len() ==> {
                    let p = #[trigger] fragments_of(a, count)[k];
                    is_spawn(fresh@[f0.len() + k], p.0, p.1, p.2)
                },
        decreases n - i,
    {
        let b = bullets[i];
        proof {
            reveal(Seq::filter);
            assert(bs.subrange(0, i + 1).drop_last() =~= bs.subrange(0, i as int));
            assert(bs.subrange(0, i + 1).last() == b);
        }
        if !b.is_destroyed && enemy.intersects(&b) {
            let ghost before = fresh@;
            if enemy.level > 1 {
                let mut m: usize = 0;
                while m < FRAGMENTS
                    invariant
                        a.wf(),
                        a.level > 1,
                        enemy.body == a.body,
                        enemy.level == a.level,
                        m <= FRAGMENTS,
                        fresh@.len() == before.len() + m,
                        forall|k: int| 0 <= k < before.len() ==> #[trigger] fresh@[k] == before[k],
                        forall|k: int|
                            before.len() <= k < fresh@.len() ==> is_spawn(
                                #[trigger] fresh@[k],
                                a.body.x as int,
                                a.body.y as int,
                                a.level - 1,
                            ),
                    decreases FRAGMENTS - m,
                {
                    let child = create_enemy_at(enemy.body.x, enemy.body.y, enemy.level - 1);
                    fresh.push(child);
                    m = m + 1;
                }
            }
            proof {
                assert forall|k: int|
                    0 <= k < fragments_of(a, count + 1).len() implies {
                    let p = #[trigger] fragments_of(a, count + 1)[k];
                    is_spawn(fresh@[f0.len() + k], p.0, p.1, p.2)
                } by {
                    if k < fragments_of(a, count).len() {
                        assert(fragments_of(a, count)[k] == fragments_of(a, count + 1)[k]);
                    }
                }
                count = count + 1;
            }
            enemy.destroy();
            let mut hit = b;
            hit.destroy();
            bullets.set(i, hit);
        }
        i = i + 1;
    }
    proof {
        assert(bs.subrange(0, n as int) =~= bs);
        assert(bullets@ =~= strike_bullets(a, bs));
    }
}

/// One simulation tick. The ship and its projectiles step; then each asteroid
/// in turn steps, destroys the ship if it touches it, and is struck by the
/// live projectiles close enough to it. Destroyed projectiles are purged,
/// destroyed asteroids removed, and the fragments appended after the
/// surviving asteroids. A projectile stops at the first asteroid it strikes;
/// an asteroid struck by several projectiles in one tick fragments once for
/// each of them.
pub fn advance(player: &mut Spaceship, enemies: &mut Vec<Asteroid>)
    requires
        old(player).wf(),
        forall|i: int| 0 <= i < old(enemies)@.len() ==> (#[trigger] old(enemies)@[i]).wf(),
    ensures
        ({
            let asts = old(enemies)@.map_values(|a: Asteroid| a.stepped());
            let bs = live(old(player).bullets@.map_values(|b: Bullet| b.stepped()));
            let spawned = spawns(asts, bs);
            let kept = survivors(asts, bs);
            &&& final(player).wf()
            &&& final(player).body == old(player).body.moved().wrapped()
            &&& final(player).fire_cooldown == old(player).stepped_cooldown()
            &&& final(player).rotation == old(player).rotation
            &&& final(player).is_destroyed == (old(player).is_destroyed || ship_struck(
                asts,
                *final(player),
            ))
            &&& final(player).bullets@ == live(sweep(asts, bs))
            &&& final(enemies)@.len() == kept.len() + spawned.len()
            &&& forall|i: int| 0 <= i < kept.len() ==> #[trigger] final(enemies)@[i] == kept[i]
            &&& forall|k: int|
                0 <= k < spawned.len() ==> {
                    let p = #[trigger] spawned[k];
                    is_spawn(final(enemies)@[kept.len() + k], p.0, p.1, p.2)
                }
            &&& forall|i: int| 0 <= i < final(enemies)@.len() ==> (#[trigger] final(enemies)@[i]).wf()
        }),
{
    player.step();
    let ghost ship = *player;
    let ghost asts = old(enemies)@.map_values(|a: Asteroid| a.stepped());
    let ghost bs = player.bullets@;
    let mut pending: Vec<Asteroid> = Vec::new();
    std::mem::swap(enemies, &mut pending);
    let mut kept: Vec<Asteroid> = Vec::new();
    let mut fresh: Vec<Asteroid> = Vec::new();
    let ghost n = pending@.len();
    let ghost mut i: int = 0;
    while pending.len() > 0
        invariant
            0 <= i <= n,
            n == asts.len(),
            pending@.len() == n - i,
            forall|j: int| 0 <= j < pending@.len() ==> #[trigger] pending@[j] == old(enemies)@[i + j],
            forall|j: int| 0 <= j < n ==> (#[trigger] old(enemies)@[j]).wf(),
            forall|j: int| 0 <= j < n ==> #[trigger] asts[j] == old(enemies)@[j].stepped(),
            player.wf(),
            player.body == ship.body,
            player.fire_cooldown == ship.fire_cooldown,
            player.rotation == ship.rotation,
            player.is_destroyed == (ship.is_destroyed || ship_struck(asts.take(i), ship)),
            player.bullets@ == sweep(asts.take(i), bs),
            kept@ == survivors(asts.take(i), bs),
            forall|j: int| 0 <= j < kept@.len() ==> (#[trigger] kept@[j]).wf(),
            fresh@.len() == spawns(asts.take(i), bs).len(),
            forall|k: int|
                0 <= k < spawns(asts.take(i), bs).len() ==> {
                    let p = #[trigger] spawns(asts.take(i), bs)[k];
                    is_spawn(fresh@[k], p.0, p.1, p.2)
                },
        decreases pending@.len(),
    {
        let mut enemy = pending.remove(0);
        enemy.step();
        let ghost stepped = enemy;
        let ghost prefix = asts.take(i + 1);
        proof {
            assert(prefix.drop_last() =~= asts.take(i));
            assert(prefix.last() == stepped);
            assert forall|j: int| 0 <= j < pending@.len() implies #[trigger] pending@[j]
                == old(enemies)@[i + 1 + j] by {}
        }
        if enemy.intersects(&*player) {
            player.destroy();
        }
        proof {
            assert(ship_struck(prefix, ship) == (ship_struck(asts.take(i), ship) || hits(
                stepped.body.size as int,
                stepped.center(),
                ship.center(),
            ))) by {
                if hits(stepped.body.size as int, stepped.center(), ship.center()) {
                    assert(prefix[i] == stepped);
                }
                if ship_struck(asts.take(i), ship) {
                    let j = choose|j: int|
                        0 <= j < asts.take(i).len() && hits(
                            (#[trigger] asts.take(i)[j]).body.size as int,
                            asts.take(i)[j].center(),
                            ship.center(),
                        );
                    assert(prefix[j] == asts.take(i)[j]);
                }
                if ship_struck(prefix, ship) {
                    let j = choose|j: int|
                        0 <= j < prefix.len() && hits(
                            (#[trigger] prefix[j]).body.size as int,
                            prefix[j].center(),
                            ship.center(),
                        );
                    if j < i {
                        assert(prefix[j] == asts.take(i)[j]);
                    }
                }
            }
        }
        let ghost f0 = fresh@;
        strike(&mut enemy, &mut player.bullets, &mut fresh);
        if !enemy.is_destroyed {
            kept.push(enemy);
        }
        proof {
            let sp = spawns(asts.take(i), bs);
            let fr = fragments_of(stepped, strikes(stepped, sweep(asts.take(i), bs)));
            assert(spawns(prefix, bs) == sp + fr);
            assert forall|k: int| 0 <= k < spawns(prefix, bs).len() implies {
                let p = #[trigger] spawns(prefix, bs)[k];
                is_spawn(fresh@[k], p.0, p.1, p.2)
            } by {
                if k < sp.len() {
                    assert(spawns(prefix, bs)[k] == sp[k]);
                } else {
                    assert(spawns(prefix, bs)[k] == fr[k - sp.len()]);
                }
            }
            i = i + 1;
        }
    }
    proof {
        assert(asts.take(n as int) =~= asts);
    }
    player.clean_bullet_store();
    let ghost k0 = kept@;
    let ghost f1 = fresh@;
    kept.append(&mut fresh);
    std::mem::swap(enemies, &mut kept);
    proof {
        let sp = spawns(asts, bs);
        assert(enemies@ == k0 + f1);
        assert(player.center() == ship.center());
        assert(ship_struck(asts, *player) == ship_struck(asts, ship));
        assert forall|k: int| 0 <= k < sp.len() implies {
            let p = #[trigger] sp[k];
            is_spawn(enemies@[k0.len() + k], p.0, p.1, p.2)
        } by {
            assert(enemies@[k0.len() + k] == f1[k]);
        }
        assert forall|j: int| 0 <= j < enemies@.len() implies (#[trigger] enemies@[j]).wf() by {
            if j >= k0.len() {
                let p = sp[j - k0.len()];
                assert(is_spawn(f1[j - k0.len()], p.0, p.1, p.2));
            }
        }
    }
}

/// Fragmentation: in a tick where one projectile strikes a lone asteroid, the
/// asteroid does not survive, and it leaves `FRAGMENTS` asteroids one tier
/// down at its last position if above the smallest tier, and none on it.
/// When that projectile was the only one, none is left after the purge.
pub proof fn lemma_fragmentation(a: Asteroid, bs: Seq<Bullet>)
    requires
        strikes(a, bs) == 1,
    ensures
        bs.len() == 1 ==> live(sweep(seq![a], bs)).len() == 0,
        survivors(seq![a], bs).len() == 0,
        a.level > 1 ==> spawns(seq![a], bs).len() == FRAGMENTS,
        a.level > 1 ==> forall|k: int|
            0 <= k < FRAGMENTS ==> #[trigger] spawns(seq![a], bs)[k] == (
                a.body.x as int,
                a.body.y as int,
                a.level - 1,
            ),
        a.level <= 1 ==> spawns(seq![a], bs).len() == 0,
{
    let asts = seq![a];
    assert(asts.drop_last() =~= Seq::<Asteroid>::empty());
    assert(asts.last() == a);
    assert(sweep(asts.drop_last(), bs) == bs);
    assert(last_strikes(asts, bs) == 1);
    assert(spawns(asts.drop_last(), bs) == Seq::<(int, int, int)>::empty());
    assert(survivors(asts.drop_last(), bs) == Seq::<Asteroid>::empty());
    assert(spawns(asts, bs) =~= fragments_of(a, 1));
    if bs.len() == 1 {
        reveal(Seq::filter);
        let f = bs.filter(striker(a));
        bs.filter_lemma(striker(a));
        bs.lemma_filter_contains_rev(striker(a), f[0]);
        assert(f.len() == 1);
        assert(striker(a)(f[0]));
        assert(bs.contains(f[0]));
        assert(struck(a, bs[0]));
        let after = sweep(asts, bs);
        assert(after == strike_bullets(a, bs));
        assert(after.len() == 1);
        assert(after[0].is_destroyed);
        assert(after.drop_last() =~= Seq::<Bullet>::empty());
        assert(live(after) == live(after.drop_last()));
    }
}

} // verus!
