use vstd::prelude::*;
use crate::bullet::{Bullet, BULLET_SIZE};
use crate::character::Character;
use crate::character::ceil_div;
use crate::character::{ceil_div_of, trunc_div, trunc_div_of};
use crate::kinematics::{abs, Body, POS_LIMIT, SUB};
use crate::trig::{cosine, cosine_of, sine, sine_of, UNIT};

verus! {

/// Size of the ship, 25 pixels.
pub const SHIP_SIZE: i64 = 25_000;

/// Speed cap per axis for same-direction thrust, 3 pixels per tick.
pub const MAX_SPEED: i64 = 3_000;

/// Launch speed of a projectile, in pixels per tick.
pub const BULLET_SPEED: i64 = 8;

/// Ticks to wait after a shot before the next one.
pub const FIRE_COOLDOWN: usize = 10;

/// Offset in degrees that places the hull's far corners, measured as in
/// `hull_corner`; it puts them 27 degrees to either side of the rear.
pub const HULL_ANGLE: i64 = 63;

/// Degrees turned per control tick.
pub const TURN_STEP: i64 = 2;

/// Signs differ, with zero counted as positive.
pub open spec fn is_inverse_spec(a: int, b: int) -> bool {
    (a < 0) != (b < 0)
}

/// One axis of a thrust: the contribution `d` is added while the speed is
/// under the cap, or whenever it opposes the speed (braking).
pub open spec fn thrust_axis(v: int, d: int) -> int {
    if abs(v) < MAX_SPEED || is_inverse_spec(v, d) {
        v + d
    } else {
        v
    }
}

/// `n` thrusts in a row on one axis, each contributing `d`.
pub open spec fn thrusts(v: int, d: int, n: nat) -> int
    decreases n,
{
    if n == 0 {
        v
    } else {
        thrust_axis(thrusts(v, d, (n - 1) as nat), d)
    }
}

/// The projectiles that are not destroyed, in their order.
pub open spec fn live(bullets: Seq<Bullet>) -> Seq<Bullet> {
    bullets.filter(|b: Bullet| !b.is_destroyed)
}

/// The projectiles kept by `live` are live, and well formed when every live
/// one was.
proof fn lemma_live_wf(bullets: Seq<Bullet>)
    requires
        forall|i: int|
            0 <= i < bullets.len() && !(#[trigger] bullets[i]).is_destroyed ==> bullets[i].wf(),
    ensures
        forall|j: int|
            0 <= j < live(bullets).len() ==> (#[trigger] live(bullets)[j]).wf()
                && !live(bullets)[j].is_destroyed,
    decreases bullets.len(),
{
    reveal(Seq::filter);
    if bullets.len() > 0 {
        let rest = bullets.drop_last();
        lemma_live_wf(rest);
        assert(forall|j: int| 0 <= j < rest.len() ==> rest[j] == bullets[j]);
        assert(live(bullets) == if bullets.last().is_destroyed {
            live(rest)
        } else {
            live(rest).push(bullets.last())
        });
    }
}

fn is_inverse(a: i64, b: i64) -> (r: bool)
    ensures
        r == is_inverse_spec(a as int, b as int),
{
    (a < 0) != (b < 0)
}

/// The player's ship: turns, thrusts, and fires projectiles that it owns.
#[derive(Debug)]
pub struct Spaceship {
    pub body: Body,
    /// Facing, in whole degrees.
    pub rotation: i64,
    pub fire_cooldown: usize,
    pub bullets: Vec<Bullet>,
    pub is_destroyed: bool,
}

impl Spaceship {
    pub open spec fn wf(self) -> bool {
        &&& self.wf_hull()
        &&& forall|i: int| 0 <= i < self.bullets@.len() ==> (#[trigger] self.bullets@[i]).wf()
    }

    /// The invariant on the ship's own state, its projectiles aside.
    pub open spec fn wf_hull(self) -> bool {
        &&& self.body.wf()
        &&& abs(self.body.speed_x as int) < MAX_SPEED + UNIT
        &&& abs(self.body.speed_y as int) < MAX_SPEED + UNIT
        &&& 0 <= self.rotation < 360
        &&& self.fire_cooldown <= FIRE_COOLDOWN
    }

    /// The projectile that a shot launches now.
    pub open spec fn launched(self) -> Bullet {
        Bullet {
            body: Body {
                x: self.body.x,
                y: self.body.y,
                speed_x: (BULLET_SPEED * cosine(self.rotation as int)) as i64,
                speed_y: (BULLET_SPEED * sine(self.rotation as int)) as i64,
                size: BULLET_SIZE,
            },
            rotation: self.rotation,
            is_destroyed: false,
        }
    }

    /// The ship after a thrust of `s` pixels along its facing.
    pub open spec fn thrusted(self, s: int) -> Spaceship {
        Spaceship {
            body: Body {
                speed_x: thrust_axis(self.body.speed_x as int, s * cosine(self.rotation as int)) as i64,
                speed_y: thrust_axis(self.body.speed_y as int, s * sine(self.rotation as int)) as i64,
                ..self.body
            },
            ..self
        }
    }

    /// The ship after turning by `r` degrees.
    pub open spec fn turned(self, r: int) -> Spaceship {
        Spaceship { rotation: ((self.rotation + r) % 360) as i64, ..self }
    }

    /// A shot is possible now.
    pub open spec fn can_fire(self) -> bool {
        self.fire_cooldown == 0
    }

    /// The cooldown after `fire`.
    pub open spec fn fired_cooldown(self) -> usize {
        if self.can_fire() {
            FIRE_COOLDOWN
        } else {
            self.fire_cooldown
        }
    }

    /// The projectiles after `fire`: the new shot, if any, is appended, and
    /// destroyed ones are purged.
    pub open spec fn fired_bullets(self) -> Seq<Bullet> {
        if self.can_fire() {
            live(self.bullets@.push(self.launched()))
        } else {
            live(self.bullets@)
        }
    }

    /// The cooldown after one tick.
    pub open spec fn stepped_cooldown(self) -> usize {
        if self.fire_cooldown > 0 {
            (self.fire_cooldown - 1) as usize
        } else {
            0
        }
    }

    /// The cooldown after `k` ticks.
    pub open spec fn cooldown_after(self, k: nat) -> int
        decreases k,
    {
        if k == 0 {
            self.fire_cooldown as int
        } else {
            let c = self.cooldown_after((k - 1) as nat);
            if c > 0 {
                c - 1
            } else {
                0
            }
        }
    }

    pub fn new() -> (r: Spaceship)
        ensures
            r.wf(),
            r.body == (Body { x: 0, y: 0, speed_x: 0, speed_y: 0, size: SHIP_SIZE }),
            r.rotation == 0,
            r.fire_cooldown == 0,
            r.bullets@.len() == 0,
            !r.is_destroyed,
    {
        Spaceship {
            body: Body { x: 0, y: 0, speed_x: 0, speed_y: 0, size: SHIP_SIZE },
            rotation: 0,
            fire_cooldown: 0,
            bullets: Vec::new(),
            is_destroyed: false,
        }
    }

    /// Thrust of `s` pixels (forward 1, reverse -1) along the facing, applied
    /// per axis under the cap or when braking.
    fn change_speed(&mut self, s: i64)
        requires
            old(self).wf(),
            s == 1 || s == -1,
        ensures
            final(self).wf(),
            final(self).body.speed_x == thrust_axis(
                old(self).body.speed_x as int,
                s * cosine(old(self).rotation as int),
            ),
            final(self).body.speed_y == thrust_axis(
                old(self).body.speed_y as int,
                s * sine(old(self).rotation as int),
            ),
            final(self).body.x == old(self).body.x,
            final(self).body.y == old(self).body.y,
            final(self).body.size == old(self).body.size,
            final(self).rotation == old(self).rotation,
            final(self).fire_cooldown == old(self).fire_cooldown,
            final(self).bullets == old(self).bullets,
            final(self).is_destroyed == old(self).is_destroyed,
    {
        let sx = s * cosine_of(self.rotation);
        let sy = s * sine_of(self.rotation);
        if (-MAX_SPEED < self.body.speed_x && self.body.speed_x < MAX_SPEED) || is_inverse(
            self.body.speed_x,
            sx,
        ) {
            self.body.speed_x = self.body.speed_x + sx;
        }
        if (-MAX_SPEED < self.body.speed_y && self.body.speed_y < MAX_SPEED) || is_inverse(
            self.body.speed_y,
            sy,
        ) {
            self.body.speed_y = self.body.speed_y + sy;
        }
    }

    /// Turns by `r` degrees.
    fn change_rotation(&mut self, r: i64)
        requires
            old(self).wf(),
            -360 < r < 360,
        ensures
            final(self).wf(),
            final(self).rotation == (old(self).rotation + r) % 360,
            final(self).body == old(self).body,
            final(self).fire_cooldown == old(self).fire_cooldown,
            final(self).bullets == old(self).bullets,
            final(self).is_destroyed == old(self).is_destroyed,
    {
        self.rotation = (self.rotation + r + 360) % 360;
    }

    /// Forward thrust.
    pub fn up(&mut self)
        requires
            old(self).wf(),
        ensures
            final(self).wf(),
            *final(self) == old(self).thrusted(1),
    {
        self.change_speed(1);
    }

    /// Reverse thrust.
    pub fn down(&mut self)
        requires
            old(self).wf(),
        ensures
            final(self).wf(),
            *final(self) == old(self).thrusted(-1),
    {
        self.change_speed(-1);
    }

    /// Turns left by `TURN_STEP` degrees.
    pub fn left(&mut self)
        requires
            old(self).wf(),
        ensures
            final(self).wf(),
            *final(self) == old(self).turned(-TURN_STEP as int),
    {
        self.change_rotation(-TURN_STEP);
    }

    /// Turns right by `TURN_STEP` degrees.
    pub fn right(&mut self)
        requires
            old(self).wf(),
        ensures
            final(self).wf(),
            *final(self) == old(self).turned(TURN_STEP as int),
    {
        self.change_rotation(TURN_STEP);
    }

    /// A corner of the hull, `offset` degrees round from the facing, in whole
    /// pixels (rounded up).
    pub open spec fn hull_corner(self, offset: int) -> (i64, i64) {
        let d = (self.rotation + offset) % 360;
        (
            ceil_div(self.body.x * UNIT - self.body.size * sine(d), SUB * UNIT) as i64,
            ceil_div(self.body.y * UNIT + self.body.size * cosine(d), SUB * UNIT) as i64,
        )
    }

    /// The lines that show the ship: its triangular hull from the position
    /// through the two far corners, then each projectile's line in order.
    pub open spec fn segments(self) -> Seq<((i64, i64), (i64, i64))> {
        let start = (
            ceil_div(self.body.x as int, SUB as int) as i64,
            ceil_div(self.body.y as int, SUB as int) as i64,
        );
        let left_corner = self.hull_corner(HULL_ANGLE as int);
        let right_corner = self.hull_corner(180 - HULL_ANGLE);
        seq![(start, left_corner), (left_corner, right_corner), (right_corner, start)] + self.bullets@.map_values(
            |b: Bullet| b.segment(),
        )
    }

    fn hull_corner_of(&self, offset: i64) -> (r: (i64, i64))
        requires
            self.wf(),
            0 <= offset < 360,
        ensures
            r == self.hull_corner(offset as int),
    {
        let d = (self.rotation + offset) % 360;
        let s = sine_of(d);
        let c = cosine_of(d);
        proof {
            assert(abs(self.body.size * c) <= 1_000_000 * UNIT) by (nonlinear_arith)
                requires
                    0 <= self.body.size <= 1_000_000,
                    abs(c as int) <= UNIT,
            ;
            assert(abs(self.body.size * s) <= 1_000_000 * UNIT) by (nonlinear_arith)
                requires
                    0 <= self.body.size <= 1_000_000,
                    abs(s as int) <= UNIT,
            ;
        }
        (
            ceil_div_of(self.body.x * UNIT - self.body.size * s, SUB * UNIT),
            ceil_div_of(self.body.y * UNIT + self.body.size * c, SUB * UNIT),
        )
    }

    /// The lines to draw for the ship and its projectiles, in pixels.
    pub fn draw_character(&self) -> (r: Vec<((i64, i64), (i64, i64))>)
        requires
            self.wf(),
        ensures
            r@ == self.segments(),
    {
        let start = (ceil_div_of(self.body.x, SUB), ceil_div_of(self.body.y, SUB));
        let left_corner = self.hull_corner_of(HULL_ANGLE);
        let right_corner = self.hull_corner_of(180 - HULL_ANGLE);
        let mut lines: Vec<((i64, i64), (i64, i64))> = Vec::new();
        lines.push((start, left_corner));
        lines.push((left_corner, right_corner));
        lines.push((right_corner, start));
        let ghost hull = lines@;
        let n = self.bullets.len();
        let mut i: usize = 0;
        while i < n
            invariant
                self.wf(),
                n == self.bullets@.len(),
                i <= n,
                hull.len() == 3,
                lines@ =~= hull + self.bullets@.subrange(0, i as int).map_values(
                    |b: Bullet| b.segment(),
                ),
            decreases n - i,
        {
            let line = self.bullets[i].draw_character();
            lines.push(line);
            i = i + 1;
        }
        assert(self.bullets@.subrange(0, n as int) =~= self.bullets@);
        lines
    }

    fn set_bullet_speed_and_rot(&self, bullet: &mut Bullet)
        requires
            self.wf(),
            old(bullet).wf(),
        ensures
            final(bullet).wf(),
            final(bullet).body.speed_x == self.launched().body.speed_x,
            final(bullet).body.speed_y == self.launched().body.speed_y,
            final(bullet).rotation == self.rotation,
            final(bullet).body.x == old(bullet).body.x,
            final(bullet).body.y == old(bullet).body.y,
            final(bullet).body.size == old(bullet).body.size,
            final(bullet).is_destroyed == old(bullet).is_destroyed,
    {
        let sx = BULLET_SPEED * cosine_of(self.rotation);
        let sy = BULLET_SPEED * sine_of(self.rotation);
        bullet.set_speed(sx, sy);
        bullet.set_rotation(self.rotation);
    }

    fn spawn_bullet(&self) -> (r: Bullet)
        requires
            self.wf(),
        ensures
            r == self.launched(),
            r.wf(),
    {
        let mut bullet = Bullet::new();
        bullet.set_x(self.body.x);
        bullet.set_y(self.body.y);
        self.set_bullet_speed_and_rot(&mut bullet);
        bullet
    }

    /// Purges destroyed projectiles, keeping the order of the others.
    pub fn clean_bullet_store(&mut self)
        requires
            old(self).wf_hull(),
            forall|i: int|
                0 <= i < old(self).bullets@.len() && !(#[trigger] old(self).bullets@[i]).is_destroyed
                    ==> old(self).bullets@[i].wf(),
        ensures
            final(self).wf(),
            final(self).bullets@ == live(old(self).bullets@),
            final(self).body == old(self).body,
            final(self).rotation == old(self).rotation,
            final(self).fire_cooldown == old(self).fire_cooldown,
            final(self).is_destroyed == old(self).is_destroyed,
    {
        let mut kept: Vec<Bullet> = Vec::new();
        let n = self.bullets.len();
        let mut i: usize = 0;
        while i < n
            invariant
                n == self.bullets@.len(),
                i <= n,
                self == old(self),
                kept@ == live(self.bullets@.subrange(0, i as int)),
                forall|j: int| 0 <= j < kept@.len() ==> (#[trigger] kept@[j]).wf(),
                old(self).wf_hull(),
                forall|j: int|
                    0 <= j < old(self).bullets@.len() && !(#[trigger] old(self).bullets@[j]).is_destroyed
                        ==> old(self).bullets@[j].wf(),
            decreases n - i,
        {
            let b = self.bullets[i];
            proof {
                reveal(Seq::filter);
                assert(self.bullets@.subrange(0, i + 1).drop_last() =~= self.bullets@.subrange(
                    0,
                    i as int,
                ));
                assert(self.bullets@.subrange(0, i + 1).last() == b);
            }
            if !b.is_destroyed {
                kept.push(b);
            }
            i = i + 1;
        }
        proof {
            assert(self.bullets@.subrange(0, n as int) =~= self.bullets@);
        }
        self.bullets = kept;
    }

    /// Fires a projectile if the cooldown allows it, then purges destroyed
    /// projectiles.
    pub fn fire(&mut self)
        requires
            old(self).wf(),
        ensures
            final(self).wf(),
            final(self).bullets@ == old(self).fired_bullets(),
            final(self).fire_cooldown == old(self).fired_cooldown(),
            final(self).body == old(self).body,
            final(self).rotation == old(self).rotation,
            final(self).is_destroyed == old(self).is_destroyed,
    {
        if self.fire_cooldown == 0 {
            let bullet = self.spawn_bullet();
            self.bullets.push(bullet);
            self.fire_cooldown = FIRE_COOLDOWN;
            assert(forall|i: int|
                0 <= i < self.bullets@.len() ==> (#[trigger] self.bullets@[i]).wf());
        }
        self.clean_bullet_store();
    }
}

impl Character for Spaceship {
    open spec fn body_of(&self) -> Body {
        self.body
    }

    open spec fn well_formed(&self) -> bool {
        self.wf()
    }

    /// The position, truncated to a whole pixel.
    open spec fn center(&self) -> (int, int) {
        (SUB * trunc_div(self.body.x as int, SUB as int), SUB * trunc_div(self.body.y as int, SUB as int))
    }

    open spec fn destroyed(&self) -> bool {
        self.is_destroyed
    }

    fn get_x(&self) -> (r: i64) {
        self.body.x
    }

    fn get_y(&self) -> (r: i64) {
        self.body.y
    }

    fn get_size(&self) -> (r: i64) {
        self.body.size
    }

    fn set_x(&mut self, x: i64)
        ensures
            *final(self) == (Spaceship { body: Body { x, ..old(self).body }, ..*old(self) }),
    {
        self.body.x = x;
    }

    fn set_y(&mut self, y: i64)
        ensures
            *final(self) == (Spaceship { body: Body { y, ..old(self).body }, ..*old(self) }),
    {
        self.body.y = y;
    }

    fn get_center(&self) -> (r: (i64, i64)) {
        (SUB * trunc_div_of(self.body.x, SUB), SUB * trunc_div_of(self.body.y, SUB))
    }

    fn check_out_of_stage(&self) -> (r: bool) {
        self.body.check_out_of_stage()
    }

    /// Moves and wraps the ship, counts the cooldown down, steps every
    /// projectile it owns, then purges the destroyed ones.
    fn step(&mut self)
        ensures
            final(self).wf(),
            final(self).body == old(self).body.moved().wrapped(),
            final(self).fire_cooldown == old(self).stepped_cooldown(),
            final(self).bullets@ == live(old(self).bullets@.map_values(|b: Bullet| b.stepped())),
            final(self).rotation == old(self).rotation,
            final(self).is_destroyed == old(self).is_destroyed,
    {
        self.body.step_wrapping();
        if self.fire_cooldown > 0 {
            self.fire_cooldown = self.fire_cooldown - 1;
        }
        let n = self.bullets.len();
        let mut i: usize = 0;
        while i < n
            invariant
                n == self.bullets@.len(),
                n == old(self).bullets@.len(),
                i <= n,
                self.body == old(self).body.moved().wrapped(),
                self.fire_cooldown == old(self).stepped_cooldown(),
                self.rotation == old(self).rotation,
                self.is_destroyed == old(self).is_destroyed,
                self.body.wf(),
                old(self).wf(),
                forall|j: int| 0 <= j < i ==> self.bullets@[j] == old(self).bullets@[j].stepped(),
                forall|j: int| i <= j < n ==> self.bullets@[j] == old(self).bullets@[j],
                forall|j: int| i <= j < n ==> (#[trigger] self.bullets@[j]).wf(),
                forall|j: int|
                    0 <= j < i && !(#[trigger] self.bullets@[j]).is_destroyed ==> self.bullets@[j].wf(),
            decreases n - i,
        {
            let mut b = self.bullets[i];
            b.step();
            self.bullets.set(i, b);
            i = i + 1;
        }
        assert(self.bullets@ =~= old(self).bullets@.map_values(|b: Bullet| b.stepped()));
        self.clean_bullet_store();
        proof {
            lemma_live_wf(old(self).bullets@.map_values(|b: Bullet| b.stepped()));
        }
    }

    fn destroy(&mut self)
        ensures
            *final(self) == (Spaceship { is_destroyed: true, ..*old(self) }),
    {
        self.is_destroyed = true;
    }
}

/// Cooldown: after a shot, no further shot is possible for fewer than
/// `FIRE_COOLDOWN` ticks, and after exactly `FIRE_COOLDOWN` ticks one is
/// possible again, so firing once every `FIRE_COOLDOWN`-th tick always shoots.
pub proof fn lemma_fire_cooldown(s: Spaceship, k: nat)
    requires
        s.can_fire(),
    ensures
        s.fired_cooldown() == FIRE_COOLDOWN,
        s.fired_bullets() == live(s.bullets@.push(s.launched())),
        k < FIRE_COOLDOWN ==> (Spaceship { fire_cooldown: s.fired_cooldown(), ..s }).cooldown_after(
            k,
        ) > 0,
        (Spaceship { fire_cooldown: s.fired_cooldown(), ..s }).cooldown_after(
            FIRE_COOLDOWN as nat,
        ) == 0,
{
    let t = Spaceship { fire_cooldown: s.fired_cooldown(), ..s };
    lemma_cooldown_after(t, k);
    lemma_cooldown_after(t, FIRE_COOLDOWN as nat);
}

/// After `k` ticks the cooldown is the old one less `k`, and never below zero;
/// one tick of `cooldown_after` is the cooldown that `step` leaves.
pub proof fn lemma_cooldown_after(s: Spaceship, k: nat)
    ensures
        s.cooldown_after(1) == s.stepped_cooldown(),
        s.cooldown_after(k) == if k <= s.fire_cooldown {
            s.fire_cooldown - k
        } else {
            0
        },
    decreases k,
{
    assert(s.cooldown_after(0) == s.fire_cooldown);
    if k > 0 {
        lemma_cooldown_after(s, (k - 1) as nat);
    }
}

/// Speed cap, single thrust: a same-direction contribution leaves a speed at or
/// over the cap alone, and takes one under the cap to less than the cap plus
/// the contribution; an opposite one is always applied (braking past the cap),
/// and then the speed is no larger than before or than the contribution.
pub proof fn lemma_thrust_cap(v: int, d: int)
    ensures
        !is_inverse_spec(v, d) && abs(v) >= MAX_SPEED ==> thrust_axis(v, d) == v,
        !is_inverse_spec(v, d) && abs(v) < MAX_SPEED ==> abs(thrust_axis(v, d)) < MAX_SPEED + abs(
            d,
        ),
        is_inverse_spec(v, d) ==> thrust_axis(v, d) == v + d,
        is_inverse_spec(v, d) ==> abs(thrust_axis(v, d)) <= abs(v) || abs(thrust_axis(v, d)) <= abs(
            d,
        ),
        is_inverse_spec(v, d) ==> abs(thrust_axis(v, d)) <= abs(v) + abs(d),
{
}

/// Speed cap, repeated thrust: from rest, thrusts in one direction whose
/// contribution divides the cap never take the speed above the cap.
pub proof fn lemma_repeated_thrust_capped(d: int, n: nat)
    requires
        d != 0,
        (MAX_SPEED as int) % abs(d) == 0,
    ensures
        abs(thrusts(0, d, n)) <= MAX_SPEED,
        exists|j: int| 0 <= j && #[trigger] (j * d) == thrusts(0, d, n),
    decreases n,
{
    if n == 0 {
        assert(0 * d == 0);
    } else {
        lemma_repeated_thrust_capped(d, (n - 1) as nat);
        let v = thrusts(0, d, (n - 1) as nat);
        let j = choose|j: int| 0 <= j && #[trigger] (j * d) == v;
        let m = (MAX_SPEED as int) / abs(d);
        assert(m * abs(d) == MAX_SPEED) by (nonlinear_arith)
            requires
                (MAX_SPEED as int) % abs(d) == 0,
                d != 0,
                m == (MAX_SPEED as int) / abs(d),
        ;
        assert(abs(v) == j * abs(d)) by (nonlinear_arith)
            requires
                v == j * d,
                j >= 0,
        ;
        if abs(v) < MAX_SPEED {
            assert(j < m) by (nonlinear_arith)
                requires
                    j * abs(d) < m * abs(d),
                    abs(d) > 0,
            ;
            assert(abs(v + d) == (j + 1) * abs(d)) by (nonlinear_arith)
                requires
                    v == j * d,
                    j >= 0,
            ;
            assert((j + 1) * abs(d) <= m * abs(d)) by (nonlinear_arith)
                requires
                    j + 1 <= m,
                    abs(d) > 0,
            ;
            assert((j + 1) * d == v + d) by (nonlinear_arith)
                requires
                    v == j * d,
            ;
        } else {
            assert(j > 0);
            assert(d > 0 ==> v > 0) by (nonlinear_arith)
                requires
                    v == j * d,
                    j > 0,
            ;
            assert(d < 0 ==> v < 0) by (nonlinear_arith)
                requires
                    v == j * d,
                    j > 0,
            ;
        }
    }
}

} // verus!
