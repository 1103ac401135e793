use vstd::prelude::*;
use crate::character::{ceil_div, ceil_div_of, Character};
use crate::kinematics::{abs, Body, SPEED_LIMIT, SUB};
use crate::trig::{cosine, cosine_of, sine, sine_of, UNIT};

verus! {

/// Size of a projectile, 5 pixels.
pub const BULLET_SIZE: i64 = 5_000;

/// A projectile: flies straight and is destroyed once it leaves the stage.
#[derive(Clone, Copy, Debug)]
pub struct Bullet {
    pub body: Body,
    /// Facing, in whole degrees.
    pub rotation: i64,
    pub is_destroyed: bool,
}

impl Bullet {
    pub open spec fn wf(self) -> bool {
        &&& self.body.wf()
        &&& 0 <= self.rotation < 360
    }

    /// One tick under the cull policy: the projectile moves, and is destroyed
    /// if it ends the tick off the stage; it is never brought back.
    pub open spec fn stepped(self) -> Bullet {
        Bullet {
            body: self.body.moved(),
            is_destroyed: self.is_destroyed || self.body.moved().out_of_stage(),
            ..self
        }
    }

    /// Half the size ahead of the position, along the facing, rounded up to
    /// a whole pixel.
    pub open spec fn center_point(self) -> (int, int) {
        (
            SUB * ceil_div(
                2 * UNIT * self.body.x + self.body.size * cosine(self.rotation as int),
                2 * UNIT * SUB,
            ),
            SUB * ceil_div(
                2 * UNIT * self.body.y + self.body.size * sine(self.rotation as int),
                2 * UNIT * SUB,
            ),
        )
    }

    /// The line that shows the projectile, in whole pixels (rounded up): from
    /// its position to one size ahead along its facing.
    pub open spec fn segment(self) -> ((i64, i64), (i64, i64)) {
        (
            (ceil_div(self.body.x as int, SUB as int) as i64, ceil_div(self.body.y as int, SUB as int) as i64),
            (
                ceil_div(
                    self.body.x * UNIT + self.body.size * cosine(self.rotation as int),
                    SUB * UNIT,
                ) as i64,
                ceil_div(
                    self.body.y * UNIT + self.body.size * sine(self.rotation as int),
                    SUB * UNIT,
                ) as i64,
            ),
        )
    }

    pub fn new() -> (r: Bullet)
        ensures
            r.wf(),
            r.body == (Body { x: 0, y: 0, speed_x: 0, speed_y: 0, size: BULLET_SIZE }),
            r.rotation == 0,
            !r.is_destroyed,
    {
        Bullet {
            body: Body { x: 0, y: 0, speed_x: 0, speed_y: 0, size: BULLET_SIZE },
            rotation: 0,
            is_destroyed: false,
        }
    }

    /// The line to draw for this projectile.
    pub fn draw_character(&self) -> (r: ((i64, i64), (i64, i64)))
        requires
            self.wf(),
        ensures
            r == self.segment(),
    {
        let c = cosine_of(self.rotation);
        let s = sine_of(self.rotation);
        proof {
            assert(abs(self.body.size * c) <= 1_000_000 * UNIT) by (nonlinear_arith)
                requires
                    0 <= self.body.size <= 1_000_000,
                    abs(c as int) <= UNIT,
            ;
            assert(abs(self.body.size * s) <= 1_000_000 * UNIT) by (nonlinear_arith)
                requires
                    0 <= self.body.size <= 1_000_000,
                    abs(s as int) <= UNIT,
            ;
        }
        let start = (ceil_div_of(self.body.x, SUB), ceil_div_of(self.body.y, SUB));
        let end = (
            ceil_div_of(self.body.x * UNIT + self.body.size * c, SUB * UNIT),
            ceil_div_of(self.body.y * UNIT + self.body.size * s, SUB * UNIT),
        );
        (start, end)
    }

    pub fn set_speed(&mut self, sx: i64, sy: i64)
        requires
            old(self).wf(),
            abs(sx as int) <= SPEED_LIMIT,
            abs(sy as int) <= SPEED_LIMIT,
        ensures
            final(self).wf(),
            *final(self) == (Bullet {
                body: Body { speed_x: sx, speed_y: sy, ..old(self).body },
                ..*old(self)
            }),
    {
        self.body.speed_x = sx;
        self.body.speed_y = sy;
    }

    /// Sets the facing, in whole degrees.
    pub fn set_rotation(&mut self, rot: i64)
        requires
            old(self).wf(),
            0 <= rot < 360,
        ensures
            final(self).wf(),
            *final(self) == (Bullet { rotation: rot, ..*old(self) }),
    {
        self.rotation = rot;
    }
}

impl Character for Bullet {
    open spec fn body_of(&self) -> Body {
        self.body
    }

    open spec fn well_formed(&self) -> bool {
        self.wf()
    }

    open spec fn center(&self) -> (int, int) {
        self.center_point()
    }

    open spec fn destroyed(&self) -> bool {
        self.is_destroyed
    }

    fn get_x(&self) -> (r: i64) {
        self.body.x
    }

    fn get_y(&self) -> (r: i64) {
        self.body.y
    }

    fn get_size(&self) -> (r: i64) {
        self.body.size
    }

    fn set_x(&mut self, x: i64)
        ensures
            *final(self) == (Bullet { body: Body { x, ..old(self).body }, ..*old(self) }),
    {
        self.body.x = x;
    }

    fn set_y(&mut self, y: i64)
        ensures
            *final(self) == (Bullet { body: Body { y, ..old(self).body }, ..*old(self) }),
    {
        self.body.y = y;
    }

    fn get_center(&self) -> (r: (i64, i64)) {
        let c = cosine_of(self.rotation);
        let s = sine_of(self.rotation);
        proof {
            assert(abs(self.body.size * c) <= 1_000_000 * UNIT) by (nonlinear_arith)
                requires
                    0 <= self.body.size <= 1_000_000,
                    abs(c as int) <= UNIT,
            ;
            assert(abs(self.body.size * s) <= 1_000_000 * UNIT) by (nonlinear_arith)
                requires
                    0 <= self.body.size <= 1_000_000,
                    abs(s as int) <= UNIT,
            ;
        }
        let px = ceil_div_of(2 * UNIT * self.body.x + self.body.size * c, 2 * UNIT * SUB);
        let py = ceil_div_of(2 * UNIT * self.body.y + self.body.size * s, 2 * UNIT * SUB);
        (SUB * px, SUB * py)
    }

    fn check_out_of_stage(&self) -> (r: bool) {
        self.body.check_out_of_stage()
    }

    /// Moves the projectile, and destroys it if it is then off the stage.
    fn step(&mut self)
        ensures
            *final(self) == old(self).stepped(),
            !final(self).is_destroyed ==> final(self).wf(),
    {
        self.body.integrate();
        if self.body.check_out_of_stage() {
            self.is_destroyed = true;
        }
    }

    fn destroy(&mut self)
        ensures
            *final(self) == (Bullet { is_destroyed: true, ..*old(self) }),
    {
        self.is_destroyed = true;
    }
}

/// A projectile never wraps: a tick that ends off the stage destroys it and
/// leaves it at the position it moved to, and a destroyed projectile stays
/// destroyed and only ever moves by its velocity.
pub proof fn lemma_cull_never_wraps(b: Bullet)
    requires
        b.wf(),
    ensures
        b.body.moved().out_of_stage() ==> b.stepped().is_destroyed,
        b.body.moved().out_of_stage() ==> b.stepped().body.out_of_stage(),
        b.stepped().body == b.body.moved(),
        b.is_destroyed ==> b.stepped().is_destroyed,
{
}

} // verus!
