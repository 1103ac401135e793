use vstd::prelude::*;
use crate::kinematics::{abs, Body, CENTER_LIMIT, POS_LIMIT};

verus! {

/// What every entity on the stage offers: its kinematic state, a center
/// point for collision tests, one tick of movement, and destruction.
pub trait Character {
    /// Position, velocity and size.
    spec fn body_of(&self) -> Body;

    /// The entity's invariant.
    spec fn well_formed(&self) -> bool;

    /// The point that collision tests measure from.
    spec fn center(&self) -> (int, int);

    /// Whether the entity has been destroyed.
    spec fn destroyed(&self) -> bool;

    fn get_x(&self) -> (r: i64)
        ensures
            r == self.body_of().x,
    ;

    fn get_y(&self) -> (r: i64)
        ensures
            r == self.body_of().y,
    ;

    fn get_size(&self) -> (r: i64)
        ensures
            r == self.body_of().size,
    ;

    fn set_x(&mut self, x: i64)
        requires
            old(self).well_formed(),
            abs(x as int) <= POS_LIMIT,
        ensures
            final(self).well_formed(),
            final(self).body_of() == (Body { x, ..old(self).body_of() }),
            final(self).destroyed() == old(self).destroyed(),
    ;

    fn set_y(&mut self, y: i64)
        requires
            old(self).well_formed(),
            abs(y as int) <= POS_LIMIT,
        ensures
            final(self).well_formed(),
            final(self).body_of() == (Body { y, ..old(self).body_of() }),
            final(self).destroyed() == old(self).destroyed(),
    ;

    fn get_center(&self) -> (r: (i64, i64))
        requires
            self.well_formed(),
        ensures
            r.0 == self.center().0,
            r.1 == self.center().1,
            abs(r.0 as int) <= CENTER_LIMIT,
            abs(r.1 as int) <= CENTER_LIMIT,
    ;

    /// True when the entity lies outside the stage by more than its size.
    fn check_out_of_stage(&self) -> (r: bool)
        requires
            self.well_formed(),
        ensures
            r == self.body_of().out_of_stage(),
    ;

    /// Advances the entity by one tick.
    fn step(&mut self)
        requires
            old(self).well_formed(),
        ensures
            final(self).body_of().bounded(),
    ;

    /// Marks the entity destroyed.
    fn destroy(&mut self)
        requires
            old(self).well_formed(),
        ensures
            final(self).well_formed(),
            final(self).destroyed(),
            final(self).body_of() == old(self).body_of(),
    ;
}

/// `a / b` rounded up, for `b > 0`.
pub open spec fn ceil_div(a: int, b: int) -> int {
    if a >= 0 {
        (a + b - 1) / b
    } else {
        -((-a) / b)
    }
}

pub fn ceil_div_of(a: i64, b: i64) -> (r: i64)
    requires
        0 < b,
        abs(a as int) <= 1_000_000_000_000_000,
        b <= 1_000_000_000_000_000,
    ensures
        r == ceil_div(a as int, b as int),
        abs(r as int) <= abs(a as int),
        abs(r as int) <= abs(a as int) / (b as int) + 1,
{
    if a >= 0 {
        let r = (a + b - 1) / b;
        proof {
            assert((a + b - 1) / (b as int) <= a) by (nonlinear_arith)
                requires
                    a >= 0,
                    b >= 1,
            ;
            assert((a + b - 1) / (b as int) <= (a as int) / (b as int) + 1) by (nonlinear_arith)
                requires
                    a >= 0,
                    b >= 1,
            ;
        }
        r
    } else {
        let r = -((-a) / b);
        proof {
            assert((-a) / (b as int) <= -a) by (nonlinear_arith)
                requires
                    a < 0,
                    b >= 1,
            ;
            assert((-a) / (b as int) >= 0) by (nonlinear_arith)
                requires
                    a < 0,
                    b >= 1,
            ;
        }
        r
    }
}

/// `a / b` rounded toward zero, for `b > 0`.
pub open spec fn trunc_div(a: int, b: int) -> int {
    if a >= 0 {
        a / b
    } else {
        -((-a) / b)
    }
}

pub fn trunc_div_of(a: i64, b: i64) -> (r: i64)
    requires
        0 < b,
        abs(a as int) <= 1_000_000_000_000_000,
    ensures
        r == trunc_div(a as int, b as int),
        abs(r as int) <= abs(a as int),
        abs(r as int) <= abs(a as int) / (b as int),
{
    if a >= 0 {
        let r = a / b;
        proof {
            assert((a as int) / (b as int) <= a) by (nonlinear_arith)
                requires
                    a >= 0,
                    b >= 1,
            ;
            assert((a as int) / (b as int) >= 0) by (nonlinear_arith)
                requires
                    a >= 0,
                    b >= 1,
            ;
        }
        r
    } else {
        let r = -((-a) / b);
        proof {
            assert((-a) / (b as int) <= -a) by (nonlinear_arith)
                requires
                    a < 0,
                    b >= 1,
            ;
            assert((-a) / (b as int) >= 0) by (nonlinear_arith)
                requires
                    a < 0,
                    b >= 1,
            ;
        }
        r
    }
}

} // verus!
