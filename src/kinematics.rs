use vstd::prelude::*;

verus! {

/// Units per pixel: positions, sizes and speeds are counted in 1/1000 pixel.
pub const SUB: i64 = 1000;

/// Stage width, 640 pixels.
pub const STAGE_WIDTH: i64 = 640_000;

/// Stage height, 480 pixels.
pub const STAGE_HEIGHT: i64 = 480_000;

/// Largest coordinate magnitude that an entity may hold.
pub const POS_LIMIT: i64 = 1_000_000_000;

/// Largest speed magnitude, per axis and per tick, that an entity may hold.
pub const SPEED_LIMIT: i64 = 1_000_000;

/// Largest size that an entity may have.
pub const SIZE_LIMIT: i64 = 1_000_000;

/// Largest coordinate magnitude of an entity's center point.
pub const CENTER_LIMIT: i64 = 2_000_000_000;

/// Position, velocity and size of a mobile entity.
#[derive(Clone, Copy, Debug, PartialEq, Eq)]
pub struct Body {
    pub x: i64,
    pub y: i64,
    pub speed_x: i64,
    pub speed_y: i64,
    pub size: i64,
}

pub open spec fn abs(a: int) -> int {
    if a < 0 {
        -a
    } else {
        a
    }
}

/// True when a coordinate lies beyond `[-size, dim + size]`.
pub open spec fn beyond(p: int, size: int, dim: int) -> bool {
    p > dim + size || p < -size
}

/// A coordinate after the wrap policy: past the far edge it goes to `-size`,
/// past the near edge to `dim + size`, otherwise it stays.
pub open spec fn wrap_axis(p: int, size: int, dim: int) -> int {
    if p > dim + size {
        -size
    } else if p < -size {
        dim + size
    } else {
        p
    }
}

impl Body {
    /// The bounds that keep every computation on a body free of overflow.
    pub open spec fn wf(self) -> bool {
        &&& abs(self.x as int) <= POS_LIMIT
        &&& abs(self.y as int) <= POS_LIMIT
        &&& abs(self.speed_x as int) <= SPEED_LIMIT
        &&& abs(self.speed_y as int) <= SPEED_LIMIT
        &&& 0 <= self.size <= SIZE_LIMIT
    }

    /// The bounds of `wf`, widened by one tick of movement on the position.
    pub open spec fn bounded(self) -> bool {
        &&& abs(self.x as int) <= POS_LIMIT + SPEED_LIMIT
        &&& abs(self.y as int) <= POS_LIMIT + SPEED_LIMIT
        &&& abs(self.speed_x as int) <= SPEED_LIMIT
        &&& abs(self.speed_y as int) <= SPEED_LIMIT
        &&& 0 <= self.size <= SIZE_LIMIT
    }

    /// The body lies outside the stage by more than its size on some axis.
    pub open spec fn out_of_stage(self) -> bool {
        beyond(self.x as int, self.size as int, STAGE_WIDTH as int) || beyond(
            self.y as int,
            self.size as int,
            STAGE_HEIGHT as int,
        )
    }

    /// The body lies within `[-size, dimension + size]` on both axes.
    pub open spec fn in_stage(self) -> bool {
        !self.out_of_stage()
    }

    /// The body moved by its velocity for one tick, with no boundary policy.
    pub open spec fn moved(self) -> Body {
        Body { x: (self.x + self.speed_x) as i64, y: (self.y + self.speed_y) as i64, ..self }
    }

    /// The body after the wrap policy.
    pub open spec fn wrapped(self) -> Body {
        Body {
            x: wrap_axis(self.x as int, self.size as int, STAGE_WIDTH as int) as i64,
            y: wrap_axis(self.y as int, self.size as int, STAGE_HEIGHT as int) as i64,
            ..self
        }
    }

    pub fn check_out_of_stage(&self) -> (r: bool)
        requires
            self.bounded(),
        ensures
            r == self.out_of_stage(),
    {
        self.x > STAGE_WIDTH + self.size || self.y > STAGE_HEIGHT + self.size || self.x
            < -self.size || self.y < -self.size
    }

    /// Moves the body to the opposite edge on each axis where it is beyond the stage.
    pub fn wrap(&mut self)
        requires
            old(self).bounded(),
        ensures
            *final(self) == old(self).wrapped(),
            final(self).wf(),
            final(self).in_stage(),
    {
        let size = self.size;
        if self.x > STAGE_WIDTH + size {
            self.x = -size;
        } else if self.x < -size {
            self.x = STAGE_WIDTH + size;
        }
        if self.y > STAGE_HEIGHT + size {
            self.y = -size;
        } else if self.y < -size {
            self.y = STAGE_HEIGHT + size;
        }
    }

    /// Advances the position by the velocity, for one tick.
    pub fn integrate(&mut self)
        requires
            old(self).wf(),
        ensures
            *final(self) == old(self).moved(),
            final(self).bounded(),
    {
        self.x = self.x + self.speed_x;
        self.y = self.y + self.speed_y;
    }

    /// One tick under the wrap policy: move, then wrap where beyond the stage.
    pub fn step_wrapping(&mut self)
        requires
            old(self).wf(),
        ensures
            *final(self) == old(self).moved().wrapped(),
            final(self).wf(),
            final(self).in_stage(),
    {
        self.integrate();
        if self.check_out_of_stage() {
            self.wrap();
        }
    }
}

/// A wrap-policy entity that ends a tick beyond the stage on an axis lands
/// exactly on the opposite edge, offset by its size, and is never left outside.
pub proof fn lemma_wrap_lands_on_edge(b: Body)
    requires
        b.wf(),
    ensures
        b.moved().x > STAGE_WIDTH + b.size ==> b.moved().wrapped().x == -b.size,
        b.moved().x < -b.size ==> b.moved().wrapped().x == STAGE_WIDTH + b.size,
        b.moved().y > STAGE_HEIGHT + b.size ==> b.moved().wrapped().y == -b.size,
        b.moved().y < -b.size ==> b.moved().wrapped().y == STAGE_HEIGHT + b.size,
        !beyond(b.moved().x as int, b.size as int, STAGE_WIDTH as int) ==> b.moved().wrapped().x
            == b.moved().x,
        !beyond(b.moved().y as int, b.size as int, STAGE_HEIGHT as int) ==> b.moved().wrapped().y
            == b.moved().y,
        b.moved().wrapped().in_stage(),
{
}

} // verus!
