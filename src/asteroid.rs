use vstd::prelude::*;
use crate::character::{ceil_div, ceil_div_of, trunc_div, trunc_div_of, Character};
use crate::kinematics::{abs, Body, SIZE_LIMIT, SUB};
use crate::random::random_between;
use crate::trig::{ring_cosine, ring_direction, ring_sine, RING_STEPS};

verus! {

/// Size of an asteroid made by `Asteroid::new`, 25 pixels.
pub const DEFAULT_ASTEROID_SIZE: i64 = 25_000;

/// Smallest radial scale of an outline vertex, in 1/1000 of the size.
pub const MIN_SCALE: i64 = 700;

/// Bound (exclusive) of the radial scale of an outline vertex, in 1/1000 of the size.
pub const MAX_SCALE: i64 = 1000;

/// Bound of an asteroid's random speed per axis: it is drawn from [-0.5, 0.5) pixel.
pub const DRIFT: i64 = 500;

/// Largest size tier.
pub const MAX_LEVEL: usize = 3;

/// An asteroid: drifts, wraps around the stage, and has a jagged outline.
#[derive(Debug)]
pub struct Asteroid {
    pub body: Body,
    /// Outline vertices relative to the position, in units of `SUB`.
    pub shape: Vec<(i64, i64)>,
    pub is_destroyed: bool,
    /// Size tier: 1 is the smallest.
    pub level: usize,
}

/// Vertex `k` of an outline for an asteroid of the given size, with a radial
/// scale in 1/1000: `(sin, cos)` of `0.25 * k` radians times scale and size,
/// each coordinate rounded up to a whole pixel.
pub open spec fn outline_vertex(size: int, scale: int, k: int) -> (int, int) {
    (
        SUB * ceil_div(scale * size * ring_sine(k), 1_000_000_000),
        SUB * ceil_div(scale * size * ring_cosine(k), 1_000_000_000),
    )
}

/// `v` is vertex `k` of an outline for the given size, at some radial scale
/// in `[MIN_SCALE, MAX_SCALE)`.
pub open spec fn is_outline_vertex(v: (i64, i64), size: int, k: int) -> bool {
    exists|scale: int|
        MIN_SCALE <= scale < MAX_SCALE && v.0 == #[trigger] outline_vertex(size, scale, k).0 && v.1
            == outline_vertex(size, scale, k).1
}

/// A closed outline of `RING_STEPS` vertices, each at a random radial scale.
pub open spec fn is_outline(shape: Seq<(i64, i64)>, size: int) -> bool {
    &&& shape.len() == RING_STEPS
    &&& forall|k: int| 0 <= k < RING_STEPS ==> is_outline_vertex(#[trigger] shape[k], size, k)
}

/// Every vertex lies within `SIZE_LIMIT` of the origin on each axis.
pub open spec fn vertices_bounded(shape: Seq<(i64, i64)>) -> bool {
    forall|k: int|
        0 <= k < shape.len() ==> abs((#[trigger] shape[k]).0 as int) <= SIZE_LIMIT && abs(
            shape[k].1 as int,
        ) <= SIZE_LIMIT
}

/// The collision test: the square root of the Manhattan distance between the
/// two centers, in pixels, is below 30% of the size in pixels. Squared and
/// scaled to units of `SUB`, that is `100_000 * d < 9 * size * size`.
pub open spec fn hits(size: int, a: (int, int), b: (int, int)) -> bool {
    100_000 * (abs(a.0 - b.0) + abs(a.1 - b.1)) < 9 * (size * size)
}

/// The outline for the given size whose vertex `k` has radial scale
/// `scales[k]`, in 1/1000 of the size.
pub fn outline_from_scales(size: i64, scales: &Vec<i64>) -> (r: Vec<(i64, i64)>)
    requires
        0 <= size <= SIZE_LIMIT,
        scales@.len() == RING_STEPS,
        forall|k: int| 0 <= k < RING_STEPS ==> MIN_SCALE <= #[trigger] scales@[k] < MAX_SCALE,
    ensures
        r@.len() == RING_STEPS,
        forall|k: int|
            0 <= k < RING_STEPS ==> #[trigger] r@[k] == (
                outline_vertex(size as int, scales@[k] as int, k).0 as i64,
                outline_vertex(size as int, scales@[k] as int, k).1 as i64,
            ),
        is_outline(r@, size as int),
        vertices_bounded(r@),
{
    let mut shape: Vec<(i64, i64)> = Vec::new();
    let mut k: usize = 0;
    while k < RING_STEPS
        invariant
            0 <= size <= SIZE_LIMIT,
            scales@.len() == RING_STEPS,
            forall|j: int| 0 <= j < RING_STEPS ==> MIN_SCALE <= #[trigger] scales@[j] < MAX_SCALE,
            k <= RING_STEPS,
            shape@.len() == k,
            forall|j: int|
                0 <= j < k ==> #[trigger] shape@[j] == (
                    outline_vertex(size as int, scales@[j] as int, j).0 as i64,
                    outline_vertex(size as int, scales@[j] as int, j).1 as i64,
                ),
            forall|j: int| 0 <= j < k ==> is_outline_vertex(#[trigger] shape@[j], size as int, j),
            vertices_bounded(shape@),
        decreases RING_STEPS - k,
    {
        let scale = scales[k];
        let (s, c) = ring_direction(k);
        proof {
            assert(0 <= scale * size <= 1_000_000_000) by (nonlinear_arith)
                requires
                    0 <= scale < 1000,
                    0 <= size <= 1_000_000,
            ;
            assert(abs(scale * size * s) <= 1_000_000_000_000) by (nonlinear_arith)
                requires
                    0 <= scale * size <= 1_000_000_000,
                    abs(s as int) <= 1000,
            ;
            assert(abs(scale * size * c) <= 1_000_000_000_000) by (nonlinear_arith)
                requires
                    0 <= scale * size <= 1_000_000_000,
                    abs(c as int) <= 1000,
            ;
        }
        let px = ceil_div_of(scale * size * s, 1_000_000_000);
        let py = ceil_div_of(scale * size * c, 1_000_000_000);
        proof {
            assert(abs(px as int) <= 1000) by (nonlinear_arith)
                requires
                    px == ceil_div((scale * size * s) as int, 1_000_000_000),
                    abs(scale * size * s) <= 1_000_000_000_000,
            ;
            assert(abs(py as int) <= 1000) by (nonlinear_arith)
                requires
                    py == ceil_div((scale * size * c) as int, 1_000_000_000),
                    abs(scale * size * c) <= 1_000_000_000_000,
            ;
        }
        let v = (SUB * px, SUB * py);
        assert(is_outline_vertex(v, size as int, k as int)) by {
            assert(v.0 == outline_vertex(size as int, scale as int, k as int).0);
        }
        shape.push(v);
        k = k + 1;
    }
    shape
}

impl Asteroid {
    pub open spec fn wf(self) -> bool {
        &&& self.body.wf()
        &&& self.level <= MAX_LEVEL
        &&& vertices_bounded(self.shape@)
    }

    /// Vertex `k` of the outline, placed at the position, in whole pixels
    /// (rounded toward zero).
    pub open spec fn corner(self, k: int) -> (i64, i64) {
        (
            trunc_div(self.shape@[k].0 + self.body.x, SUB as int) as i64,
            trunc_div(self.shape@[k].1 + self.body.y, SUB as int) as i64,
        )
    }

    /// The closed outline as line segments in pixels: each vertex to the
    /// next, then the first to the last.
    pub open spec fn segments(self) -> Seq<((i64, i64), (i64, i64))> {
        let n = self.shape@.len();
        if n == 0 {
            Seq::empty()
        } else {
            Seq::new((n - 1) as nat, |k: int| (self.corner(k), self.corner(k + 1))).push(
                (self.corner(0), self.corner(n - 1)),
            )
        }
    }

    /// One tick under the wrap policy.
    pub open spec fn stepped(self) -> Asteroid {
        Asteroid { body: self.body.moved().wrapped(), ..self }
    }

    pub fn new() -> (r: Asteroid)
        ensures
            r.wf(),
            r.body == (Body { x: 0, y: 0, speed_x: 0, speed_y: 0, size: DEFAULT_ASTEROID_SIZE }),
            r.shape@.len() == 0,
            !r.is_destroyed,
            r.level == 1,
    {
        Asteroid {
            body: Body { x: 0, y: 0, speed_x: 0, speed_y: 0, size: DEFAULT_ASTEROID_SIZE },
            shape: Vec::new(),
            is_destroyed: false,
            level: 1,
        }
    }

    pub fn set_size(&mut self, size: i64)
        requires
            old(self).wf(),
            0 <= size <= SIZE_LIMIT,
        ensures
            final(self).wf(),
            final(self).body == (Body { size, ..old(self).body }),
            final(self).shape == old(self).shape,
            final(self).is_destroyed == old(self).is_destroyed,
            final(self).level == old(self).level,
    {
        self.body.size = size;
    }

    /// A fresh random outline for this asteroid's size, relative to its
    /// position: one radial scale is drawn per vertex.
    pub fn make_random_asteroid(&self) -> (r: Vec<(i64, i64)>)
        requires
            self.wf(),
        ensures
            is_outline(r@, self.body.size as int),
            vertices_bounded(r@),
    {
        let mut scales: Vec<i64> = Vec::new();
        let mut k: usize = 0;
        while k < RING_STEPS
            invariant
                k <= RING_STEPS,
                scales@.len() == k,
                forall|j: int| 0 <= j < k ==> MIN_SCALE <= #[trigger] scales@[j] < MAX_SCALE,
            decreases RING_STEPS - k,
        {
            scales.push(random_between(MIN_SCALE, MAX_SCALE));
            k = k + 1;
        }
        outline_from_scales(self.body.size, &scales)
    }

    /// Draws a random drift speed and a fresh outline.
    pub fn init(&mut self)
        requires
            old(self).wf(),
        ensures
            final(self).wf(),
            final(self).body.x == old(self).body.x,
            final(self).body.y == old(self).body.y,
            final(self).body.size == old(self).body.size,
            -DRIFT <= final(self).body.speed_x < DRIFT,
            -DRIFT <= final(self).body.speed_y < DRIFT,
            is_outline(final(self).shape@, final(self).body.size as int),
            vertices_bounded(final(self).shape@),
            final(self).is_destroyed == old(self).is_destroyed,
            final(self).level == old(self).level,
    {
        self.body.speed_x = random_between(-DRIFT, DRIFT);
        self.body.speed_y = random_between(-DRIFT, DRIFT);
        self.shape = self.make_random_asteroid();
    }

    fn corner_of(&self, k: usize) -> (r: (i64, i64))
        requires
            self.wf(),
            k < self.shape@.len(),
        ensures
            r == self.corner(k as int),
    {
        let v = self.shape[k];
        (trunc_div_of(v.0 + self.body.x, SUB), trunc_div_of(v.1 + self.body.y, SUB))
    }

    /// The outline to draw, as line segments in pixels.
    pub fn draw_character(&self) -> (r: Vec<((i64, i64), (i64, i64))>)
        requires
            self.wf(),
        ensures
            r@ == self.segments(),
    {
        let mut lines: Vec<((i64, i64), (i64, i64))> = Vec::new();
        let n = self.shape.len();
        if n > 0 {
            let mut p: usize = 0;
            while p < n - 1
                invariant
                    self.wf(),
                    n == self.shape@.len(),
                    n > 0,
                    p <= n - 1,
                    lines@ =~= Seq::new(
                        p as nat,
                        |k: int| (self.corner(k), self.corner(k + 1)),
                    ),
                decreases n - 1 - p,
            {
                lines.push((self.corner_of(p), self.corner_of(p + 1)));
                p = p + 1;
            }
            lines.push((self.corner_of(0), self.corner_of(n - 1)));
        }
        lines
    }

    /// Whether `other`'s center is close enough to this asteroid's center.
    pub fn intersects<T: Character>(&self, other: &T) -> (r: bool)
        requires
            self.wf(),
            other.well_formed(),
        ensures
            r == hits(self.body.size as int, self.center(), other.center()),
    {
        let (x1, y1) = self.get_center();
        let (x2, y2) = other.get_center();
        let dx = if x1 >= x2 { x1 - x2 } else { x2 - x1 };
        let dy = if y1 >= y2 { y1 - y2 } else { y2 - y1 };
        let size = self.body.size;
        proof {
            assert(size * size <= 1_000_000_000_000) by (nonlinear_arith)
                requires
                    0 <= size <= 1_000_000,
            ;
        }
        100_000 * (dx + dy) < 9 * (size * size)
    }
}

impl Character for Asteroid {
    open spec fn body_of(&self) -> Body {
        self.body
    }

    open spec fn well_formed(&self) -> bool {
        self.wf()
    }

    /// The position, truncated to a whole pixel.
    open spec fn center(&self) -> (int, int) {
        (SUB * trunc_div(self.body.x as int, SUB as int), SUB * trunc_div(self.body.y as int, SUB as int))
    }

    open spec fn destroyed(&self) -> bool {
        self.is_destroyed
    }

    fn get_x(&self) -> (r: i64) {
        self.body.x
    }

    fn get_y(&self) -> (r: i64) {
        self.body.y
    }

    fn get_size(&self) -> (r: i64) {
        self.body.size
    }

    fn set_x(&mut self, x: i64)
        ensures
            final(self).body == (Body { x, ..old(self).body }),
            final(self).shape == old(self).shape,
            final(self).is_destroyed == old(self).is_destroyed,
            final(self).level == old(self).level,
    {
        self.body.x = x;
    }

    fn set_y(&mut self, y: i64)
        ensures
            final(self).body == (Body { y, ..old(self).body }),
            final(self).shape == old(self).shape,
            final(self).is_destroyed == old(self).is_destroyed,
            final(self).level == old(self).level,
    {
        self.body.y = y;
    }

    fn get_center(&self) -> (r: (i64, i64)) {
        (SUB * trunc_div_of(self.body.x, SUB), SUB * trunc_div_of(self.body.y, SUB))
    }

    fn check_out_of_stage(&self) -> (r: bool) {
        self.body.check_out_of_stage()
    }

    fn step(&mut self)
        ensures
            *final(self) == old(self).stepped(),
            final(self).wf(),
    {
        self.body.step_wrapping();
    }

    fn destroy(&mut self)
        ensures
            final(self).body == old(self).body,
            final(self).shape == old(self).shape,
            final(self).is_destroyed,
            final(self).level == old(self).level,
    {
        self.is_destroyed = true;
    }
}

} // verus!
