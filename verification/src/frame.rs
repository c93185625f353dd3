//! The state of the animation: two positions that swing between bounds, and
//! a depth that grows and wraps around. The state counts in thousandths,
//! which hold every step exactly.
use vstd::prelude::*;
use crate::perspective::{
    combine, effective_depth, lemma_product_within, lemma_reciprocal, Perspective,
    PerspectiveView, MIN_DEPTH_DEN, MIN_DEPTH_NUM,
};
use crate::ratio::{
    lemma_halved, lemma_ratio_difference, lemma_ratio_multiple, lemma_ratio_scaled,
    lemma_ratio_sign, ratio, Exact, Ratio,
};

verus! {

/// The number of units of the state in one: a raw value `n` of the state
/// stands for `n / FRAME_UNIT`.
pub const FRAME_UNIT: u16 = 1000;

/// The bound between which and zero the horizontal position swings.
pub const POSITION_LIMIT: i32 = 800_000;

/// The bound between which and zero the horizon swings.
pub const HORIZON_LIMIT: i32 = 600_000;

/// The depth at which the depth cursor wraps around.
pub const DEPTH_WRAP: i32 = 100_000;

/// What the horizontal position moves by in one tick: one.
pub const POSITION_STEP: i32 = 1000;

/// What the horizon moves by in one tick: three tenths.
pub const HORIZON_STEP: i32 = 300;

/// What the depth cursor moves by in one tick: one tenth.
pub const DEPTH_STEP: i32 = 100;

/// The depth that the cursor starts at: one.
pub const DEPTH_START: i32 = 1000;

/// The radius of the circle where the scale is one.
pub const CIRCLE_RADIUS: i64 = 300;

/// The way in which a position moves.
#[derive(Clone, Copy, Debug, PartialEq, Eq, Structural)]
pub enum Direction {
    /// Away from zero, toward the bound.
    Forward,
    /// Back from the bound, toward zero.
    Backward,
}

/// A circle on the screen.
#[derive(Clone, Copy, Debug)]
pub struct Circle {
    pub x: Exact,
    pub y: Exact,
    pub radius: Exact,
}

/// The state of the animation, in raw values.
#[derive(Clone, Copy, Debug)]
pub struct FrameState {
    inc_x: Direction,
    inc_h: Direction,
    pos_x: i32,
    pos_z: i32,
    horizon: i32,
}

/// What a `FrameState` holds, as mathematical integers.
pub struct FrameView {
    pub inc_x: Direction,
    pub inc_h: Direction,
    pub pos_x: int,
    pub pos_z: int,
    pub horizon: int,
}

/// What a `Circle` stands for, in real numbers.
pub struct CircleView {
    pub x: real,
    pub y: real,
    pub radius: real,
}

/// The number that a raw value of the state stands for.
pub open spec fn in_units(raw: int) -> real {
    ratio(raw, FRAME_UNIT as int)
}

/// The remainder of a division that rounds toward zero: it has the sign of
/// the dividend.
pub open spec fn remainder(n: int, d: int) -> int {
    if n >= 0 {
        n % d
    } else {
        -((-n) % d)
    }
}

/// The direction in which a position moves next: forward from zero or
/// below, backward from the bound or beyond, and as before between them.
pub open spec fn turn(position: int, heading: Direction, limit: int) -> Direction {
    if position <= 0 {
        Direction::Forward
    } else if position >= limit {
        Direction::Backward
    } else {
        heading
    }
}

/// The position one step on in the given direction.
pub open spec fn advance(position: int, heading: Direction, step: int) -> int {
    match heading {
        Direction::Forward => position + step,
        Direction::Backward => position - step,
    }
}

impl FrameView {
    /// The state that the animation starts in.
    pub open spec fn initial(horizon: int) -> FrameView {
        FrameView {
            inc_x: Direction::Forward,
            inc_h: Direction::Forward,
            pos_x: 0,
            pos_z: DEPTH_START as int,
            horizon,
        }
    }

    /// The state one tick later. Each of the two positions first turns where
    /// it has reached or passed a bound, and then moves by its step. The
    /// depth moves by its step and wraps around at `DEPTH_WRAP`.
    pub open spec fn next(self) -> FrameView {
        let inc_x = turn(self.pos_x, self.inc_x, POSITION_LIMIT as int);
        let inc_h = turn(self.horizon, self.inc_h, HORIZON_LIMIT as int);
        FrameView {
            inc_x,
            inc_h,
            pos_x: advance(self.pos_x, inc_x, POSITION_STEP as int),
            pos_z: remainder(self.pos_z + DEPTH_STEP, DEPTH_WRAP as int),
            horizon: advance(self.horizon, inc_h, HORIZON_STEP as int),
        }
    }

    /// The projector of a frame in a viewport of the given size: a new one
    /// with its vanishing point at the horizontal position on the horizon.
    pub open spec fn projector(self, width: real, height: real) -> PerspectiveView {
        PerspectiveView {
            center: (in_units(self.pos_x), in_units(self.horizon)),
            ..PerspectiveView::initial(width, height)
        }
    }

    /// The circle of a frame in a viewport of the given size: it lies at the
    /// middle of the rectangle at the depth of the cursor, and its radius is
    /// `CIRCLE_RADIUS` times the scale there.
    pub open spec fn circle(self, width: real, height: real) -> CircleView {
        let dimensions = self.projector(width, height).project(in_units(self.pos_z));
        CircleView {
            x: dimensions.left + (dimensions.right - dimensions.left) / 2real,
            y: dimensions.top + (dimensions.bottom - dimensions.top) / 2real,
            radius: (CIRCLE_RADIUS as real) * dimensions.scale,
        }
    }
}

impl View for FrameState {
    type V = FrameView;

    closed spec fn view(&self) -> FrameView {
        FrameView {
            inc_x: self.inc_x,
            inc_h: self.inc_h,
            pos_x: self.pos_x as int,
            pos_z: self.pos_z as int,
            horizon: self.horizon as int,
        }
    }
}

impl View for Circle {
    type V = CircleView;

    open spec fn view(&self) -> CircleView {
        CircleView { x: self.x@, y: self.y@, radius: self.radius@ }
    }
}

impl Circle {
    /// Every value of the circle has a positive denominator.
    pub open spec fn wf(self) -> bool {
        &&& self.x.den > 0
        &&& self.y.den > 0
        &&& self.radius.den > 0
    }
}

/// One tick of a position that swings between zero and `limit`: the
/// direction it then has, and where it then is.
fn swing(position: i32, heading: Direction, step: i32, limit: i32) -> (moved: (Direction, i32))
    requires
        0 <= step,
        0 <= limit,
        limit + step <= i32::MAX,
    ensures
        moved.0 == turn(position as int, heading, limit as int),
        moved.1 == advance(position as int, moved.0, step as int),
{
    let mut heading = heading;
    if position <= 0 {
        heading = Direction::Forward;
    } else if position >= limit {
        heading = Direction::Backward;
    }
    match heading {
        Direction::Forward => (heading, position + step),
        Direction::Backward => (heading, position - step),
    }
}

/// The middle between the two edges on one axis: a vanishing point `c`, the
/// viewport's extent `w`, no offset, and `r` the reciprocal of the depth.
proof fn lemma_middle(c: real, w: real, depth: real, r: real)
    by (nonlinear_arith)
    requires
        depth * 1real != 0real,
        r == 1real / (depth * 1real),
    ensures
        ({
            let near = c - c / (depth * 1real) + 0real;
            let far = c + (w - c) / (depth * 1real) + 0real;
            near + (far - near) / 2real == c + ((w - 2real * c) / 2real) * r + 0real
        }),
{
}

/// The parts of the middle as ratios: `a` thousandths for the vanishing
/// point and `p / q` for the extent.
proof fn lemma_middle_parts(a: int, p: int, q: int)
    requires
        q > 0,
    ensures
        ratio(2 * a * q, 2000 * q) == in_units(a),
        ratio(1000 * p - 2 * a * q, 2000 * q) == (ratio(p, q) - 2real * in_units(a)) / 2real,
{
    lemma_ratio_scaled(a, 1000, 2 * q);
    assert(a * (2 * q) == 2 * a * q && 1000 * (2 * q) == 2000 * q) by (nonlinear_arith);
    lemma_ratio_multiple(2, a, 1000);
    lemma_ratio_difference(p, q, 2 * a, 1000);
    assert(p * 1000 - (2 * a) * q == 1000 * p - 2 * a * q && q * 1000 == 1000 * q
        && 2 * (1000 * q) == 2000 * q) by (nonlinear_arith);
    lemma_halved(1000 * p - 2 * a * q, 1000 * q);
}

impl FrameState {
    /// The state that the animation starts in: at the left, at the given
    /// horizon, at a depth of one, and moving forward.
    pub fn new(horizon: i32) -> (state: FrameState)
        ensures
            state@ == FrameView::initial(horizon as int),
    {
        FrameState {
            pos_x: 0,
            horizon,
            pos_z: DEPTH_START,
            inc_h: Direction::Forward,
            inc_x: Direction::Forward,
        }
    }

    /// The horizontal position.
    pub fn pos_x(&self) -> (position: i32)
        ensures
            position == self@.pos_x,
    {
        self.pos_x
    }

    /// The horizon: the height of the vanishing point.
    pub fn horizon(&self) -> (horizon: i32)
        ensures
            horizon == self@.horizon,
    {
        self.horizon
    }

    /// The depth cursor.
    pub fn pos_z(&self) -> (depth: i32)
        ensures
            depth == self@.pos_z,
    {
        self.pos_z
    }

    /// The direction of the horizontal position.
    pub fn inc_x(&self) -> (heading: Direction)
        ensures
            heading == self@.inc_x,
    {
        self.inc_x
    }

    /// The direction of the horizon.
    pub fn inc_h(&self) -> (heading: Direction)
        ensures
            heading == self@.inc_h,
    {
        self.inc_h
    }

    /// Moves the animation on by one tick.
    pub fn update(&mut self)
        ensures
            final(self)@ == old(self)@.next(),
    {
        let (inc_x, pos_x) = swing(self.pos_x, self.inc_x, POSITION_STEP, POSITION_LIMIT);
        let (inc_h, horizon) = swing(self.horizon, self.inc_h, HORIZON_STEP, HORIZON_LIMIT);
        self.inc_x = inc_x;
        self.inc_h = inc_h;
        self.pos_x = pos_x;
        self.horizon = horizon;
        let stepped: i64 = self.pos_z as i64 + DEPTH_STEP as i64;
        self.pos_z = (stepped % (DEPTH_WRAP as i64)) as i32;
    }

    /// What is to be drawn for this state in a viewport of the given size:
    /// the circle, and the projector whose grid goes on top of it.
    pub fn compose(&self, width: Ratio, height: Ratio) -> (scene: (Circle, Perspective))
        ensures
            scene.0.wf(),
            scene.0@ == self@.circle(width@, height@),
            scene.1@ == self@.projector(width@, height@),
    {
        let mut grid_world = Perspective::new(width, height);
        grid_world.set_vanishing_point(
            Ratio::new(self.pos_x, FRAME_UNIT),
            Ratio::new(self.horizon, FRAME_UNIT),
        );

        let (c, e): (i32, u16) = if self.pos_z == 0 {
            (MIN_DEPTH_NUM, MIN_DEPTH_DEN)
        } else {
            (self.pos_z, FRAME_UNIT)
        };
        let (es, ks): (i64, i64) = if c > 0 {
            (e as i64, c as i64)
        } else {
            (-(e as i64), -(c as i64))
        };
        let (pw, qw) = width.parts();
        let (ph, qh) = height.parts();
        let ax: i64 = self.pos_x as i64;
        let ay: i64 = self.horizon as i64;
        let ghost depth = effective_depth(in_units(self.pos_z as int));
        proof {
            lemma_ratio_sign(self.pos_z as int, 1000);
            assert(ratio(1, 1) == 1real) by (nonlinear_arith);
            assert(c * 1 == c && e * 1 == e);
            lemma_reciprocal(c as int, e as int, 1, 1, es as int, ks as int);
            lemma_middle(in_units(ax as int), width@, depth, ratio(es as int, ks as int));
            lemma_middle(in_units(ay as int), height@, depth, ratio(es as int, ks as int));
            lemma_middle_parts(ax as int, pw as int, qw as int);
            lemma_middle_parts(ay as int, ph as int, qh as int);
            lemma_ratio_multiple(300, es as int, ks as int);
            lemma_product_within(2 * ax, qw as int, 0x1_0000_0000, 0xffff);
            lemma_product_within(2 * ay, qh as int, 0x1_0000_0000, 0xffff);
            lemma_product_within(2 * ax * qw, ks as int, 0x1_0000_0000int * 0xffff, 0x8000_0000);
            lemma_product_within(2 * ay * qh, ks as int, 0x1_0000_0000int * 0xffff, 0x8000_0000);
            lemma_product_within(
                1000 * pw - 2 * ax * qw,
                es as int,
                1000int * 0x8000_0000 + 0x1_0000_0000int * 0xffff,
                1000,
            );
            lemma_product_within(
                1000 * ph - 2 * ay * qh,
                es as int,
                1000int * 0x8000_0000 + 0x1_0000_0000int * 0xffff,
                1000,
            );
            lemma_product_within(2000 * qw, ks as int, 2000int * 0xffff, 0x8000_0000);
            lemma_product_within(2000 * qh, ks as int, 2000int * 0xffff, 0x8000_0000);
        }
        let zero = Ratio::whole(0);
        let x = combine(
            2 * ax * (qw as i64),
            1000 * (pw as i64) - 2 * ax * (qw as i64),
            2000 * (qw as i64),
            es,
            ks,
            zero,
        );
        let y = combine(
            2 * ay * (qh as i64),
            1000 * (ph as i64) - 2 * ay * (qh as i64),
            2000 * (qh as i64),
            es,
            ks,
            zero,
        );
        let radius = Exact { num: (CIRCLE_RADIUS as i128) * (es as i128), den: ks as i128 };
        (Circle { x, y, radius }, grid_world)
    }
}

} // verus!
