//! The projector: from a depth to the rectangle that the viewport's edges
//! make at that depth.
use vstd::prelude::*;
use crate::ratio::{
    lemma_halved, lemma_product_not_zero, lemma_product_positive, lemma_ratio_difference,
    lemma_ratio_product, lemma_ratio_scaled, lemma_ratio_sign, lemma_ratio_sum,
    lemma_ratio_sum_over, lemma_times_reciprocal, ratio, Exact, Ratio,
};

verus! {

/// The numerator of the depth that stands in for a depth of zero.
pub const MIN_DEPTH_NUM: i32 = 1;

/// The denominator of the depth that stands in for a depth of zero.
pub const MIN_DEPTH_DEN: u16 = 100;

/// The depth that stands in for a depth of zero, at which nothing can be
/// projected: one hundredth.
pub open spec fn min_depth() -> real {
    ratio(MIN_DEPTH_NUM as int, MIN_DEPTH_DEN as int)
}

/// A projector: a viewport, a vanishing point in it, an offset on the screen
/// and a zoom factor.
#[derive(Clone, Copy, Debug)]
pub struct Perspective {
    x: Ratio,
    y: Ratio,
    center: (Ratio, Ratio),
    /// Whether the vanishing point lies at half of `center.0`, as it does
    /// until it is set.
    halved: bool,
    width: Ratio,
    height: Ratio,
    scale: Ratio,
}

/// The rectangle that a projector gives for one depth, and the attenuation
/// of one unit of distance at that depth.
#[derive(Clone, Copy, Debug)]
pub struct Position {
    pub top: Exact,
    pub bottom: Exact,
    pub left: Exact,
    pub right: Exact,
    pub scale: Exact,
}

/// What a `Perspective` stands for, in real numbers.
pub struct PerspectiveView {
    pub x: real,
    pub y: real,
    pub center: (real, real),
    pub width: real,
    pub height: real,
    pub scale: real,
}

/// What a `Position` stands for, in real numbers.
pub struct PositionView {
    pub top: real,
    pub bottom: real,
    pub left: real,
    pub right: real,
    pub scale: real,
}

/// The depth that a level is projected at: the level itself, but for zero,
/// which is raised to `min_depth()`.
pub open spec fn effective_depth(level: real) -> real {
    if level == 0real {
        min_depth()
    } else {
        level
    }
}

/// The attenuation of a `distance` seen at a `depth` under a zoom factor
/// `scale`: the distance divided by depth times zoom factor.
pub open spec fn attenuate(distance: real, depth: real, scale: real) -> real {
    distance / (depth * scale)
}

impl PerspectiveView {
    /// The projector that a viewport of the given size starts with: no
    /// offset, the vanishing point at the middle of the bottom edge, and a
    /// zoom factor of one.
    pub open spec fn initial(width: real, height: real) -> PerspectiveView {
        PerspectiveView {
            x: 0real,
            y: 0real,
            center: (width / 2real, height),
            width,
            height,
            scale: 1real,
        }
    }

    /// The rectangle at `level`. Each edge lies at the vanishing point, moved
    /// out by the attenuated distance from the vanishing point to that edge
    /// of the viewport, and then moved by the offset.
    pub open spec fn project(self, level: real) -> PositionView {
        let depth = effective_depth(level);
        let (cx, cy) = self.center;
        PositionView {
            top: cy - attenuate(cy, depth, self.scale) + self.y,
            bottom: cy + attenuate(self.height - cy, depth, self.scale) + self.y,
            left: cx - attenuate(cx, depth, self.scale) + self.x,
            right: cx + attenuate(self.width - cx, depth, self.scale) + self.x,
            scale: attenuate(1real, depth, self.scale),
        }
    }
}

impl View for Perspective {
    type V = PerspectiveView;

    closed spec fn view(&self) -> PerspectiveView {
        PerspectiveView {
            x: self.x@,
            y: self.y@,
            center: (
                if self.halved {
                    self.center.0@ / 2real
                } else {
                    self.center.0@
                },
                self.center.1@,
            ),
            width: self.width@,
            height: self.height@,
            scale: self.scale@,
        }
    }
}

impl View for Position {
    type V = PositionView;

    open spec fn view(&self) -> PositionView {
        PositionView {
            top: self.top@,
            bottom: self.bottom@,
            left: self.left@,
            right: self.right@,
            scale: self.scale@,
        }
    }
}

impl Position {
    /// Every value of the position has a positive denominator.
    pub open spec fn wf(self) -> bool {
        &&& self.top.den > 0
        &&& self.bottom.den > 0
        &&& self.left.den > 0
        &&& self.right.den > 0
        &&& self.scale.den > 0
    }
}

/// The product of two bounded numbers is bounded by the product of the
/// bounds.
pub(crate) proof fn lemma_product_within(a: int, b: int, bound_a: int, bound_b: int)
    by (nonlinear_arith)
    requires
        -bound_a <= a <= bound_a,
        -bound_b <= b <= bound_b,
    ensures
        -(bound_a * bound_b) <= a * b <= bound_a * bound_b,
{
}

/// The number that three ratios combine to, over one denominator.
proof fn lemma_combined(vn: int, dn: int, dd: int, es: int, ks: int, h: int, i: int)
    requires
        dd > 0,
        ks > 0,
        i > 0,
    ensures
        ratio((vn * ks + dn * es) * i + h * (dd * ks), dd * ks * i) == ratio(vn, dd) + ratio(dn, dd)
            * ratio(es, ks) + ratio(h, i),
        dd * ks * i > 0,
{
    lemma_product_positive(dd, ks);
    lemma_product_positive(dd * ks, i);
    lemma_ratio_product(dn, dd, es, ks);
    lemma_ratio_scaled(vn, dd, ks);
    lemma_ratio_sum_over(vn * ks, dn * es, dd * ks);
    lemma_ratio_sum(vn * ks + dn * es, dd * ks, h, i);
}

/// The number `vn / dd + (dn / dd) * (es / ks) + off`. The products that
/// it is made of must leave room for the offset.
pub(crate) fn combine(vn: i64, dn: i64, dd: i64, es: i64, ks: i64, off: Ratio) -> (r: Exact)
    requires
        0 < dd,
        0 < ks,
        -0x2000_0000_0000_0000_0000_0000_0000 <= vn * ks <= 0x2000_0000_0000_0000_0000_0000_0000,
        -0x1_8000_0000_0000_0000_0000 <= dn * es <= 0x1_8000_0000_0000_0000_0000,
        dd * ks <= 0x8000_0000_0000_0000_0000_0000,
    ensures
        r.den > 0,
        r@ == ratio(vn as int, dd as int) + ratio(dn as int, dd as int) * ratio(
            es as int,
            ks as int,
        ) + off@,
{
    let (h, i) = off.parts();
    proof {
        lemma_product_positive(dd as int, ks as int);
    }
    let inner: i128 = (vn as i128) * (ks as i128) + (dn as i128) * (es as i128);
    let span: i128 = (dd as i128) * (ks as i128);
    proof {
        lemma_product_within(
            inner as int,
            i as int,
            0x2000_0001_8000_0000_0000_0000_0000int,
            0xffff,
        );
        lemma_product_within(h as int, span as int, 0x8000_0000, 0x8000_0000_0000_0000_0000_0000int);
        lemma_product_within(span as int, i as int, 0x8000_0000_0000_0000_0000_0000int, 0xffff);
        lemma_combined(vn as int, dn as int, dd as int, es as int, ks as int, h as int, i as int);
    }
    Exact { num: inner * (i as i128) + (h as i128) * span, den: span * (i as i128) }
}

/// The reciprocal of a product of two ratios, as a ratio.
pub(crate) proof fn lemma_reciprocal(c: int, e: int, f: int, g: int, es: int, ks: int)
    requires
        e > 0,
        g > 0,
        c * f != 0,
        (es == e * g && ks == c * f) || (es == -(e * g) && ks == -(c * f)),
    ensures
        ratio(es, ks) == 1real / (ratio(c, e) * ratio(f, g)),
        ratio(c, e) * ratio(f, g) != 0real,
{
    lemma_product_positive(e, g);
    lemma_ratio_product(c, e, f, g);
    lemma_ratio_flipped(c * f, e * g);
    if es != e * g {
        lemma_ratio_scaled(e * g, c * f, -1);
    }
}

/// The reciprocal of a ratio that is not zero.
proof fn lemma_ratio_flipped(n: int, d: int)
    by (nonlinear_arith)
    requires
        n != 0,
        d != 0,
    ensures
        ratio(n, d) != 0real,
        1real / ratio(n, d) == ratio(d, n),
{
}

/// The edge on the near side of the vanishing point, from its parts.
proof fn lemma_near_edge(a: int, b: int, r: real)
    requires
        b > 0,
    ensures
        ratio(a, b) + ratio(-a, b) * r == ratio(a, b) - ratio(a, b) * r,
{
    lemma_ratio_sum_over(a, a, b);
    assert((-ratio(a, b)) * r == -(ratio(a, b) * r)) by (nonlinear_arith);
}

/// The edge on the far side of the vanishing point, from its parts.
proof fn lemma_far_edge(a: int, b: int, p: int, q: int, r: real)
    requires
        b > 0,
        q > 0,
    ensures
        ratio(a * q, q * b) + ratio(p * b - a * q, q * b) * r == ratio(a, b) + (ratio(p, q) - ratio(
            a,
            b,
        )) * r,
{
    lemma_product_positive(q, b);
    lemma_ratio_scaled(a, b, q);
    assert(a * q == q * a && b * q == q * b) by (nonlinear_arith);
    lemma_ratio_difference(p, q, a, b);
}

/// The reciprocal of depth times zoom factor at a level, as a numerator
/// over a positive denominator.
fn reciprocal(level: Ratio, scale: Ratio) -> (r: (i64, i64))
    requires
        scale@ != 0real,
    ensures
        -0x1_0000_0000 <= r.0 <= 0x1_0000_0000,
        0 < r.1 <= 0x4000_0000_0000_0000,
        effective_depth(level@) * scale@ != 0real,
        ratio(r.0 as int, r.1 as int) == 1real / (effective_depth(level@) * scale@),
{
    let (mut c, mut e) = level.parts();
    if level.is_zero() {
        c = MIN_DEPTH_NUM;
        e = MIN_DEPTH_DEN;
    }
    let (f, g) = scale.parts();
    proof {
        lemma_ratio_sign(c as int, e as int);
        lemma_ratio_sign(f as int, g as int);
        lemma_product_not_zero(c as int, f as int);
        lemma_product_within(c as int, f as int, 0x8000_0000, 0x8000_0000);
        lemma_product_within(e as int, g as int, 0xffff, 0xffff);
    }
    let span: i64 = (c as i64) * (f as i64);
    let unit: i64 = (e as i64) * (g as i64);
    let r: (i64, i64) = if span > 0 {
        (unit, span)
    } else {
        (-unit, -span)
    };
    proof {
        lemma_reciprocal(c as int, e as int, f as int, g as int, r.0 as int, r.1 as int);
    }
    r
}

/// The two edges on one axis: the vanishing point `center` on that axis, or
/// half of it where `halved`, moved out toward zero and toward `extent` by
/// `es / ks` times its distance from them, and then moved by `offset`.
fn axis(center: Ratio, halved: bool, extent: Ratio, offset: Ratio, es: i64, ks: i64) -> (edges: (
    Exact,
    Exact,
))
    requires
        -0x1_0000_0000 <= es <= 0x1_0000_0000,
        0 < ks <= 0x4000_0000_0000_0000,
    ensures
        edges.0.den > 0,
        edges.1.den > 0,
        ({
            let c = if halved {
                center@ / 2real
            } else {
                center@
            };
            let r = ratio(es as int, ks as int);
            &&& edges.0@ == c - c * r + offset@
            &&& edges.1@ == c + (extent@ - c) * r + offset@
        }),
{
    let (a, b) = center.parts();
    let (p, q) = extent.parts();
    let a: i64 = a as i64;
    let p: i64 = p as i64;
    let q: i64 = q as i64;
    let b: i64 = if halved {
        proof {
            lemma_halved(a as int, b as int);
        }
        2 * (b as i64)
    } else {
        b as i64
    };
    proof {
        lemma_product_within(a as int, q as int, 0x8000_0000, 0xffff);
        lemma_product_within(p as int, b as int, 0x8000_0000, 0x1_fffe);
        lemma_product_within(q as int, b as int, 0xffff, 0x1_fffe);
        lemma_product_positive(q as int, b as int);
        lemma_product_within(a as int, ks as int, 0x8000_0000, 0x4000_0000_0000_0000);
        lemma_product_within(-a, es as int, 0x8000_0000, 0x1_0000_0000);
        lemma_product_within(b as int, ks as int, 0x1_fffe, 0x4000_0000_0000_0000);
        lemma_product_within(a * q, ks as int, 0x8000_0000int * 0xffff, 0x4000_0000_0000_0000);
        lemma_product_within(
            p * b - a * q,
            es as int,
            0x8000_0000int * 0x1_fffe + 0x8000_0000int * 0xffff,
            0x1_0000_0000,
        );
        lemma_product_within(q * b, ks as int, 0xffffint * 0x1_fffe, 0x4000_0000_0000_0000);
        lemma_near_edge(a as int, b as int, ratio(es as int, ks as int));
        lemma_far_edge(a as int, b as int, p as int, q as int, ratio(es as int, ks as int));
    }
    let near = combine(a, -a, b, es, ks, offset);
    let far = combine(a * q, p * b - a * q, q * b, es, ks, offset);
    (near, far)
}

impl Perspective {
    /// A projector for a viewport of the given size, with no offset, the
    /// vanishing point at the middle of the bottom edge, and a zoom factor of
    /// one.
    pub fn new(width: Ratio, height: Ratio) -> (p: Perspective)
        ensures
            p@ == PerspectiveView::initial(width@, height@),
    {
        Perspective {
            x: Ratio::whole(0),
            y: Ratio::whole(0),
            width,
            height,
            center: (width, height),
            halved: true,
            scale: Ratio::whole(1),
        }
    }

    /// Sets the offset on the screen.
    pub fn set_position(&mut self, x: Ratio, y: Ratio) -> (ret: &mut Self)
        ensures
            ret@ == (PerspectiveView { x: x@, y: y@, ..old(self)@ }),
            *final(self) == *final(ret),
    {
        self.x = x;
        self.y = y;
        self
    }

    /// Sets the vanishing point.
    pub fn set_vanishing_point(&mut self, x: Ratio, y: Ratio) -> (ret: &mut Self)
        ensures
            ret@ == (PerspectiveView { center: (x@, y@), ..old(self)@ }),
            *final(self) == *final(ret),
    {
        self.center = (x, y);
        self.halved = false;
        self
    }

    /// Sets the zoom factor.
    pub fn set_scale(&mut self, scale: Ratio) -> (ret: &mut Self)
        ensures
            ret@ == (PerspectiveView { scale: scale@, ..old(self)@ }),
            *final(self) == *final(ret),
    {
        self.scale = scale;
        self
    }

    /// The vanishing point.
    pub fn vanishing_point(&self) -> (point: (Exact, Exact))
        ensures
            point.0.den > 0,
            point.1.den > 0,
            point.0@ == self@.center.0,
            point.1@ == self@.center.1,
    {
        let (x, dx) = self.center.0.parts();
        let (y, dy) = self.center.1.parts();
        let dx: i128 = if self.halved {
            proof {
                lemma_halved(x as int, dx as int);
            }
            2 * (dx as i128)
        } else {
            dx as i128
        };
        (Exact { num: x as i128, den: dx }, Exact { num: y as i128, den: dy as i128 })
    }

    /// The width and the height of the viewport.
    pub fn viewport(&self) -> (size: (Ratio, Ratio))
        ensures
            size.0@ == self@.width,
            size.1@ == self@.height,
    {
        (self.width, self.height)
    }

    /// The zoom factor.
    pub fn scale(&self) -> (scale: Ratio)
        ensures
            scale@ == self@.scale,
    {
        self.scale
    }

    /// The rectangle at depth `level`, and the attenuation of one unit of
    /// distance there. A level of zero is projected at one hundredth. The
    /// zoom factor must not be zero: nothing is the quotient of a distance
    /// by zero.
    pub fn dimensions_at_depth(&self, level: Ratio) -> (pos: Position)
        requires
            self@.scale != 0real,
        ensures
            pos.wf(),
            pos@ == self@.project(level@),
    {
        let (es, ks) = reciprocal(level, self.scale);
        proof {
            let k = effective_depth(level@) * self@.scale;
            let (cx, cy) = self@.center;
            lemma_times_reciprocal(cy, k);
            lemma_times_reciprocal(self@.height - cy, k);
            lemma_times_reciprocal(cx, k);
            lemma_times_reciprocal(self@.width - cx, k);
        }
        let (top, bottom) = axis(self.center.1, false, self.height, self.y, es, ks);
        let (left, right) = axis(self.center.0, self.halved, self.width, self.x, es, ks);
        Position { bottom, right, top, left, scale: Exact { num: es as i128, den: ks as i128 } }
    }
}

} // verus!
