//! What holds of every projection.
use vstd::prelude::*;
use crate::perspective::{attenuate, effective_depth, min_depth, PerspectiveView, PositionView};
use crate::ratio::lemma_ratio_sign;

verus! {

/// A product of two real numbers that are not zero is not zero, and a
/// product of two positive ones is positive.
pub proof fn lemma_span(depth: real, scale: real)
    by (nonlinear_arith)
    ensures
        depth != 0real && scale != 0real ==> depth * scale != 0real,
        depth > 0real && scale > 0real ==> depth * scale > 0real,
{
}

/// An attenuated distance, multiplied by depth and by zoom factor, is the
/// distance again.
pub proof fn lemma_attenuation_product(distance: real, depth: real, scale: real)
    by (nonlinear_arith)
    requires
        depth * scale != 0real,
    ensures
        attenuate(distance, depth, scale) * depth * scale == distance,
        attenuate(distance, depth, scale) * (depth * scale) == distance,
{
}

/// Under a positive product of depth and zoom factor, an attenuated
/// distance has the sign of the distance.
pub proof fn lemma_attenuation_sign(distance: real, depth: real, scale: real)
    by (nonlinear_arith)
    requires
        depth * scale > 0real,
    ensures
        distance >= 0real ==> attenuate(distance, depth, scale) >= 0real,
        distance > 0real ==> attenuate(distance, depth, scale) > 0real,
{
}

/// A distance of at most `reach` is attenuated to at most `eps` where depth
/// times zoom factor times `eps` is at least `reach`.
pub proof fn lemma_attenuation_within(
    distance: real,
    reach: real,
    depth: real,
    scale: real,
    eps: real,
)
    by (nonlinear_arith)
    requires
        0real <= distance <= reach,
        depth * scale > 0real,
        eps > 0real,
        depth * scale * eps >= reach,
    ensures
        attenuate(distance, depth, scale) <= eps,
{
}

/// At a greater depth a distance is attenuated to no more than at a smaller
/// one.
pub proof fn lemma_attenuation_decreases(distance: real, near: real, far: real, scale: real)
    by (nonlinear_arith)
    requires
        distance >= 0real,
        0real < near <= far,
        scale > 0real,
    ensures
        attenuate(distance, far, scale) <= attenuate(distance, near, scale),
{
}

/// A projector that was just made for a viewport has its vanishing point at
/// the middle of the viewport's bottom edge.
pub proof fn lemma_initial_vanishing_point(width: real, height: real)
    ensures
        PerspectiveView::initial(width, height).center == (width / 2real, height),
        2real * PerspectiveView::initial(width, height).center.0 == width,
{
}

/// A depth of zero is projected as one hundredth is, and every other depth
/// as itself.
pub proof fn lemma_zero_depth_is_min_depth(p: PerspectiveView)
    ensures
        p.project(0real) == p.project(min_depth()),
        min_depth() == 1real / 100real,
        forall|level: real| level != 0real ==> effective_depth(level) == level,
{
    lemma_ratio_sign(1, 100);
}

/// The projection without a quotient: the scale times depth times zoom
/// factor is one, and the distance of each edge from the vanishing point,
/// moved by the offset, times depth times zoom factor is the distance of the
/// vanishing point from that edge of the viewport.
pub proof fn lemma_projection_products(p: PerspectiveView, level: real)
    requires
        p.scale != 0real,
    ensures
        ({
            let r = p.project(level);
            let depth = effective_depth(level);
            let (cx, cy) = p.center;
            &&& r.scale * depth * p.scale == 1real
            &&& (cy + p.y - r.top) * depth * p.scale == cy
            &&& (r.bottom - (cy + p.y)) * depth * p.scale == p.height - cy
            &&& (cx + p.x - r.left) * depth * p.scale == cx
            &&& (r.right - (cx + p.x)) * depth * p.scale == p.width - cx
        }),
{
    let depth = effective_depth(level);
    let (cx, cy) = p.center;
    lemma_ratio_sign(1, 100);
    lemma_span(depth, p.scale);
    lemma_attenuation_product(1real, depth, p.scale);
    lemma_attenuation_product(cy, depth, p.scale);
    lemma_attenuation_product(p.height - cy, depth, p.scale);
    lemma_attenuation_product(cx, depth, p.scale);
    lemma_attenuation_product(p.width - cx, depth, p.scale);
}

/// The scale is above zero wherever depth times zoom factor is.
pub proof fn lemma_scale_positive(p: PerspectiveView, level: real)
    requires
        effective_depth(level) * p.scale > 0real,
    ensures
        p.project(level).scale > 0real,
{
    lemma_attenuation_sign(1real, effective_depth(level), p.scale);
}

/// Convergence, for a vanishing point inside the viewport and a positive
/// zoom factor: whatever tolerance `eps` is given, from the depth on at
/// which depth times zoom factor times `eps` reaches the viewport's width,
/// its height and one, no edge is further than `eps` from the vanishing
/// point, moved by the offset, and the scale is above zero and at most
/// `eps`.
pub proof fn lemma_edges_within_tolerance(p: PerspectiveView, level: real, eps: real)
    requires
        p.scale > 0real,
        0real <= p.center.0 <= p.width,
        0real <= p.center.1 <= p.height,
        eps > 0real,
        level > 0real,
        level * p.scale * eps >= p.width,
        level * p.scale * eps >= p.height,
        level * p.scale * eps >= 1real,
    ensures
        ({
            let r = p.project(level);
            let (cx, cy) = p.center;
            &&& cy + p.y - eps <= r.top <= cy + p.y <= r.bottom <= cy + p.y + eps
            &&& cx + p.x - eps <= r.left <= cx + p.x <= r.right <= cx + p.x + eps
            &&& 0real < r.scale <= eps
        }),
{
    let (cx, cy) = p.center;
    lemma_span(level, p.scale);
    lemma_attenuation_sign(cy, level, p.scale);
    lemma_attenuation_sign(p.height - cy, level, p.scale);
    lemma_attenuation_sign(cx, level, p.scale);
    lemma_attenuation_sign(p.width - cx, level, p.scale);
    lemma_attenuation_sign(1real, level, p.scale);
    lemma_attenuation_within(cy, p.height, level, p.scale, eps);
    lemma_attenuation_within(p.height - cy, p.height, level, p.scale, eps);
    lemma_attenuation_within(cx, p.width, level, p.scale, eps);
    lemma_attenuation_within(p.width - cx, p.width, level, p.scale, eps);
    lemma_attenuation_within(1real, 1real, level, p.scale, eps);
}

/// Nesting, for a vanishing point inside the viewport and a positive zoom
/// factor: the rectangle at a greater depth lies inside the rectangle at a
/// smaller one, around the vanishing point, moved by the offset, and its
/// scale is above zero and no larger.
pub proof fn lemma_rectangles_nest(p: PerspectiveView, near: real, far: real)
    requires
        p.scale > 0real,
        0real <= p.center.0 <= p.width,
        0real <= p.center.1 <= p.height,
        0real < near <= far,
    ensures
        ({
            let a = p.project(near);
            let b = p.project(far);
            let (cx, cy) = p.center;
            &&& a.top <= b.top <= cy + p.y <= b.bottom <= a.bottom
            &&& a.left <= b.left <= cx + p.x <= b.right <= a.right
            &&& 0real < b.scale <= a.scale
        }),
{
    let (cx, cy) = p.center;
    lemma_span(far, p.scale);
    lemma_attenuation_sign(cy, far, p.scale);
    lemma_attenuation_sign(p.height - cy, far, p.scale);
    lemma_attenuation_sign(cx, far, p.scale);
    lemma_attenuation_sign(p.width - cx, far, p.scale);
    lemma_attenuation_sign(1real, far, p.scale);
    lemma_attenuation_decreases(cy, near, far, p.scale);
    lemma_attenuation_decreases(p.height - cy, near, far, p.scale);
    lemma_attenuation_decreases(cx, near, far, p.scale);
    lemma_attenuation_decreases(p.width - cx, near, far, p.scale);
    lemma_attenuation_decreases(1real, near, far, p.scale);
}

/// At a depth of one, with a zoom factor of one and no offset, the rectangle
/// is the viewport and the scale is one, wherever the vanishing point lies.
pub proof fn lemma_unit_depth_is_viewport(p: PerspectiveView)
    requires
        p.scale == 1real,
        p.x == 0real,
        p.y == 0real,
    ensures
        p.project(1real) == (PositionView {
            top: 0real,
            bottom: p.height,
            left: 0real,
            right: p.width,
            scale: 1real,
        }),
{
    let (cx, cy) = p.center;
    lemma_unit_attenuation(cy);
    lemma_unit_attenuation(p.height - cy);
    lemma_unit_attenuation(cx);
    lemma_unit_attenuation(p.width - cx);
    lemma_unit_attenuation(1real);
}

/// Attenuation at a depth of one under a zoom factor of one changes nothing.
proof fn lemma_unit_attenuation(distance: real)
    by (nonlinear_arith)
    ensures
        attenuate(distance, 1real, 1real) == distance,
{
}

/// Multiplying the zoom factor by `factor` divides every attenuated distance
/// by `factor`.
pub proof fn lemma_zoom_divides_attenuation(
    distance: real,
    depth: real,
    scale: real,
    factor: real,
)
    by (nonlinear_arith)
    requires
        depth * scale != 0real,
        factor != 0real,
    ensures
        attenuate(distance, depth, factor * scale) == attenuate(distance, depth, scale) / factor,
{
}

/// Twice the zoom factor halves the distance of every edge from the
/// vanishing point, and the scale.
pub proof fn lemma_double_zoom_halves(p: PerspectiveView, level: real)
    requires
        p.scale != 0real,
    ensures
        ({
            let single = p.project(level);
            let double = (PerspectiveView { scale: 2real * p.scale, ..p }).project(level);
            let (cx, cy) = p.center;
            &&& double.top - (cy + p.y) == (single.top - (cy + p.y)) / 2real
            &&& double.bottom - (cy + p.y) == (single.bottom - (cy + p.y)) / 2real
            &&& double.left - (cx + p.x) == (single.left - (cx + p.x)) / 2real
            &&& double.right - (cx + p.x) == (single.right - (cx + p.x)) / 2real
            &&& double.scale == single.scale / 2real
        }),
{
    let depth = effective_depth(level);
    let (cx, cy) = p.center;
    lemma_ratio_sign(1, 100);
    lemma_span(depth, p.scale);
    lemma_zoom_divides_attenuation(cy, depth, p.scale, 2real);
    lemma_zoom_divides_attenuation(p.height - cy, depth, p.scale, 2real);
    lemma_zoom_divides_attenuation(cx, depth, p.scale, 2real);
    lemma_zoom_divides_attenuation(p.width - cx, depth, p.scale, 2real);
    lemma_zoom_divides_attenuation(1real, depth, p.scale, 2real);
}

/// The offset moves every edge by itself, the left and right edges by its
/// `x` and the top and bottom edges by its `y`, and leaves the scale, at
/// every depth and under every zoom factor.
pub proof fn lemma_offset_translates(p: PerspectiveView, x: real, y: real, level: real)
    ensures
        ({
            let moved = (PerspectiveView { x, y, ..p }).project(level);
            let unmoved = (PerspectiveView { x: 0real, y: 0real, ..p }).project(level);
            moved == (PositionView {
                top: unmoved.top + y,
                bottom: unmoved.bottom + y,
                left: unmoved.left + x,
                right: unmoved.right + x,
                scale: unmoved.scale,
            })
        }),
{
}

} // verus!
