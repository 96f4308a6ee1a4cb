use vstd::prelude::*;

verus! {

use crate::ArcResolution;
use crate::scalar::{
    Coord, Real, add_r, atan2_r, ceil_count_r, coord_r, coord_x, coord_y, cos_r, div_r, gt_r,
    mul_r, neg_r, real_add, real_atan2, real_ceil_count, real_cos, real_div, real_from_u32,
    real_gt, real_is_sign_negative, real_mul, real_neg, real_of_u32, real_sin, real_sub, real_tau,
    sign_negative_r, sin_r, sub_r, tau_r, x_r, y_r,
};

/// A count made odd, and at least one: decremented when even, raised to one
/// when zero, so that a vertex lands exactly on the arc's midpoint.
pub open spec fn adjust_odd(n: usize) -> usize {
    if n == 0 {
        1
    } else if n % 2 == 0 {
        (n - 1) as usize
    } else {
        n
    }
}

/// A count brought into u32, the widest the angle arithmetic takes; counts
/// beyond it are clamped to its odd maximum.
pub open spec fn cap_u32(n: usize) -> u32 {
    if n > 0xFFFF_FFFFusize {
        0xFFFF_FFFFu32
    } else {
        n as u32
    }
}

pub fn odd_count(n: usize) -> (r: u32)
    ensures
        r == cap_u32(adjust_odd(n)),
        r >= 1,
{
    let adjusted: usize = if n == 0 {
        1
    } else if n % 2 == 0 {
        n - 1
    } else {
        n
    };
    if adjusted > 0xFFFF_FFFFusize {
        0xFFFF_FFFFu32
    } else {
        adjusted as u32
    }
}

/// An angle folded into [0, 2*pi): the full turn is added when the sign bit
/// is set, as on the negative half of atan2's range.
pub open spec fn normalize_angle_r(a: Real) -> Real {
    if sign_negative_r(a) {
        add_r(a, tau_r())
    } else {
        a
    }
}

/// The angle of the vertex `v` as seen from `center`, folded into [0, 2*pi).
pub open spec fn vertex_angle_r(center: Coord, v: Coord) -> Real {
    normalize_angle_r(atan2_r(sub_r(y_r(v), y_r(center)), sub_r(x_r(v), x_r(center))))
}

/// The clockwise angular way from the start angle down to the end angle.
pub open spec fn arc_span_r(sa: Real, ea: Real) -> Real {
    if gt_r(sa, ea) {
        sub_r(sa, ea)
    } else {
        sub_r(add_r(sa, tau_r()), ea)
    }
}

/// The angle the arc walks through: the span itself for an outward (convex)
/// arc, the complementary turn for an inward one.
pub open spec fn traversed_r(span: Real, outwards: bool) -> Real {
    if outwards {
        span
    } else {
        sub_r(tau_r(), span)
    }
}

/// The step between consecutive arc vertices: the traversed angle, signed
/// negative when outwards, split into `count` equal parts.
pub open spec fn segment_angle_r(span: Real, outwards: bool, count: u32) -> Real {
    div_r(
        if outwards {
            neg_r(span)
        } else {
            sub_r(tau_r(), span)
        },
        real_of_u32(count),
    )
}

/// How many segments approximate an arc: the requested count made odd, or
/// for a target segment length, the ceiling of the arc's length over it,
/// made odd.
pub open spec fn arc_count_r(res: ArcResolution, radius: Real, span: Real, outwards: bool) -> u32 {
    match res {
        ArcResolution::SegmentCount(c) => cap_u32(adjust_odd(c)),
        ArcResolution::SegmentLength(l) => cap_u32(
            adjust_odd(ceil_count_r(div_r(mul_r(radius, traversed_r(span, outwards)), l))),
        ),
    }
}

/// The i-th interior vertex of an arc: on the circle, at the start angle
/// advanced by i steps.
pub open spec fn arc_vertex_r(center: Coord, radius: Real, sa: Real, seg: Real, i: u32) -> Coord {
    let a = add_r(sa, mul_r(seg, real_of_u32(i)));
    coord_r(
        add_r(x_r(center), mul_r(cos_r(a), radius)),
        add_r(y_r(center), mul_r(sin_r(a), radius)),
    )
}

/// The whole point sequence of an arc from `start_v` to `end_v` around
/// `center`: the two boundary vertices are taken over exactly as given, the
/// interior ones are computed on the circle.
pub open spec fn arc_points_r(
    center: Coord,
    radius: Real,
    start_v: Coord,
    end_v: Coord,
    res: ArcResolution,
    outwards: bool,
) -> Seq<Coord> {
    let sa = vertex_angle_r(center, start_v);
    let ea = vertex_angle_r(center, end_v);
    let span = arc_span_r(sa, ea);
    let count = arc_count_r(res, radius, span, outwards);
    let seg = segment_angle_r(span, outwards, count);
    seq![start_v] + Seq::new(
        (count - 1) as nat,
        |i: int| arc_vertex_r(center, radius, sa, seg, (i + 1) as u32),
    ) + seq![end_v]
}

/// The running angle of the circle contour: k+1 successive additions of the
/// step to zero, the way the contour accumulates it.
pub open spec fn circle_acc_angle_r(step: Real, k: int) -> Real
    decreases k,
{
    if k <= 0 {
        add_r(real_of_u32(0), step)
    } else {
        add_r(circle_acc_angle_r(step, k - 1), step)
    }
}

/// The angular step of the circle contour: the full turn split into `count`
/// equal parts.
pub open spec fn circle_step_r(count: u32) -> Real {
    div_r(tau_r(), real_of_u32(count))
}

/// The k-th vertex of the circle contour, counter-clockwise from one step
/// above the x axis.
pub open spec fn circle_vertex_r(center: Coord, mag: Real, step: Real, k: int) -> Coord {
    coord_r(
        add_r(x_r(center), mul_r(mag, cos_r(circle_acc_angle_r(step, k)))),
        add_r(y_r(center), mul_r(mag, sin_r(circle_acc_angle_r(step, k)))),
    )
}

/// The open contour of the circle of radius `mag` around `center`, `count`
/// vertices at equal angular steps.
pub open spec fn circle_ring_r(center: Coord, mag: Real, count: u32) -> Seq<Coord> {
    Seq::new(count as nat, |k: int| circle_vertex_r(center, mag, circle_step_r(count), k))
}

/// How many vertices the circle of a point offset gets: the requested count
/// made odd, or the ceiling of the circumference over the target segment
/// length, made odd.
pub open spec fn circle_count_r(res: ArcResolution, mag: Real) -> u32 {
    match res {
        ArcResolution::SegmentCount(c) => cap_u32(adjust_odd(c)),
        ArcResolution::SegmentLength(l) => cap_u32(
            adjust_odd(ceil_count_r(div_r(mul_r(tau_r(), mag), l))),
        ),
    }
}

/// The circle contour around `center` with radius `mag`, as many vertices as
/// the resolution asks for.
pub fn circle_contour(center: &Coord, mag: &Real, resolution: &ArcResolution) -> (r: Vec<Coord>)
    ensures
        r@ == circle_ring_r(*center, *mag, circle_count_r(*resolution, *mag)),
{
    let tau = real_tau();
    let count: u32 = match resolution {
        ArcResolution::SegmentCount(c) => odd_count(*c),
        ArcResolution::SegmentLength(l) => odd_count(
            real_ceil_count(&real_div(&real_mul(&tau, mag), l)),
        ),
    };
    let step = real_div(&tau, &real_from_u32(count));
    let mut angle = real_from_u32(0);
    let mut contour: Vec<Coord> = Vec::new();
    let mut k: u32 = 0;
    while k < count
        invariant
            k <= count,
            step == circle_step_r(count),
            count == circle_count_r(*resolution, *mag),
            k == 0 ==> angle == real_of_u32(0),
            k > 0 ==> angle == circle_acc_angle_r(step, k - 1),
            contour@ == Seq::new(k as nat, |j: int| circle_vertex_r(*center, *mag, step, j)),
        decreases count - k,
    {
        angle = real_add(&angle, &step);
        let vertex = crate::scalar::make_coord(
            &real_add(&coord_x(center), &real_mul(mag, &real_cos(&angle))),
            &real_add(&coord_y(center), &real_mul(mag, &real_sin(&angle))),
        );
        contour.push(vertex);
        proof {
            assert(angle == circle_acc_angle_r(step, k as int));
            assert(contour@ =~= Seq::new(
                (k + 1) as nat,
                |j: int| circle_vertex_r(*center, *mag, step, j),
            ));
        }
        k += 1;
    }
    contour
}

/// Appends to `vertices` the arc from `start_vertex` to `end_vertex` around
/// `center`: first `start_vertex`, then the interior vertices at equal
/// angular steps, then `end_vertex`, exactly as given.
pub fn create_arc(
    vertices: &mut Vec<Coord>,
    center: &Coord,
    radius: &Real,
    start_vertex: &Coord,
    end_vertex: &Coord,
    resolution: &ArcResolution,
    outwards: bool,
)
    ensures
        final(vertices)@ == old(vertices)@ + arc_points_r(
            *center,
            *radius,
            *start_vertex,
            *end_vertex,
            *resolution,
            outwards,
        ),
{
    let tau = real_tau();
    let raw_start = real_atan2(
        &real_sub(&coord_y(start_vertex), &coord_y(center)),
        &real_sub(&coord_x(start_vertex), &coord_x(center)),
    );
    let start_angle = if real_is_sign_negative(&raw_start) {
        real_add(&raw_start, &tau)
    } else {
        raw_start
    };
    let raw_end = real_atan2(
        &real_sub(&coord_y(end_vertex), &coord_y(center)),
        &real_sub(&coord_x(end_vertex), &coord_x(center)),
    );
    let end_angle = if real_is_sign_negative(&raw_end) {
        real_add(&raw_end, &tau)
    } else {
        raw_end
    };
    let span = if real_gt(&start_angle, &end_angle) {
        real_sub(&start_angle, &end_angle)
    } else {
        real_sub(&real_add(&start_angle, &tau), &end_angle)
    };
    let count: u32 = match resolution {
        ArcResolution::SegmentCount(c) => odd_count(*c),
        ArcResolution::SegmentLength(l) => {
            let traversed = if outwards {
                span
            } else {
                real_sub(&tau, &span)
            };
            odd_count(real_ceil_count(&real_div(&real_mul(radius, &traversed), l)))
        },
    };
    let segment_angle = real_div(
        &if outwards {
            real_neg(&span)
        } else {
            real_sub(&tau, &span)
        },
        &real_from_u32(count),
    );
    let ghost sa = vertex_angle_r(*center, *start_vertex);
    let ghost seg = segment_angle_r(arc_span_r(sa, vertex_angle_r(*center, *end_vertex)), outwards, count);
    vertices.push(*start_vertex);
    let mut i: u32 = 1;
    while i < count
        invariant
            1 <= i <= count,
            start_angle == sa,
            segment_angle == seg,
            count == arc_count_r(
                *resolution,
                *radius,
                arc_span_r(sa, vertex_angle_r(*center, *end_vertex)),
                outwards,
            ),
            vertices@ == old(vertices)@ + seq![*start_vertex] + Seq::new(
                (i - 1) as nat,
                |k: int| arc_vertex_r(*center, *radius, sa, seg, (k + 1) as u32),
            ),
        decreases count - i,
    {
        let angle = real_add(&start_angle, &real_mul(&segment_angle, &real_from_u32(i)));
        let vertex = crate::scalar::make_coord(
            &real_add(&coord_x(center), &real_mul(&real_cos(&angle), radius)),
            &real_add(&coord_y(center), &real_mul(&real_sin(&angle), radius)),
        );
        vertices.push(vertex);
        proof {
            assert(vertices@ =~= old(vertices)@ + seq![*start_vertex] + Seq::new(
                i as nat,
                |k: int| arc_vertex_r(*center, *radius, sa, seg, (k + 1) as u32),
            ));
        }
        i += 1;
    }
    vertices.push(*end_vertex);
    proof {
        assert(vertices@ =~= old(vertices)@ + arc_points_r(
            *center,
            *radius,
            *start_vertex,
            *end_vertex,
            *resolution,
            outwards,
        ));
    }
}

} // verus!

