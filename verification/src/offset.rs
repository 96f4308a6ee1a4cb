use vstd::prelude::*;

verus! {

use crate::{ArcResolution, Distance, OffsetError};
use crate::arc::{arc_points_r, circle_count_r, circle_ring_r, circle_contour, create_arc};
use crate::clip::{checked_difference_r, checked_union_r, clip_difference_checked, clip_union_checked};
use crate::edge::{Edge, inwards_normal_s, translate_r};
use crate::geometry::{
    GeometryCollection, Geometry, Line, LineString, MultiLineString, MultiPoint, MultiPolygon,
    PolyView, Polygon, close_ring,
};
use crate::scalar::{
    Coord, Real, coord_r, coord_x, coord_y, mul_r, neg_r, real_mul, x_r, y_r,
};

/// What a point's offset is: nothing for an eroding distance, else one
/// polygon whose exterior is the circle contour around the point, closed.
pub open spec fn point_offset_r(p: Coord, d: Distance, res: ArcResolution) -> Seq<PolyView> {
    if d.negative {
        Seq::<PolyView>::empty()
    } else {
        seq![
            PolyView {
                exterior: close_ring(circle_ring_r(p, d.magnitude, circle_count_r(res, d.magnitude))),
                interiors: Seq::<Seq<Coord>>::empty(),
            },
        ]
    }
}

/// The ring of a segment's stadium: the cap around the start, from the
/// outward-shifted start to the inward-shifted start, then the cap around
/// the end, from the inward-shifted end to the outward-shifted end.
pub open spec fn line_ring_r(
    l: Line,
    in_n: Coord,
    out_n: Coord,
    mag: Real,
    res: ArcResolution,
) -> Seq<Coord> {
    let in_start = translate_r(l.start, mul_r(x_r(in_n), mag), mul_r(y_r(in_n), mag));
    let in_end = translate_r(l.end, mul_r(x_r(in_n), mag), mul_r(y_r(in_n), mag));
    let out_start = translate_r(l.start, mul_r(x_r(out_n), mag), mul_r(y_r(out_n), mag));
    let out_end = translate_r(l.end, mul_r(x_r(out_n), mag), mul_r(y_r(out_n), mag));
    arc_points_r(l.start, mag, out_start, in_start, res, true) + arc_points_r(
        l.end,
        mag,
        in_end,
        out_end,
        res,
        true,
    )
}

/// What a segment's offset is under a resolution for point circles and one
/// for arcs: nothing for an eroding distance; the closed stadium ring, at
/// the arc resolution, when the segment's normals exist; the point case at
/// the start vertex, at the point resolution, when they do not, as on a
/// segment of zero length.
pub open spec fn line_offset_by_r(
    l: Line,
    d: Distance,
    point_res: ArcResolution,
    arc_res: ArcResolution,
) -> Seq<PolyView> {
    if d.negative {
        Seq::<PolyView>::empty()
    } else {
        let e = Edge { current: l.start, next: l.end };
        match inwards_normal_s(e) {
            Ok(in_n) => {
                let out_n = coord_r(neg_r(x_r(in_n)), neg_r(y_r(in_n)));
                seq![
                    PolyView {
                        exterior: close_ring(line_ring_r(l, in_n, out_n, d.magnitude, arc_res)),
                        interiors: Seq::<Seq<Coord>>::empty(),
                    },
                ]
            },
            Err(_) => point_offset_r(l.start, d, point_res),
        }
    }
}

/// What a segment's offset is under one resolution for both roles.
pub open spec fn line_offset_r(l: Line, d: Distance, res: ArcResolution) -> Seq<PolyView> {
    line_offset_by_r(l, d, res, res)
}

/// The consecutive segments of a chain of points.
pub open spec fn segments_r(pts: Seq<Coord>) -> Seq<Line> {
    Seq::new(
        if pts.len() < 2 {
            0
        } else {
            (pts.len() - 1) as nat
        },
        |i: int| Line { start: pts[i], end: pts[i + 1] },
    )
}

/// The left fold of the range-checked union over a list of fragments, in
/// order.
pub open spec fn union_reduce_r<A>(
    acc: Seq<PolyView>,
    items: Seq<A>,
    f: spec_fn(A) -> Seq<PolyView>,
) -> Seq<PolyView>
    decreases items.len(),
{
    if items.len() == 0 {
        acc
    } else {
        union_reduce_r(checked_union_r(acc, f(items[0])), items.drop_first(), f)
    }
}

proof fn lemma_union_reduce_snoc<A>(
    acc: Seq<PolyView>,
    items: Seq<A>,
    x: A,
    f: spec_fn(A) -> Seq<PolyView>,
)
    ensures
        union_reduce_r(acc, items.push(x), f) == checked_union_r(union_reduce_r(acc, items, f), f(x)),
    decreases items.len(),
{
    let pushed = items.push(x);
    if items.len() == 0 {
        assert(pushed[0] == x);
        assert(pushed.drop_first() =~= Seq::<A>::empty());
        assert(union_reduce_r(acc, pushed, f) == union_reduce_r(
            checked_union_r(acc, f(x)),
            Seq::<A>::empty(),
            f,
        ));
        assert(union_reduce_r(checked_union_r(acc, f(x)), Seq::<A>::empty(), f) == checked_union_r(acc, f(x)));
        assert(union_reduce_r(acc, items, f) == acc);
    } else {
        assert(pushed[0] == items[0]);
        assert(pushed.drop_first() =~= items.drop_first().push(x));
        assert(union_reduce_r(acc, pushed, f) == union_reduce_r(
            checked_union_r(acc, f(items[0])),
            items.drop_first().push(x),
            f,
        ));
        lemma_union_reduce_snoc(checked_union_r(acc, f(items[0])), items.drop_first(), x, f);
        assert(union_reduce_r(acc, items, f) == union_reduce_r(
            checked_union_r(acc, f(items[0])),
            items.drop_first(),
            f,
        ));
    }
}

/// The sequential reduction of the polyline builder: the first fragment,
/// with every later fragment subtracted from it through the range-checked
/// difference in order, one by one.
pub open spec fn diff_reduce_r(acc: Seq<PolyView>, holes: Seq<PolyView>) -> Seq<PolyView>
    decreases holes.len(),
{
    if holes.len() == 0 {
        acc
    } else {
        diff_reduce_r(checked_difference_r(acc, seq![holes[0]]), holes.drop_first())
    }
}

proof fn lemma_diff_reduce_snoc(acc: Seq<PolyView>, holes: Seq<PolyView>, h: PolyView)
    ensures
        diff_reduce_r(acc, holes.push(h)) == checked_difference_r(diff_reduce_r(acc, holes), seq![h]),
    decreases holes.len(),
{
    let pushed = holes.push(h);
    if holes.len() == 0 {
        assert(pushed[0] == h);
        assert(pushed.drop_first() =~= Seq::<PolyView>::empty());
        assert(diff_reduce_r(acc, pushed) == diff_reduce_r(
            checked_difference_r(acc, seq![h]),
            Seq::<PolyView>::empty(),
        ));
        assert(diff_reduce_r(checked_difference_r(acc, seq![h]), Seq::<PolyView>::empty())
            == checked_difference_r(acc, seq![h]));
        assert(diff_reduce_r(acc, holes) == acc);
    } else {
        assert(pushed[0] == holes[0]);
        assert(pushed.drop_first() =~= holes.drop_first().push(h));
        assert(diff_reduce_r(acc, pushed) == diff_reduce_r(
            checked_difference_r(acc, seq![holes[0]]),
            holes.drop_first().push(h),
        ));
        lemma_diff_reduce_snoc(checked_difference_r(acc, seq![holes[0]]), holes.drop_first(), h);
        assert(diff_reduce_r(acc, holes) == diff_reduce_r(
            checked_difference_r(acc, seq![holes[0]]),
            holes.drop_first(),
        ));
    }
}

/// What the union stage of a polyline's offset is: every segment's stadium,
/// united left to right into an initially empty set.
pub open spec fn line_string_union_r(
    pts: Seq<Coord>,
    d: Distance,
    point_res: ArcResolution,
    arc_res: ArcResolution,
) -> Seq<PolyView> {
    union_reduce_r(
        Seq::<PolyView>::empty(),
        segments_r(pts),
        |l: Line| line_offset_by_r(l, d, point_res, arc_res),
    )
}

/// What a polyline's offset is under a point and an arc resolution: nothing
/// for an eroding distance; else the united stadiums, reduced by
/// subtracting every fragment after the first from the first, in order.
pub open spec fn line_string_offset_by_r(
    pts: Seq<Coord>,
    d: Distance,
    point_res: ArcResolution,
    arc_res: ArcResolution,
) -> Seq<PolyView> {
    if d.negative {
        Seq::<PolyView>::empty()
    } else {
        let united = line_string_union_r(pts, d, point_res, arc_res);
        if united.len() == 0 {
            Seq::<PolyView>::empty()
        } else {
            diff_reduce_r(seq![united[0]], united.drop_first())
        }
    }
}

/// What a polyline's offset is under one resolution for both roles.
pub open spec fn line_string_offset_r(
    pts: Seq<Coord>,
    d: Distance,
    res: ArcResolution,
) -> Seq<PolyView> {
    line_string_offset_by_r(pts, d, res, res)
}

/// The distance with its magnitude kept and its sign made inflating, the
/// way the polygon builder hands it to its shell construction.
pub open spec fn abs_distance(d: Distance) -> Distance {
    Distance { negative: false, sign_negative: false, magnitude: d.magnitude }
}

/// What a set of polylines' offset is under a point and an arc resolution:
/// nothing for an eroding distance, else every polyline's offset united in
/// order.
pub open spec fn multi_line_string_offset_by_r(
    rings: Seq<Seq<Coord>>,
    d: Distance,
    point_res: ArcResolution,
    arc_res: ArcResolution,
) -> Seq<PolyView> {
    if d.negative {
        Seq::<PolyView>::empty()
    } else {
        union_reduce_r(
            Seq::<PolyView>::empty(),
            rings,
            |pts: Seq<Coord>| line_string_offset_by_r(pts, d, point_res, arc_res),
        )
    }
}

/// What a set of polylines' offset is under one resolution for both roles.
pub open spec fn multi_line_string_offset_r(
    rings: Seq<Seq<Coord>>,
    d: Distance,
    res: ArcResolution,
) -> Seq<PolyView> {
    multi_line_string_offset_by_r(rings, d, res, res)
}

/// What a set of points' offset is: nothing for an eroding distance, else
/// every point's circle united in order.
pub open spec fn multi_point_offset_r(pts: Seq<Coord>, d: Distance, res: ArcResolution) -> Seq<
    PolyView,
> {
    if d.negative {
        Seq::<PolyView>::empty()
    } else {
        union_reduce_r(Seq::<PolyView>::empty(), pts, |p: Coord| point_offset_r(p, d, res))
    }
}

/// What a polygon's offset is under a point and an arc resolution: all its
/// rings buffered at the distance's magnitude into a shell, which a
/// distance with a clear sign bit unites with the polygon and one with it
/// set subtracts from it, exterior shell first.
pub open spec fn polygon_offset_by_r(
    p: PolyView,
    d: Distance,
    point_res: ArcResolution,
    arc_res: ArcResolution,
) -> Seq<PolyView> {
    let shell_exterior = line_string_offset_by_r(p.exterior, abs_distance(d), point_res, arc_res);
    let shell_interiors = multi_line_string_offset_by_r(
        p.interiors,
        abs_distance(d),
        point_res,
        arc_res,
    );
    if !d.sign_negative {
        checked_union_r(checked_union_r(seq![p], shell_exterior), shell_interiors)
    } else {
        checked_difference_r(checked_difference_r(seq![p], shell_exterior), shell_interiors)
    }
}

/// What a polygon's offset is under one resolution for both roles.
pub open spec fn polygon_offset_r(p: PolyView, d: Distance, res: ArcResolution) -> Seq<PolyView> {
    polygon_offset_by_r(p, d, res, res)
}

/// What a set of polygons' offset is under a point and an arc resolution:
/// every polygon's offset united in order; the polygons read the distance's
/// sign themselves.
pub open spec fn multi_polygon_offset_by_r(
    polys: Seq<PolyView>,
    d: Distance,
    point_res: ArcResolution,
    arc_res: ArcResolution,
) -> Seq<PolyView> {
    union_reduce_r(
        Seq::<PolyView>::empty(),
        polys,
        |p: PolyView| polygon_offset_by_r(p, d, point_res, arc_res),
    )
}

/// What a set of polygons' offset is under one resolution for both roles.
pub open spec fn multi_polygon_offset_r(polys: Seq<PolyView>, d: Distance, res: ArcResolution) -> Seq<
    PolyView,
> {
    multi_polygon_offset_by_r(polys, d, res, res)
}

/// The left fold of a collection's offsets from item `i` on: each member's
/// offset united into the accumulator in order.
pub open spec fn collection_fold_r(
    acc: Seq<PolyView>,
    items: Seq<Geometry>,
    i: int,
    d: Distance,
    point_res: ArcResolution,
    arc_res: ArcResolution,
) -> Seq<PolyView>
    decreases items, items.len() - i,
{
    if i < 0 || i >= items.len() {
        acc
    } else {
        collection_fold_r(
            checked_union_r(acc, geometry_offset_by_r(items[i], d, point_res, arc_res)),
            items,
            i + 1,
            d,
            point_res,
            arc_res,
        )
    }
}

/// What a geometry's offset is, by its kind, under a resolution for point
/// circles and one for arcs: the two agree except under the segments-per-arc
/// entry points, where a point's full circle gets twice the per-arc count.
/// Triangles and rectangles are taken to polygons first.
pub open spec fn geometry_offset_by_r(
    g: Geometry,
    d: Distance,
    point_res: ArcResolution,
    arc_res: ArcResolution,
) -> Seq<PolyView>
    decreases g, 0int,
{
    match g {
        Geometry::Point(p) => point_offset_r(p, d, point_res),
        Geometry::Line(l) => line_offset_by_r(l, d, point_res, arc_res),
        Geometry::LineString(ls) => line_string_offset_by_r(ls@, d, point_res, arc_res),
        Geometry::Polygon(p) => polygon_offset_by_r(p@, d, point_res, arc_res),
        Geometry::MultiPoint(mp) => multi_point_offset_r(mp@, d, point_res),
        Geometry::MultiLineString(mls) => multi_line_string_offset_by_r(mls@, d, point_res, arc_res),
        Geometry::MultiPolygon(m) => multi_polygon_offset_by_r(m@, d, point_res, arc_res),
        Geometry::GeometryCollection(col) => collection_fold_r(
            Seq::<PolyView>::empty(),
            col.0@,
            0,
            d,
            point_res,
            arc_res,
        ),
        Geometry::Triangle(t) => polygon_offset_by_r(
            PolyView {
                exterior: close_ring(seq![t.0, t.1, t.2, t.0]),
                interiors: Seq::<Seq<Coord>>::empty(),
            },
            d,
            point_res,
            arc_res,
        ),
        Geometry::Rect(rc) => polygon_offset_by_r(
            PolyView {
                exterior: close_ring(crate::geometry::rect_ring_r(rc)),
                interiors: Seq::<Seq<Coord>>::empty(),
            },
            d,
            point_res,
            arc_res,
        ),
    }
}

/// What a geometry's offset is under one resolution for every kind.
pub open spec fn geometry_offset_r(g: Geometry, d: Distance, res: ArcResolution) -> Seq<PolyView> {
    geometry_offset_by_r(g, d, res, res)
}

/// What a collection's offset is under a point and an arc resolution: its
/// members' offsets united in order.
pub open spec fn geometry_collection_offset_by_r(
    items: Seq<Geometry>,
    d: Distance,
    point_res: ArcResolution,
    arc_res: ArcResolution,
) -> Seq<PolyView> {
    collection_fold_r(Seq::<PolyView>::empty(), items, 0, d, point_res, arc_res)
}

/// What a collection's offset is under one resolution for every kind.
pub open spec fn geometry_collection_offset_r(
    items: Seq<Geometry>,
    d: Distance,
    res: ArcResolution,
) -> Seq<PolyView> {
    geometry_collection_offset_by_r(items, d, res, res)
}

/// The offset of a bare point: a circle approximated counter-clockwise, or
/// nothing when the distance erodes.
pub fn point_offset(point: &Coord, distance: &Distance, resolution: &ArcResolution) -> (r: Result<
    MultiPolygon,
    OffsetError,
>)
    ensures
        r is Ok,
        r matches Ok(mp) && mp@ == point_offset_r(*point, *distance, *resolution),
{
    if distance.negative {
        proof {
            assert(Seq::<Polygon>::empty().map_values(|p: Polygon| p@) =~= Seq::<
                PolyView,
            >::empty());
        }
        return Ok(MultiPolygon(Vec::new()));
    }
    let contour = circle_contour(point, &distance.magnitude, resolution);
    let polygon = Polygon::new(LineString(contour), Vec::new());
    let mut polygons: Vec<Polygon> = Vec::new();
    polygons.push(polygon);
    let result = MultiPolygon(polygons);
    proof {
        assert(Seq::<LineString>::empty().map_values(|ring: LineString| close_ring(ring@)) =~= Seq::<
            Seq<Coord>,
        >::empty());
        assert(result@ =~= point_offset_r(*point, *distance, *resolution));
    }
    Ok(result)
}

/// The offset of a segment under a resolution for point circles and one for
/// arcs: both sides shifted along the normals, capped by an outward arc at
/// each end at the arc resolution; a segment without normals falls back to
/// the point case at its start, at the point resolution; an eroding
/// distance gives nothing. A segment whose endpoints are one point provably
/// takes the point case.
pub fn line_offset_by(
    line: &Line,
    distance: &Distance,
    point_resolution: &ArcResolution,
    arc_resolution: &ArcResolution,
) -> (r: Result<MultiPolygon, OffsetError>)
    ensures
        r is Ok,
        r matches Ok(mp) && mp@ == line_offset_by_r(
            *line,
            *distance,
            *point_resolution,
            *arc_resolution,
        ),
        line.start == line.end ==> (r matches Ok(mp) && mp@ == point_offset_r(
            line.start,
            *distance,
            *point_resolution,
        )),
{
    if distance.negative {
        proof {
            assert(Seq::<Polygon>::empty().map_values(|p: Polygon| p@) =~= Seq::<
                PolyView,
            >::empty());
        }
        return Ok(MultiPolygon(Vec::new()));
    }
    let v1 = line.start;
    let v2 = line.end;
    let e1 = Edge::new(&v1, &v2);
    let in_result = e1.inwards_normal();
    let out_result = e1.outwards_normal();
    match (in_result, out_result) {
        (Ok(in_normal), Ok(out_normal)) => {
            let mag = distance.magnitude;
            let edge_in = e1.with_offset(
                real_mul(&coord_x(&in_normal), &mag),
                real_mul(&coord_y(&in_normal), &mag),
            );
            let edge_out = e1.inverse_with_offset(
                real_mul(&coord_x(&out_normal), &mag),
                real_mul(&coord_y(&out_normal), &mag),
            );
            let mut vertices: Vec<Coord> = Vec::new();
            create_arc(&mut vertices, &v1, &mag, &edge_out.next, &edge_in.current, arc_resolution, true);
            create_arc(&mut vertices, &v2, &mag, &edge_in.next, &edge_out.current, arc_resolution, true);
            let polygon = Polygon::new(LineString(vertices), Vec::new());
            let mut polygons: Vec<Polygon> = Vec::new();
            polygons.push(polygon);
            let result = MultiPolygon(polygons);
            proof {
                assert(Seq::<LineString>::empty().map_values(
                    |ring: LineString| close_ring(ring@),
                ) =~= Seq::<Seq<Coord>>::empty());
                assert(result@ =~= line_offset_by_r(*line, *distance, *point_resolution, *arc_resolution));
            }
            Ok(result)
        },
        _ => point_offset(&v1, distance, point_resolution),
    }
}

/// The offset of a segment under one resolution for both roles.
pub fn line_offset(line: &Line, distance: &Distance, resolution: &ArcResolution) -> (r: Result<
    MultiPolygon,
    OffsetError,
>)
    ensures
        r is Ok,
        r matches Ok(mp) && mp@ == line_offset_r(*line, *distance, *resolution),
        line.start == line.end ==> (r matches Ok(mp) && mp@ == point_offset_r(
            line.start,
            *distance,
            *resolution,
        )),
{
    line_offset_by(line, distance, resolution, resolution)
}

/// The offset of an open polyline under a point and an arc resolution: a
/// stadium for every consecutive vertex pair, united in order, then reduced
/// by the sequential subtraction the composition protocol prescribes; an
/// eroding distance gives nothing.
pub fn line_string_offset_by(
    line_string: &LineString,
    distance: &Distance,
    point_resolution: &ArcResolution,
    arc_resolution: &ArcResolution,
) -> (r: Result<MultiPolygon, OffsetError>)
    ensures
        r is Ok,
        r matches Ok(mp) && mp@ == line_string_offset_by_r(
            line_string@,
            *distance,
            *point_resolution,
            *arc_resolution,
        ),
{
    if distance.negative {
        proof {
            assert(Seq::<Polygon>::empty().map_values(|p: Polygon| p@) =~= Seq::<
                PolyView,
            >::empty());
        }
        return Ok(MultiPolygon(Vec::new()));
    }
    let ghost stadium = |l: Line| line_offset_by_r(l, *distance, *point_resolution, *arc_resolution);
    let mut acc = MultiPolygon(Vec::new());
    proof {
        assert(acc@ =~= Seq::<PolyView>::empty());
    }
    let n = line_string.0.len();
    if n >= 2 {
        let mut i: usize = 0;
        while i < n - 1
            invariant
                n == line_string.0.len(),
                n >= 2,
                i <= n - 1,
                acc@ == union_reduce_r(
                    Seq::<PolyView>::empty(),
                    segments_r(line_string@).take(i as int),
                    stadium,
                ),
                stadium == (|l: Line| line_offset_by_r(l, *distance, *point_resolution, *arc_resolution)),
            decreases n - 1 - i,
        {
            let segment = Line { start: line_string.0[i], end: line_string.0[i + 1] };
            let fragment = match line_offset_by(&segment, distance, point_resolution, arc_resolution) {
                Ok(mp) => mp,
                Err(e) => {
                    return Err(e);
                },
            };
            let united = clip_union_checked(&acc, &fragment);
            proof {
                let segs = segments_r(line_string@);
                assert(segs.take(i + 1 as int) =~= segs.take(i as int).push(segs[i as int]));
                lemma_union_reduce_snoc(
                    Seq::<PolyView>::empty(),
                    segs.take(i as int),
                    segs[i as int],
                    stadium,
                );
                assert(segment == segs[i as int]);
            }
            acc = united;
            i += 1;
        }
        proof {
            assert(segments_r(line_string@).take(n - 1 as int) =~= segments_r(line_string@));
        }
    } else {
        proof {
            assert(segments_r(line_string@) =~= Seq::<Line>::empty());
        }
    }
    // The ordered reduction: the first united fragment, minus each of the
    // later ones in turn.
    if acc.0.len() == 0 {
        proof {
            assert(acc@.len() == 0);
            assert(Seq::<Polygon>::empty().map_values(|p: Polygon| p@) =~= Seq::<
                PolyView,
            >::empty());
        }
        return Ok(MultiPolygon(Vec::new()));
    }
    let mut base_polygons: Vec<Polygon> = Vec::new();
    base_polygons.push(acc.0[0].duplicate());
    let mut base = MultiPolygon(base_polygons);
    proof {
        assert(base@ =~= seq![acc@[0]]);
    }
    let count = acc.0.len();
    let mut j: usize = 1;
    while j < count
        invariant
            count == acc.0.len(),
            1 <= j <= count,
            base@ == diff_reduce_r(seq![acc@[0]], acc@.subrange(1, j as int)),
        decreases count - j,
    {
        let mut hole_polygons: Vec<Polygon> = Vec::new();
        hole_polygons.push(acc.0[j].duplicate());
        let hole = MultiPolygon(hole_polygons);
        proof {
            assert(hole@ =~= seq![acc@[j as int]]);
        }
        let reduced = clip_difference_checked(&base, &hole);
        proof {
            assert(acc@.subrange(1, j + 1 as int) =~= acc@.subrange(1, j as int).push(
                acc@[j as int],
            ));
            lemma_diff_reduce_snoc(seq![acc@[0]], acc@.subrange(1, j as int), acc@[j as int]);
        }
        base = reduced;
        j += 1;
    }
    proof {
        assert(acc@.subrange(1, count as int) =~= acc@.drop_first());
        assert(base@ == line_string_offset_by_r(
            line_string@,
            *distance,
            *point_resolution,
            *arc_resolution,
        ));
    }
    Ok(base)
}

} // verus!

verus! {

use crate::geometry::rect_ring_r;

/// The offset of an open polyline under one resolution for both roles.
pub fn line_string_offset(
    line_string: &LineString,
    distance: &Distance,
    resolution: &ArcResolution,
) -> (r: Result<MultiPolygon, OffsetError>)
    ensures
        r is Ok,
        r matches Ok(mp) && mp@ == line_string_offset_r(line_string@, *distance, *resolution),
{
    line_string_offset_by(line_string, distance, resolution, resolution)
}

/// The union stage shared by the polyline-set builders: every chain's
/// offset, united left to right into an initially empty set.
pub fn rings_union_offset(
    rings: &Vec<LineString>,
    distance: &Distance,
    point_resolution: &ArcResolution,
    arc_resolution: &ArcResolution,
) -> (r: Result<MultiPolygon, OffsetError>)
    ensures
        r is Ok,
        r matches Ok(mp) && mp@ == union_reduce_r(
            Seq::<PolyView>::empty(),
            rings@.map_values(|ls: LineString| ls@),
            |pts: Seq<Coord>| line_string_offset_by_r(
                pts,
                *distance,
                *point_resolution,
                *arc_resolution,
            ),
        ),
{
    let ghost items = rings@.map_values(|ls: LineString| ls@);
    let ghost f = |pts: Seq<Coord>| line_string_offset_by_r(
        pts,
        *distance,
        *point_resolution,
        *arc_resolution,
    );
    let mut acc = MultiPolygon(Vec::new());
    proof {
        assert(acc@ =~= Seq::<PolyView>::empty());
        assert(items.skip(0) =~= items);
    }
    let mut i: usize = 0;
    while i < rings.len()
        invariant
            i <= rings.len(),
            items == rings@.map_values(|ls: LineString| ls@),
            f == (|pts: Seq<Coord>| line_string_offset_by_r(
                pts,
                *distance,
                *point_resolution,
                *arc_resolution,
            )),
            union_reduce_r(acc@, items.skip(i as int), f) == union_reduce_r(
                Seq::<PolyView>::empty(),
                items,
                f,
            ),
        decreases rings.len() - i,
    {
        let fragment = match line_string_offset_by(
            &rings[i],
            distance,
            point_resolution,
            arc_resolution,
        ) {
            Ok(mp) => mp,
            Err(e) => {
                return Err(e);
            },
        };
        let united = clip_union_checked(&acc, &fragment);
        proof {
            let rest = items.skip(i as int);
            assert(rest[0] == items[i as int]);
            assert(rest.drop_first() =~= items.skip(i + 1));
            assert(union_reduce_r(acc@, rest, f) == union_reduce_r(
                checked_union_r(acc@, f(rest[0])),
                rest.drop_first(),
                f,
            ));
            assert(fragment@ == f(items[i as int]));
        }
        acc = united;
        i += 1;
    }
    proof {
        assert(items.skip(rings@.len() as int) =~= Seq::<Seq<Coord>>::empty());
        assert(union_reduce_r(acc@, Seq::<Seq<Coord>>::empty(), f) == acc@);
    }
    Ok(acc)
}

/// The offset of a set of polylines under a point and an arc resolution:
/// each buffered and united in order; an eroding distance gives nothing.
pub fn multi_line_string_offset_by(
    multi_line_string: &MultiLineString,
    distance: &Distance,
    point_resolution: &ArcResolution,
    arc_resolution: &ArcResolution,
) -> (r: Result<MultiPolygon, OffsetError>)
    ensures
        r is Ok,
        r matches Ok(mp) && mp@ == multi_line_string_offset_by_r(
            multi_line_string@,
            *distance,
            *point_resolution,
            *arc_resolution,
        ),
{
    if distance.negative {
        proof {
            assert(Seq::<Polygon>::empty().map_values(|p: Polygon| p@) =~= Seq::<
                PolyView,
            >::empty());
        }
        return Ok(MultiPolygon(Vec::new()));
    }
    rings_union_offset(&multi_line_string.0, distance, point_resolution, arc_resolution)
}

/// The offset of a set of polylines under one resolution for both roles.
pub fn multi_line_string_offset(
    multi_line_string: &MultiLineString,
    distance: &Distance,
    resolution: &ArcResolution,
) -> (r: Result<MultiPolygon, OffsetError>)
    ensures
        r is Ok,
        r matches Ok(mp) && mp@ == multi_line_string_offset_r(
            multi_line_string@,
            *distance,
            *resolution,
        ),
{
    multi_line_string_offset_by(multi_line_string, distance, resolution, resolution)
}

/// The offset of a set of points: each circle united in order; an eroding
/// distance gives nothing.
pub fn multi_point_offset(
    multi_point: &MultiPoint,
    distance: &Distance,
    resolution: &ArcResolution,
) -> (r: Result<MultiPolygon, OffsetError>)
    ensures
        r is Ok,
        r matches Ok(mp) && mp@ == multi_point_offset_r(multi_point@, *distance, *resolution),
{
    if distance.negative {
        proof {
            assert(Seq::<Polygon>::empty().map_values(|p: Polygon| p@) =~= Seq::<
                PolyView,
            >::empty());
        }
        return Ok(MultiPolygon(Vec::new()));
    }
    let ghost items = multi_point.0@;
    let ghost f = |p: Coord| point_offset_r(p, *distance, *resolution);
    let mut acc = MultiPolygon(Vec::new());
    proof {
        assert(acc@ =~= Seq::<PolyView>::empty());
        assert(items.skip(0) =~= items);
    }
    let mut i: usize = 0;
    while i < multi_point.0.len()
        invariant
            i <= multi_point.0.len(),
            items == multi_point.0@,
            f == (|p: Coord| point_offset_r(p, *distance, *resolution)),
            union_reduce_r(acc@, items.skip(i as int), f) == union_reduce_r(
                Seq::<PolyView>::empty(),
                items,
                f,
            ),
        decreases multi_point.0.len() - i,
    {
        let fragment = match point_offset(&multi_point.0[i], distance, resolution) {
            Ok(mp) => mp,
            Err(e) => {
                return Err(e);
            },
        };
        let united = clip_union_checked(&acc, &fragment);
        proof {
            let rest = items.skip(i as int);
            assert(rest[0] == items[i as int]);
            assert(rest.drop_first() =~= items.skip(i + 1));
            assert(union_reduce_r(acc@, rest, f) == union_reduce_r(
                checked_union_r(acc@, f(rest[0])),
                rest.drop_first(),
                f,
            ));
        }
        acc = united;
        i += 1;
    }
    proof {
        assert(items.skip(multi_point.0@.len() as int) =~= Seq::<Coord>::empty());
        assert(union_reduce_r(acc@, Seq::<Coord>::empty(), f) == acc@);
    }
    Ok(acc)
}

/// The offset of a polygon under a point and an arc resolution: every ring
/// buffered at the magnitude into a shell; an inflating distance unites the
/// shells with the polygon, an eroding one subtracts them from it, exterior
/// shell first.
pub fn polygon_offset_by(
    polygon: &Polygon,
    distance: &Distance,
    point_resolution: &ArcResolution,
    arc_resolution: &ArcResolution,
) -> (r: Result<MultiPolygon, OffsetError>)
    ensures
        r is Ok,
        r matches Ok(mp) && mp@ == polygon_offset_by_r(
            polygon@,
            *distance,
            *point_resolution,
            *arc_resolution,
        ),
{
    let abs_d = Distance { negative: false, sign_negative: false, magnitude: distance.magnitude };
    let shell_exterior = match line_string_offset_by(
        polygon.exterior(),
        &abs_d,
        point_resolution,
        arc_resolution,
    ) {
        Ok(mp) => mp,
        Err(e) => {
            return Err(e);
        },
    };
    let shell_interiors = match rings_union_offset(
        polygon.interiors(),
        &abs_d,
        point_resolution,
        arc_resolution,
    ) {
        Ok(mp) => mp,
        Err(e) => {
            return Err(e);
        },
    };
    let mut self_polygons: Vec<Polygon> = Vec::new();
    self_polygons.push(polygon.duplicate());
    let self_mp = MultiPolygon(self_polygons);
    proof {
        assert(self_mp@ =~= seq![polygon@]);
        assert(shell_interiors@ == multi_line_string_offset_by_r(
            polygon@.interiors,
            abs_distance(*distance),
            *point_resolution,
            *arc_resolution,
        ));
    }
    if !distance.sign_negative {
        Ok(clip_union_checked(&clip_union_checked(&self_mp, &shell_exterior), &shell_interiors))
    } else {
        Ok(clip_difference_checked(&clip_difference_checked(&self_mp, &shell_exterior), &shell_interiors))
    }
}

/// The offset of a polygon under one resolution for both roles.
pub fn polygon_offset(polygon: &Polygon, distance: &Distance, resolution: &ArcResolution) -> (r:
    Result<MultiPolygon, OffsetError>)
    ensures
        r is Ok,
        r matches Ok(mp) && mp@ == polygon_offset_r(polygon@, *distance, *resolution),
{
    polygon_offset_by(polygon, distance, resolution, resolution)
}

/// The offset of a set of polygons under a point and an arc resolution:
/// each polygon's offset united in order; the sign handling is the
/// polygons' own.
pub fn multi_polygon_offset_by(
    multi_polygon: &MultiPolygon,
    distance: &Distance,
    point_resolution: &ArcResolution,
    arc_resolution: &ArcResolution,
) -> (r: Result<MultiPolygon, OffsetError>)
    ensures
        r is Ok,
        r matches Ok(mp) && mp@ == multi_polygon_offset_by_r(
            multi_polygon@,
            *distance,
            *point_resolution,
            *arc_resolution,
        ),
{
    let ghost items = multi_polygon@;
    let ghost f = |p: PolyView| polygon_offset_by_r(
        p,
        *distance,
        *point_resolution,
        *arc_resolution,
    );
    let mut acc = MultiPolygon(Vec::new());
    proof {
        assert(acc@ =~= Seq::<PolyView>::empty());
        assert(items.skip(0) =~= items);
    }
    let mut i: usize = 0;
    while i < multi_polygon.0.len()
        invariant
            i <= multi_polygon.0.len(),
            items == multi_polygon@,
            f == (|p: PolyView| polygon_offset_by_r(
                p,
                *distance,
                *point_resolution,
                *arc_resolution,
            )),
            union_reduce_r(acc@, items.skip(i as int), f) == union_reduce_r(
                Seq::<PolyView>::empty(),
                items,
                f,
            ),
        decreases multi_polygon.0.len() - i,
    {
        let fragment = match polygon_offset_by(
            &multi_polygon.0[i],
            distance,
            point_resolution,
            arc_resolution,
        ) {
            Ok(mp) => mp,
            Err(e) => {
                return Err(e);
            },
        };
        let united = clip_union_checked(&acc, &fragment);
        proof {
            let rest = items.skip(i as int);
            assert(rest[0] == items[i as int]);
            assert(rest.drop_first() =~= items.skip(i + 1));
            assert(union_reduce_r(acc@, rest, f) == union_reduce_r(
                checked_union_r(acc@, f(rest[0])),
                rest.drop_first(),
                f,
            ));
            assert(fragment@ == f(items[i as int]));
        }
        acc = united;
        i += 1;
    }
    proof {
        assert(items.skip(multi_polygon@.len() as int) =~= Seq::<PolyView>::empty());
        assert(union_reduce_r(acc@, Seq::<PolyView>::empty(), f) == acc@);
    }
    Ok(acc)
}

/// The offset of a set of polygons under one resolution for both roles.
pub fn multi_polygon_offset(
    multi_polygon: &MultiPolygon,
    distance: &Distance,
    resolution: &ArcResolution,
) -> (r: Result<MultiPolygon, OffsetError>)
    ensures
        r is Ok,
        r matches Ok(mp) && mp@ == multi_polygon_offset_r(multi_polygon@, *distance, *resolution),
{
    multi_polygon_offset_by(multi_polygon, distance, resolution, resolution)
}

/// The offset of a geometry, by its kind, under a resolution for point
/// circles and one for arcs; triangles and rectangles go through their
/// polygon form.
pub fn geometry_offset_by(
    geometry: &Geometry,
    distance: &Distance,
    point_resolution: &ArcResolution,
    arc_resolution: &ArcResolution,
) -> (r: Result<MultiPolygon, OffsetError>)
    ensures
        r is Ok,
        r matches Ok(mp) && mp@ == geometry_offset_by_r(
            *geometry,
            *distance,
            *point_resolution,
            *arc_resolution,
        ),
    decreases *geometry, 0int,
{
    match geometry {
        Geometry::Point(p) => point_offset(p, distance, point_resolution),
        Geometry::Line(l) => line_offset_by(l, distance, point_resolution, arc_resolution),
        Geometry::LineString(ls) => line_string_offset_by(
            ls,
            distance,
            point_resolution,
            arc_resolution,
        ),
        Geometry::Polygon(p) => polygon_offset_by(p, distance, point_resolution, arc_resolution),
        Geometry::MultiPoint(mp) => multi_point_offset(mp, distance, point_resolution),
        Geometry::MultiLineString(mls) => multi_line_string_offset_by(
            mls,
            distance,
            point_resolution,
            arc_resolution,
        ),
        Geometry::MultiPolygon(m) => multi_polygon_offset_by(
            m,
            distance,
            point_resolution,
            arc_resolution,
        ),
        Geometry::GeometryCollection(col) => geometry_collection_offset_by(
            col,
            distance,
            point_resolution,
            arc_resolution,
        ),
        Geometry::Triangle(t) => {
            let polygon = t.to_polygon();
            let result = polygon_offset_by(&polygon, distance, point_resolution, arc_resolution);
            proof {
                assert(polygon@ == PolyView {
                    exterior: close_ring(seq![t.0, t.1, t.2, t.0]),
                    interiors: Seq::<Seq<Coord>>::empty(),
                });
            }
            result
        },
        Geometry::Rect(rc) => {
            let polygon = rc.to_polygon();
            let result = polygon_offset_by(&polygon, distance, point_resolution, arc_resolution);
            proof {
                assert(polygon@ == PolyView {
                    exterior: close_ring(rect_ring_r(*rc)),
                    interiors: Seq::<Seq<Coord>>::empty(),
                });
            }
            result
        },
    }
}

/// The offset of a geometry under one resolution for every kind.
pub fn geometry_offset(geometry: &Geometry, distance: &Distance, resolution: &ArcResolution) -> (r:
    Result<MultiPolygon, OffsetError>)
    ensures
        r is Ok,
        r matches Ok(mp) && mp@ == geometry_offset_r(*geometry, *distance, *resolution),
{
    geometry_offset_by(geometry, distance, resolution, resolution)
}

/// The offset of a collection under a point and an arc resolution: each
/// member's offset united in order, recursing into nested collections.
pub fn geometry_collection_offset_by(
    collection: &GeometryCollection,
    distance: &Distance,
    point_resolution: &ArcResolution,
    arc_resolution: &ArcResolution,
) -> (r: Result<MultiPolygon, OffsetError>)
    ensures
        r is Ok,
        r matches Ok(mp) && mp@ == geometry_collection_offset_by_r(
            collection.0@,
            *distance,
            *point_resolution,
            *arc_resolution,
        ),
    decreases *collection, 1int,
{
    let ghost items = collection.0@;
    let mut acc = MultiPolygon(Vec::new());
    proof {
        assert(acc@ =~= Seq::<PolyView>::empty());
    }
    let mut i: usize = 0;
    while i < collection.0.len()
        invariant
            i <= collection.0.len(),
            items == collection.0@,
            collection_fold_r(acc@, items, i as int, *distance, *point_resolution, *arc_resolution)
                == collection_fold_r(
                Seq::<PolyView>::empty(),
                items,
                0,
                *distance,
                *point_resolution,
                *arc_resolution,
            ),
        decreases collection.0.len() - i,
    {
        let fragment = match geometry_offset_by(
            &collection.0[i],
            distance,
            point_resolution,
            arc_resolution,
        ) {
            Ok(mp) => mp,
            Err(e) => {
                return Err(e);
            },
        };
        let united = clip_union_checked(&acc, &fragment);
        proof {
            assert(collection_fold_r(
                acc@,
                items,
                i as int,
                *distance,
                *point_resolution,
                *arc_resolution,
            ) == collection_fold_r(
                checked_union_r(
                    acc@,
                    geometry_offset_by_r(
                        items[i as int],
                        *distance,
                        *point_resolution,
                        *arc_resolution,
                    ),
                ),
                items,
                i + 1,
                *distance,
                *point_resolution,
                *arc_resolution,
            ));
        }
        acc = united;
        i += 1;
    }
    proof {
        assert(collection_fold_r(
            acc@,
            items,
            items.len() as int,
            *distance,
            *point_resolution,
            *arc_resolution,
        ) == acc@);
    }
    Ok(acc)
}

/// The offset of a collection under one resolution for every kind.
pub fn geometry_collection_offset(
    collection: &GeometryCollection,
    distance: &Distance,
    resolution: &ArcResolution,
) -> (r: Result<MultiPolygon, OffsetError>)
    ensures
        r is Ok,
        r matches Ok(mp) && mp@ == geometry_collection_offset_r(
            collection.0@,
            *distance,
            *resolution,
        ),
{
    geometry_collection_offset_by(collection, distance, resolution, resolution)
}

} // verus!

verus! {

use crate::DEFAULT_ARC_SEGMENTS;

/// The arc count a segments-per-arc request stands for: twice the requested
/// count plus one, so that a full circle built of two caps keeps an odd
/// vertex count; clamped to the machine's range.
pub open spec fn per_arc_count_s(n: u32) -> usize {
    if 2 * (n as int) + 1 > usize::MAX as int {
        usize::MAX
    } else {
        (2 * (n as int) + 1) as usize
    }
}

/// The resolution a segments-per-arc request stands for.
pub open spec fn per_arc_resolution_s(n: u32) -> ArcResolution {
    ArcResolution::SegmentCount(per_arc_count_s(n))
}

/// The circle resolution of `offset`, from the default segments-per-arc
/// count.
pub open spec fn default_point_resolution_s() -> ArcResolution {
    per_arc_resolution_s(DEFAULT_ARC_SEGMENTS)
}

/// The arc resolution a segments-per-arc request hands the arc builders:
/// the count itself, as the arc generator takes it.
pub open spec fn segments_resolution_s(n: u32) -> ArcResolution {
    ArcResolution::SegmentCount(n as usize)
}

/// The arc resolution of `offset` for the arc builders.
pub open spec fn default_segments_resolution_s() -> ArcResolution {
    segments_resolution_s(DEFAULT_ARC_SEGMENTS)
}

pub fn per_arc_resolution(arc_segments: u32) -> (r: ArcResolution)
    ensures
        r == per_arc_resolution_s(arc_segments),
{
    let doubled: u64 = (arc_segments as u64) * 2 + 1;
    let count: usize = if doubled > usize::MAX as u64 {
        usize::MAX
    } else {
        doubled as usize
    };
    ArcResolution::SegmentCount(count)
}

pub fn segments_resolution(arc_segments: u32) -> (r: ArcResolution)
    ensures
        r == segments_resolution_s(arc_segments),
{
    ArcResolution::SegmentCount(arc_segments as usize)
}

/// Offsetting, implemented for every shape kind: inflating a shape by a
/// positive distance, eroding an area by a negative one.
pub trait Offset {
    /// Offsets with the default resolution.
    fn offset(&self, distance: &Distance) -> Result<MultiPolygon, OffsetError>;

    /// Offsets with a resolution given as a segment count per arc.
    fn offset_with_arc_segments(&self, distance: &Distance, arc_segments: u32) -> Result<
        MultiPolygon,
        OffsetError,
    >;

    /// Offsets with the given arc resolution.
    fn offset_with_arc_resolution(&self, distance: &Distance, resolution: &ArcResolution) -> Result<
        MultiPolygon,
        OffsetError,
    >;
}

impl Offset for Coord {
    fn offset(&self, distance: &Distance) -> (r: Result<MultiPolygon, OffsetError>)
        ensures
            r is Ok,
            r matches Ok(mp) && mp@ == point_offset_r(*self, *distance, default_point_resolution_s()),
    {
        self.offset_with_arc_segments(distance, DEFAULT_ARC_SEGMENTS)
    }

    fn offset_with_arc_segments(&self, distance: &Distance, arc_segments: u32) -> (r: Result<
        MultiPolygon,
        OffsetError,
    >)
        ensures
            r is Ok,
            r matches Ok(mp) && mp@ == point_offset_r(
                *self,
                *distance,
                per_arc_resolution_s(arc_segments),
            ),
    {
        point_offset(self, distance, &per_arc_resolution(arc_segments))
    }

    fn offset_with_arc_resolution(&self, distance: &Distance, resolution: &ArcResolution) -> (r:
        Result<MultiPolygon, OffsetError>)
        ensures
            r is Ok,
            r matches Ok(mp) && mp@ == point_offset_r(*self, *distance, *resolution),
    {
        point_offset(self, distance, resolution)
    }
}

impl Offset for Line {
    fn offset(&self, distance: &Distance) -> (r: Result<MultiPolygon, OffsetError>)
        ensures
            r is Ok,
            r matches Ok(mp) && mp@ == line_offset_by_r(
                *self,
                *distance,
                default_point_resolution_s(),
                default_segments_resolution_s(),
            ),
            self.start == self.end ==> (r matches Ok(mp) && mp@ == point_offset_r(
                self.start,
                *distance,
                default_point_resolution_s(),
            )),
    {
        self.offset_with_arc_segments(distance, DEFAULT_ARC_SEGMENTS)
    }

    fn offset_with_arc_segments(&self, distance: &Distance, arc_segments: u32) -> (r: Result<
        MultiPolygon,
        OffsetError,
    >)
        ensures
            r is Ok,
            r matches Ok(mp) && mp@ == line_offset_by_r(
                *self,
                *distance,
                per_arc_resolution_s(arc_segments),
                segments_resolution_s(arc_segments),
            ),
            self.start == self.end ==> (r matches Ok(mp) && mp@ == point_offset_r(
                self.start,
                *distance,
                per_arc_resolution_s(arc_segments),
            )),
    {
        line_offset_by(
            self,
            distance,
            &per_arc_resolution(arc_segments),
            &segments_resolution(arc_segments),
        )
    }

    fn offset_with_arc_resolution(&self, distance: &Distance, resolution: &ArcResolution) -> (r:
        Result<MultiPolygon, OffsetError>)
        ensures
            r is Ok,
            r matches Ok(mp) && mp@ == line_offset_r(*self, *distance, *resolution),
            self.start == self.end ==> (r matches Ok(mp) && mp@ == point_offset_r(
                self.start,
                *distance,
                *resolution,
            )),
    {
        line_offset(self, distance, resolution)
    }
}

impl Offset for LineString {
    fn offset(&self, distance: &Distance) -> (r: Result<MultiPolygon, OffsetError>)
        ensures
            r is Ok,
            r matches Ok(mp) && mp@ == line_string_offset_by_r(
                self@,
                *distance,
                default_point_resolution_s(),
                default_segments_resolution_s(),
            ),
    {
        self.offset_with_arc_segments(distance, DEFAULT_ARC_SEGMENTS)
    }

    fn offset_with_arc_segments(&self, distance: &Distance, arc_segments: u32) -> (r: Result<
        MultiPolygon,
        OffsetError,
    >)
        ensures
            r is Ok,
            r matches Ok(mp) && mp@ == line_string_offset_by_r(
                self@,
                *distance,
                per_arc_resolution_s(arc_segments),
                segments_resolution_s(arc_segments),
            ),
    {
        line_string_offset_by(
            self,
            distance,
            &per_arc_resolution(arc_segments),
            &segments_resolution(arc_segments),
        )
    }

    fn offset_with_arc_resolution(&self, distance: &Distance, resolution: &ArcResolution) -> (r:
        Result<MultiPolygon, OffsetError>)
        ensures
            r is Ok,
            r matches Ok(mp) && mp@ == line_string_offset_r(self@, *distance, *resolution),
    {
        line_string_offset(self, distance, resolution)
    }
}

impl Offset for MultiLineString {
    fn offset(&self, distance: &Distance) -> (r: Result<MultiPolygon, OffsetError>)
        ensures
            r is Ok,
            r matches Ok(mp) && mp@ == multi_line_string_offset_by_r(
                self@,
                *distance,
                default_point_resolution_s(),
                default_segments_resolution_s(),
            ),
    {
        self.offset_with_arc_segments(distance, DEFAULT_ARC_SEGMENTS)
    }

    fn offset_with_arc_segments(&self, distance: &Distance, arc_segments: u32) -> (r: Result<
        MultiPolygon,
        OffsetError,
    >)
        ensures
            r is Ok,
            r matches Ok(mp) && mp@ == multi_line_string_offset_by_r(
                self@,
                *distance,
                per_arc_resolution_s(arc_segments),
                segments_resolution_s(arc_segments),
            ),
    {
        multi_line_string_offset_by(
            self,
            distance,
            &per_arc_resolution(arc_segments),
            &segments_resolution(arc_segments),
        )
    }

    fn offset_with_arc_resolution(&self, distance: &Distance, resolution: &ArcResolution) -> (r:
        Result<MultiPolygon, OffsetError>)
        ensures
            r is Ok,
            r matches Ok(mp) && mp@ == multi_line_string_offset_r(self@, *distance, *resolution),
    {
        multi_line_string_offset(self, distance, resolution)
    }
}

impl Offset for MultiPoint {
    fn offset(&self, distance: &Distance) -> (r: Result<MultiPolygon, OffsetError>)
        ensures
            r is Ok,
            r matches Ok(mp) && mp@ == multi_point_offset_r(
                self@,
                *distance,
                default_point_resolution_s(),
            ),
    {
        self.offset_with_arc_segments(distance, DEFAULT_ARC_SEGMENTS)
    }

    fn offset_with_arc_segments(&self, distance: &Distance, arc_segments: u32) -> (r: Result<
        MultiPolygon,
        OffsetError,
    >)
        ensures
            r is Ok,
            r matches Ok(mp) && mp@ == multi_point_offset_r(
                self@,
                *distance,
                per_arc_resolution_s(arc_segments),
            ),
    {
        multi_point_offset(self, distance, &per_arc_resolution(arc_segments))
    }

    fn offset_with_arc_resolution(&self, distance: &Distance, resolution: &ArcResolution) -> (r:
        Result<MultiPolygon, OffsetError>)
        ensures
            r is Ok,
            r matches Ok(mp) && mp@ == multi_point_offset_r(self@, *distance, *resolution),
    {
        multi_point_offset(self, distance, resolution)
    }
}

impl Offset for Polygon {
    fn offset(&self, distance: &Distance) -> (r: Result<MultiPolygon, OffsetError>)
        ensures
            r is Ok,
            r matches Ok(mp) && mp@ == polygon_offset_by_r(
                self@,
                *distance,
                default_point_resolution_s(),
                default_segments_resolution_s(),
            ),
    {
        self.offset_with_arc_segments(distance, DEFAULT_ARC_SEGMENTS)
    }

    fn offset_with_arc_segments(&self, distance: &Distance, arc_segments: u32) -> (r: Result<
        MultiPolygon,
        OffsetError,
    >)
        ensures
            r is Ok,
            r matches Ok(mp) && mp@ == polygon_offset_by_r(
                self@,
                *distance,
                per_arc_resolution_s(arc_segments),
                segments_resolution_s(arc_segments),
            ),
    {
        polygon_offset_by(
            self,
            distance,
            &per_arc_resolution(arc_segments),
            &segments_resolution(arc_segments),
        )
    }

    fn offset_with_arc_resolution(&self, distance: &Distance, resolution: &ArcResolution) -> (r:
        Result<MultiPolygon, OffsetError>)
        ensures
            r is Ok,
            r matches Ok(mp) && mp@ == polygon_offset_r(self@, *distance, *resolution),
    {
        polygon_offset(self, distance, resolution)
    }
}

impl Offset for MultiPolygon {
    fn offset(&self, distance: &Distance) -> (r: Result<MultiPolygon, OffsetError>)
        ensures
            r is Ok,
            r matches Ok(mp) && mp@ == multi_polygon_offset_by_r(
                self@,
                *distance,
                default_point_resolution_s(),
                default_segments_resolution_s(),
            ),
    {
        self.offset_with_arc_segments(distance, DEFAULT_ARC_SEGMENTS)
    }

    fn offset_with_arc_segments(&self, distance: &Distance, arc_segments: u32) -> (r: Result<
        MultiPolygon,
        OffsetError,
    >)
        ensures
            r is Ok,
            r matches Ok(mp) && mp@ == multi_polygon_offset_by_r(
                self@,
                *distance,
                per_arc_resolution_s(arc_segments),
                segments_resolution_s(arc_segments),
            ),
    {
        multi_polygon_offset_by(
            self,
            distance,
            &per_arc_resolution(arc_segments),
            &segments_resolution(arc_segments),
        )
    }

    fn offset_with_arc_resolution(&self, distance: &Distance, resolution: &ArcResolution) -> (r:
        Result<MultiPolygon, OffsetError>)
        ensures
            r is Ok,
            r matches Ok(mp) && mp@ == multi_polygon_offset_r(self@, *distance, *resolution),
    {
        multi_polygon_offset(self, distance, resolution)
    }
}

impl Offset for Geometry {
    fn offset(&self, distance: &Distance) -> (r: Result<MultiPolygon, OffsetError>)
        ensures
            r is Ok,
            r matches Ok(mp) && mp@ == geometry_offset_by_r(
                *self,
                *distance,
                default_point_resolution_s(),
                default_segments_resolution_s(),
            ),
    {
        self.offset_with_arc_segments(distance, DEFAULT_ARC_SEGMENTS)
    }

    fn offset_with_arc_segments(&self, distance: &Distance, arc_segments: u32) -> (r: Result<
        MultiPolygon,
        OffsetError,
    >)
        ensures
            r is Ok,
            r matches Ok(mp) && mp@ == geometry_offset_by_r(
                *self,
                *distance,
                per_arc_resolution_s(arc_segments),
                segments_resolution_s(arc_segments),
            ),
    {
        geometry_offset_by(
            self,
            distance,
            &per_arc_resolution(arc_segments),
            &segments_resolution(arc_segments),
        )
    }

    fn offset_with_arc_resolution(&self, distance: &Distance, resolution: &ArcResolution) -> (r:
        Result<MultiPolygon, OffsetError>)
        ensures
            r is Ok,
            r matches Ok(mp) && mp@ == geometry_offset_r(*self, *distance, *resolution),
    {
        geometry_offset(self, distance, resolution)
    }
}

impl Offset for GeometryCollection {
    fn offset(&self, distance: &Distance) -> (r: Result<MultiPolygon, OffsetError>)
        ensures
            r is Ok,
            r matches Ok(mp) && mp@ == geometry_collection_offset_by_r(
                self.0@,
                *distance,
                default_point_resolution_s(),
                default_segments_resolution_s(),
            ),
    {
        self.offset_with_arc_segments(distance, DEFAULT_ARC_SEGMENTS)
    }

    fn offset_with_arc_segments(&self, distance: &Distance, arc_segments: u32) -> (r: Result<
        MultiPolygon,
        OffsetError,
    >)
        ensures
            r is Ok,
            r matches Ok(mp) && mp@ == geometry_collection_offset_by_r(
                self.0@,
                *distance,
                per_arc_resolution_s(arc_segments),
                segments_resolution_s(arc_segments),
            ),
    {
        geometry_collection_offset_by(
            self,
            distance,
            &per_arc_resolution(arc_segments),
            &segments_resolution(arc_segments),
        )
    }

    fn offset_with_arc_resolution(&self, distance: &Distance, resolution: &ArcResolution) -> (r:
        Result<MultiPolygon, OffsetError>)
        ensures
            r is Ok,
            r matches Ok(mp) && mp@ == geometry_collection_offset_r(
                self.0@,
                *distance,
                *resolution,
            ),
    {
        geometry_collection_offset(self, distance, resolution)
    }
}

} // verus!

verus! {

/// An eroding distance yields an empty result on every shape without
/// interior area: a bare point, a segment, a polyline, and their sets.
pub proof fn lemma_negative_distance_empty(
    p: Coord,
    l: Line,
    pts: Seq<Coord>,
    points: Seq<Coord>,
    rings: Seq<Seq<Coord>>,
    d: Distance,
    point_res: ArcResolution,
    arc_res: ArcResolution,
)
    requires
        d.negative,
    ensures
        point_offset_r(p, d, point_res) == Seq::<PolyView>::empty(),
        line_offset_by_r(l, d, point_res, arc_res) == Seq::<PolyView>::empty(),
        line_string_offset_by_r(pts, d, point_res, arc_res) == Seq::<PolyView>::empty(),
        multi_point_offset_r(points, d, point_res) == Seq::<PolyView>::empty(),
        multi_line_string_offset_by_r(rings, d, point_res, arc_res) == Seq::<PolyView>::empty(),
{
}

/// Under a segments-per-arc request of n, a point's circle gets exactly
/// 2n + 1 vertices: the full circle is two caps' worth of segments, kept
/// odd.
pub proof fn lemma_point_circle_count(d: Distance, n: u32)
    requires
        n < 0x8000_0000u32,
    ensures
        circle_count_r(per_arc_resolution_s(n), d.magnitude) == 2 * n + 1,
{
}

/// A segment count and a segment length that resolve to the same circle
/// vertex count give a point's offset the same vertex sequence exactly.
pub proof fn lemma_point_resolution_agreement(
    p: Coord,
    d: Distance,
    by_count: ArcResolution,
    by_length: ArcResolution,
)
    requires
        circle_count_r(by_count, d.magnitude) == circle_count_r(by_length, d.magnitude),
    ensures
        point_offset_r(p, d, by_count) == point_offset_r(p, d, by_length),
{
}

} // verus!
