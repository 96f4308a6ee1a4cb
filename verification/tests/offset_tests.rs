use geo::Contains;
use geo_offset::{
    ArcResolution, Coord, Distance, Edge, EdgeError, Geometry, GeometryCollection, Line,
    LineString, MultiLineString, MultiPoint, Offset, Real,
};

fn coord(x: f64, y: f64) -> Coord {
    Coord { inner: geo_types::Coord { x, y } }
}

fn scalar(v: f64) -> Real {
    Real { inner: geo_types::Coord { x: v, y: v } }
}

fn dist(d: f64) -> Distance {
    Distance { negative: d < 0.0, sign_negative: d.is_sign_negative(), magnitude: scalar(d.abs()) }
}

fn ring(points: &[(f64, f64)]) -> LineString {
    LineString(points.iter().map(|&(x, y)| coord(x, y)).collect())
}

fn polygon(exterior: &[(f64, f64)], interiors: &[&[(f64, f64)]]) -> geo_offset::Polygon {
    geo_offset::Polygon::new(ring(exterior), interiors.iter().map(|r| ring(r)).collect())
}

fn to_geo(mp: &geo_offset::MultiPolygon) -> geo_types::MultiPolygon<f64> {
    geo_types::MultiPolygon(
        mp.0.iter()
            .map(|p| {
                geo_types::Polygon::new(
                    geo_types::LineString(p.exterior().0.iter().map(|c| c.inner).collect()),
                    p.interiors()
                        .iter()
                        .map(|r| geo_types::LineString(r.0.iter().map(|c| c.inner).collect()))
                        .collect(),
                )
            })
            .collect(),
    )
}

const POINT_OFFSET_COORDS: [(f64, f64); 12] = [
    (0.841_253_532_831_181_2, 0.540_640_817_455_597_6),
    (0.415_415_013_001_886_44, 0.909_631_995_354_518_3),
    (-0.142_314_838_273_285, 0.989_821_441_880_932_8),
    (-0.654_860_733_945_285, 0.755_749_574_354_258_3),
    (-0.959_492_973_614_497_4, 0.281_732_556_841_429_67),
    (-0.959_492_973_614_497_4, -0.281_732_556_841_429_84),
    (-0.654_860_733_945_284_9, -0.755_749_574_354_258_5),
    (-0.142_314_838_273_285_23, -0.989_821_441_880_932_7),
    (0.415_415_013_001_886_05, -0.909_631_995_354_518_6),
    (0.841_253_532_831_180_8, -0.540_640_817_455_598_2),
    (1.0, -0.000_000_000_000_001_133_107_779_529_596),
    (0.841_253_532_831_181_2, 0.540_640_817_455_597_6),
];

fn expected_point_offset() -> geo_types::MultiPolygon<f64> {
    geo_types::MultiPolygon(vec![geo_types::Polygon::new(
        geo_types::LineString(
            POINT_OFFSET_COORDS.iter().map(|&(x, y)| geo_types::Coord { x, y }).collect(),
        ),
        Vec::new(),
    )])
}

#[test]
fn test_edge() {
    let edge = Edge::new(&coord(0.0, 0.0), &coord(0.0, 5.0));
    assert_eq!(geo_types::Coord::from((0.0, 0.0)), edge.current.inner);
    assert_eq!(geo_types::Coord::from((0.0, 5.0)), edge.next.inner);
    assert_eq!(
        geo_types::Coord::from((-1.0, 0.0)),
        edge.inwards_normal().unwrap().inner
    );
    assert_eq!(
        geo_types::Coord::from((1.0, 0.0)),
        edge.outwards_normal().unwrap().inner
    );
}

#[test]
fn test_point_offset() {
    let point = coord(0.0, 0.0);
    let resolution = ArcResolution::SegmentCount(POINT_OFFSET_COORDS.len() - 1); // -1 because the test ring is closed
    let result = point.offset_with_arc_resolution(&dist(1.0), &resolution).unwrap();
    assert_eq!(expected_point_offset(), to_geo(&result));
}

#[test]
fn test_point_offset_targeting_segment_length() {
    let point = coord(0.0, 0.0);

    let radius = 1.0;
    let segments_expected = POINT_OFFSET_COORDS.len() - 1; // -1 because the test ring is closed
    let segment_length = radius * std::f64::consts::TAU / segments_expected as f64;
    let resolution = ArcResolution::SegmentLength(scalar(segment_length));

    let result = point.offset_with_arc_resolution(&dist(radius), &resolution).unwrap();
    assert_eq!(expected_point_offset(), to_geo(&result));
}

#[test]
fn test_segment_offset() {
    let segment = Line { start: coord(0.0, 0.0), end: coord(0.0, 8.0) };
    let result = segment.offset(&dist(5.0)).unwrap();
    assert!(!result.0.is_empty());
}

#[test]
fn test_polygon_offset() {
    let polygon = polygon(
        &[(-10., 10.), (10., 10.), (10., -10.), (-10., -10.)],
        &[],
    );
    let result = polygon.offset(&dist(5.0)).unwrap();
    assert!(!result.0.is_empty());
}

#[test]
fn test_polygon_with_hole_offset() {
    let polygon = polygon(
        &[(-15., 15.), (15., 15.), (15., -15.), (-15., -15.)],
        &[&[(-10., 10.), (10., 10.), (10., -10.), (-10., -10.)]],
    );
    let result = polygon.offset(&dist(1.0)).unwrap();
    assert!(!result.0.is_empty());
}

#[test]
fn test_polygon_with_hole_offset_high_resolution() {
    let polygon = polygon(
        &[(-15., 15.), (15., 15.), (15., -15.), (-15., -15.)],
        &[&[(-10., 10.), (10., 10.), (10., -10.), (-10., -10.)]],
    );
    let resolution = ArcResolution::SegmentLength(scalar(0.1));
    let result = polygon.offset_with_arc_resolution(&dist(1.0), &resolution).unwrap();
    assert!(!result.0.is_empty());
}

#[test]
fn test_demo_offset() {
    let collection = GeometryCollection(vec![
        Geometry::Polygon(polygon(
            &[(0.0, 0.0), (0.002, 0.0), (0.002, 0.002), (0.0, 0.002)],
            &[],
        )),
        Geometry::LineString(ring(&[(0.003, 0.0), (0.004, 0.001), (0.005, 0.0)])),
        Geometry::Point(coord(0.006, 0.001)),
    ]);
    let result = collection
        .offset_with_arc_resolution(&dist(0.0001), &ArcResolution::SegmentCount(5))
        .unwrap();
    assert!(!result.0.is_empty());
}

#[test]
fn test_degenerate_edge_overlap() {
    let edge = Edge::new(&coord(3.5, -2.0), &coord(3.5, -2.0));
    assert!(matches!(edge.inwards_normal(), Err(EdgeError::VerticesOverlap)));
    assert!(matches!(edge.outwards_normal(), Err(EdgeError::VerticesOverlap)));
}

#[test]
fn test_default_point_offset_ring() {
    // The default resolution of 5 segments per arc gives a point's circle
    // 11 unique vertices, at angular steps of one eleventh of a turn.
    let result = coord(0.0, 0.0).offset(&dist(1.0)).unwrap();
    assert_eq!(1, result.0.len());
    let ring = &result.0[0].exterior().0;
    assert_eq!(12, ring.len());
    assert_eq!(ring[0].inner, ring[11].inner);
    for i in 0..11 {
        for j in 0..i {
            assert_ne!(ring[i].inner, ring[j].inner);
        }
    }
    let first = ring[0].inner;
    assert!((first.x - 0.8413).abs() < 1e-3);
    assert!((first.y - 0.5406).abs() < 1e-3);
    let step = std::f64::consts::TAU / 11.0;
    for (i, c) in ring.iter().take(11).enumerate() {
        let angle = step * (i + 1) as f64;
        assert!((c.inner.x - angle.cos()).abs() < 1e-9);
        assert!((c.inner.y - angle.sin()).abs() < 1e-9);
    }
}

#[test]
fn test_point_resolution_equivalence() {
    let point = coord(2.0, -1.0);
    let by_count = point
        .offset_with_arc_resolution(&dist(1.0), &ArcResolution::SegmentCount(11))
        .unwrap();
    let segment_length = std::f64::consts::TAU / 11.0;
    let by_length = point
        .offset_with_arc_resolution(&dist(1.0), &ArcResolution::SegmentLength(scalar(segment_length)))
        .unwrap();
    assert_eq!(to_geo(&by_count), to_geo(&by_length));
}

#[test]
fn test_inflated_polygon_contains_original() {
    let square = polygon(&[(-10., 10.), (10., 10.), (10., -10.), (-10., -10.)], &[]);
    let geo_square = geo_types::Polygon::new(
        geo_types::LineString::from(vec![(-10., 10.), (10., 10.), (10., -10.), (-10., -10.)]),
        vec![],
    );
    let result = square.offset(&dist(5.0)).unwrap();
    assert!(to_geo(&result).contains(&geo_square));
}

#[test]
fn test_eroded_polygon_within_original() {
    let square = polygon(&[(-10., 10.), (10., 10.), (10., -10.), (-10., -10.)], &[]);
    let geo_square = geo_types::Polygon::new(
        geo_types::LineString::from(vec![(-10., 10.), (10., 10.), (10., -10.), (-10., -10.)]),
        vec![],
    );
    let result = square.offset(&dist(-5.0)).unwrap();
    assert!(!result.0.is_empty());
    assert!(geo_square.contains(&to_geo(&result)));
}

#[test]
fn test_inflation_fills_hole() {
    let with_hole = polygon(
        &[(-15., 15.), (15., 15.), (15., -15.), (-15., -15.)],
        &[&[(-5., 5.), (5., 5.), (5., -5.), (-5., -5.)]],
    );
    let result = with_hole.offset(&dist(6.0)).unwrap();
    assert!(!result.0.is_empty());
    for p in &result.0 {
        assert!(p.interiors().is_empty());
    }
}

#[test]
fn test_zero_distance_point() {
    let result = coord(0.0, 0.0).offset(&dist(0.0)).unwrap();
    assert_eq!(1, result.0.len());
    for c in &result.0[0].exterior().0 {
        assert_eq!(geo_types::Coord::from((0.0, 0.0)), c.inner);
    }
}

#[test]
fn test_zero_distance_segment() {
    let segment = Line { start: coord(0.0, 0.0), end: coord(0.0, 8.0) };
    let result = segment.offset(&dist(0.0)).unwrap();
    assert_eq!(1, result.0.len());
    for c in &result.0[0].exterior().0 {
        assert_eq!(0.0, c.inner.x);
        assert!(c.inner.y == 0.0 || c.inner.y == 8.0);
    }
}

#[test]
fn test_negative_distance_empty() {
    let d = dist(-1.0);
    assert!(coord(1.0, 2.0).offset(&d).unwrap().0.is_empty());
    let segment = Line { start: coord(0.0, 0.0), end: coord(3.0, 4.0) };
    assert!(segment.offset(&d).unwrap().0.is_empty());
    let chain = ring(&[(0.0, 0.0), (1.0, 1.0), (2.0, 0.0)]);
    assert!(chain.offset(&d).unwrap().0.is_empty());
    let points = MultiPoint(vec![coord(0.0, 0.0), coord(5.0, 5.0)]);
    assert!(points.offset(&d).unwrap().0.is_empty());
    let chains = MultiLineString(vec![ring(&[(0.0, 0.0), (1.0, 0.0)])]);
    assert!(chains.offset(&d).unwrap().0.is_empty());
}

#[test]
fn test_tau_matches_std() {
    assert_eq!(std::f64::consts::TAU, geo_offset::scalar::real_tau().inner.x);
}

#[test]
fn test_orient_rings_windings() {
    let ccw: Vec<Coord> = vec![coord(0., 0.), coord(1., 0.), coord(1., 1.), coord(0., 1.)];
    let as_exterior = geo_offset::orient_rings(&ccw, false);
    let reversed: Vec<geo_types::Coord<f64>> =
        ccw.iter().rev().map(|c| c.inner).collect();
    let oriented: Vec<geo_types::Coord<f64>> =
        as_exterior.iter().map(|c| c.inner).collect();
    assert_eq!(reversed, oriented);

    let as_hole = geo_offset::orient_rings(&ccw, true);
    let unchanged: Vec<geo_types::Coord<f64>> = ccw.iter().map(|c| c.inner).collect();
    let kept: Vec<geo_types::Coord<f64>> = as_hole.iter().map(|c| c.inner).collect();
    assert_eq!(unchanged, kept);
}

#[test]
fn test_rect_and_triangle_offset() {
    let rect = Geometry::Rect(geo_offset::Rect { min: coord(0.0, 0.0), max: coord(4.0, 2.0) });
    let rect_result = rect.offset(&dist(1.0)).unwrap();
    assert!(!rect_result.0.is_empty());

    let triangle = Geometry::Triangle(geo_offset::Triangle(
        coord(0.0, 0.0),
        coord(4.0, 0.0),
        coord(2.0, 3.0),
    ));
    let triangle_result = triangle.offset(&dist(1.0)).unwrap();
    assert!(!triangle_result.0.is_empty());
}

#[test]
fn test_multi_point_offset_separate_circles() {
    let points = MultiPoint(vec![coord(0.0, 0.0), coord(100.0, 0.0)]);
    let result = points.offset(&dist(1.0)).unwrap();
    assert_eq!(2, result.0.len());
}

#[test]
fn test_non_finite_polyline_does_not_panic() {
    // A NaN coordinate cannot reach the boolean engine: the builders hold
    // every operand against the engine's range first and keep the fragments
    // unresolved instead of panicking inside the engine's conversion.
    let chain = ring(&[(f64::NAN, 0.0), (1.0, 0.0), (2.0, 1.0)]);
    let result = chain.offset(&dist(1.0));
    assert!(result.is_ok());
}

#[test]
fn test_huge_coordinate_polyline_does_not_panic() {
    // A coordinate whose scaled value leaves the engine's integer range is
    // likewise kept out of the engine.
    let chain = ring(&[(1.0e300, 0.0), (1.0, 0.0), (2.0, 1.0)]);
    let result = chain.offset(&dist(1.0));
    assert!(result.is_ok());
}

#[test]
fn test_segment_default_cap_density() {
    // Under the default resolution each end cap of a segment's stadium is
    // made of 5 segments: two caps of 6 points each, plus the closing
    // duplicate, give a ring of 13 points.
    let segment = Line { start: coord(0.0, 0.0), end: coord(0.0, 8.0) };
    let result = segment.offset(&dist(5.0)).unwrap();
    assert_eq!(1, result.0.len());
    assert_eq!(13, result.0[0].exterior().0.len());
}

#[test]
fn test_negative_zero_polygon_erodes() {
    // A distance of -0.0 carries the sign bit without comparing below zero:
    // the polygon builder takes the eroding branch on it.
    let square = polygon(&[(-10., 10.), (10., 10.), (10., -10.), (-10., -10.)], &[]);
    let result = square.offset(&dist(-0.0)).unwrap();
    assert!(!result.0.is_empty());
}

#[test]
fn test_zero_length_segment_falls_back_to_point() {
    // A zero-length segment takes the point case at its start, at the same
    // circle density the point entry gives: 11 unique vertices under the
    // default of 5 segments per arc.
    let p = coord(2.0, 3.0);
    let segment = Line { start: p, end: p };
    let from_segment = segment.offset(&dist(1.0)).unwrap();
    let from_point = p.offset(&dist(1.0)).unwrap();
    assert_eq!(to_geo(&from_point), to_geo(&from_segment));
    assert_eq!(12, from_segment.0[0].exterior().0.len());
}
