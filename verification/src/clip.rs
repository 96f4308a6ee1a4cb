use vstd::prelude::*;

verus! {

use crate::geometry::{LineString, MultiPolygon, PolyView, Polygon};
use crate::scalar::Coord;

// The boolean engine (geo_clipper, a binding to Clipper) resolves the
// overlapping fragments the offset builders produce. Its outputs are
// deterministic functions of its inputs, so they are named and never
// restated: the library pins down exactly which operands reach the engine
// and in which order.

/// The engine's precision factor: coordinates are scaled by it and rounded
/// to integers before clipping, and scaled back after.
pub const CLIP_PRECISION: u32 = 1000;

/// A polygon set in the boolean engine's own representation, held opaquely.
#[verifier::external_body]
pub struct EngineSet {
    inner: geo_types::MultiPolygon,
}

pub uninterp spec fn clip_safe_r(c: Coord) -> bool;

pub uninterp spec fn engine_in_range(e: EngineSet) -> bool;

/// Whether every point of a ring can reach the engine.
pub open spec fn ring_clip_safe(s: Seq<Coord>) -> bool {
    forall|i: int| 0 <= i < s.len() ==> clip_safe_r(s[i])
}

/// Whether every point of a polygon can reach the engine.
pub open spec fn poly_clip_safe(p: PolyView) -> bool {
    &&& ring_clip_safe(p.exterior)
    &&& forall|j: int| 0 <= j < p.interiors.len() ==> ring_clip_safe(#[trigger] p.interiors[j])
}

/// Whether every point of a polygon set can reach the engine.
pub open spec fn mp_clip_safe(a: Seq<PolyView>) -> bool {
    forall|i: int| 0 <= i < a.len() ==> poly_clip_safe(#[trigger] a[i])
}

/// Relies on f64::is_finite, f64::abs and the IEEE comparison: true exactly
/// when both components, scaled by the engine's precision factor, are finite
/// and under 2^62 in magnitude — the range within which the engine's checked
/// integer conversion and its own coordinate test accept a value.
#[verifier::external_body]
fn coord_clip_safe(c: &Coord) -> (r: bool)
    ensures
        r == clip_safe_r(*c),
{
    let mut factor = c.inner.x;
    factor = CLIP_PRECISION.into();
    let mut half = c.inner.x;
    half = 2147483648u32.into();
    let sx = c.inner.x * factor;
    let sy = c.inner.y * factor;
    sx.is_finite() && sy.is_finite() && sx.abs() < half * half && sy.abs() < half * half
}

/// Whether every point of a chain can reach the engine.
pub fn line_string_clip_safe(ls: &LineString) -> (r: bool)
    ensures
        r == ring_clip_safe(ls@),
{
    let mut i: usize = 0;
    while i < ls.0.len()
        invariant
            i <= ls.0.len(),
            forall|k: int| 0 <= k < i ==> clip_safe_r(ls.0@[k]),
        decreases ls.0.len() - i,
    {
        if !coord_clip_safe(&ls.0[i]) {
            return false;
        }
        i += 1;
    }
    true
}

/// Whether every point of a polygon can reach the engine.
pub fn polygon_clip_safe(p: &Polygon) -> (r: bool)
    ensures
        r == poly_clip_safe(p@),
{
    if !line_string_clip_safe(p.exterior()) {
        return false;
    }
    let interiors = p.interiors();
    let mut j: usize = 0;
    while j < interiors.len()
        invariant
            j <= interiors.len(),
            interiors@.map_values(|ring: LineString| ring@) == p@.interiors,
            ring_clip_safe(p@.exterior),
            forall|k: int| 0 <= k < j ==> ring_clip_safe(#[trigger] p@.interiors[k]),
        decreases interiors.len() - j,
    {
        if !line_string_clip_safe(&interiors[j]) {
            proof {
                assert(p@.interiors[j as int] == interiors@[j as int]@);
            }
            return false;
        }
        proof {
            assert(p@.interiors[j as int] == interiors@[j as int]@);
        }
        j += 1;
    }
    true
}

/// Whether every point of a polygon set can reach the engine.
pub fn multi_polygon_clip_safe(a: &MultiPolygon) -> (r: bool)
    ensures
        r == mp_clip_safe(a@),
{
    let mut i: usize = 0;
    while i < a.0.len()
        invariant
            i <= a.0.len(),
            forall|k: int| 0 <= k < i ==> poly_clip_safe(#[trigger] a@[k]),
        decreases a.0.len() - i,
    {
        if !polygon_clip_safe(&a.0[i]) {
            proof {
                assert(a@[i as int] == a.0@[i as int]@);
            }
            return false;
        }
        proof {
            assert(a@[i as int] == a.0@[i as int]@);
        }
        i += 1;
    }
    true
}

pub uninterp spec fn engine_of(a: Seq<PolyView>) -> EngineSet;

pub uninterp spec fn rings_of(a: EngineSet) -> Seq<PolyView>;

pub uninterp spec fn union_e(a: EngineSet, b: EngineSet) -> EngineSet;

pub uninterp spec fn difference_e(a: EngineSet, b: EngineSet) -> EngineSet;

/// What a union through the boolean engine returns, ring for ring.
pub open spec fn union_r(a: Seq<PolyView>, b: Seq<PolyView>) -> Seq<PolyView> {
    rings_of(union_e(engine_of(a), engine_of(b)))
}

/// What a difference through the boolean engine returns, ring for ring.
pub open spec fn difference_r(a: Seq<PolyView>, b: Seq<PolyView>) -> Seq<PolyView> {
    rings_of(difference_e(engine_of(a), engine_of(b)))
}

/// Relies on building geo_types rings from the polygons' points, one for
/// one, ring for ring; a set whose every point is clip-safe converts to one
/// the engine's range admits.
#[verifier::external_body]
fn to_engine(a: &MultiPolygon) -> (r: EngineSet)
    ensures
        r == engine_of(a@),
        mp_clip_safe(a@) ==> engine_in_range(r),
{
    EngineSet {
        inner: geo_types::MultiPolygon(a.0.iter().map(|p| geo_types::Polygon::new(
            geo_types::LineString(p.exterior().0.iter().map(|c| c.inner).collect()),
            p.interiors().iter().map(
                |ring| geo_types::LineString(ring.0.iter().map(|c| c.inner).collect()),
            ).collect(),
        )).collect()),
    }
}

/// Relies on reading geo_types rings back, point for point and ring for
/// ring; the engine hands its rings out closed already.
#[verifier::external_body]
fn from_engine(a: EngineSet) -> (r: MultiPolygon)
    ensures
        r@ == rings_of(a),
{
    MultiPolygon(a.inner.0.into_iter().map(|p| {
        let (exterior, interiors) = p.into_inner();
        Polygon::from_rings(
            LineString(exterior.0.into_iter().map(|c| Coord { inner: c }).collect()),
            interiors.into_iter().map(
                |ring| LineString(ring.0.into_iter().map(|c| Coord { inner: c }).collect()),
            ).collect(),
        )
    }).collect())
}

/// Relies on geo_clipper's union of closed polygon sets, at this library's
/// precision factor. On a set outside the engine's range its conversion or
/// the engine's own coordinate test would give up, so such sets are
/// excluded here.
#[verifier::external_body]
fn engine_union(a: &EngineSet, b: &EngineSet) -> (r: EngineSet)
    requires
        engine_in_range(*a),
        engine_in_range(*b),
    ensures
        r == union_e(*a, *b),
{
    EngineSet { inner: geo_clipper::Clipper::union(&a.inner, &b.inner, CLIP_PRECISION.into()) }
}

/// Relies on geo_clipper's difference of closed polygon sets, at this
/// library's precision factor; it accepts the same sets as the union.
#[verifier::external_body]
fn engine_difference(a: &EngineSet, b: &EngineSet) -> (r: EngineSet)
    requires
        engine_in_range(*a),
        engine_in_range(*b),
    ensures
        r == difference_e(*a, *b),
{
    EngineSet { inner: geo_clipper::Clipper::difference(&a.inner, &b.inner, CLIP_PRECISION.into()) }
}

/// The union of two polygon sets through the boolean engine, for operands
/// whose every point the engine admits.
pub fn clip_union(a: &MultiPolygon, b: &MultiPolygon) -> (r: MultiPolygon)
    requires
        mp_clip_safe(a@),
        mp_clip_safe(b@),
    ensures
        r@ == union_r(a@, b@),
{
    from_engine(engine_union(&to_engine(a), &to_engine(b)))
}

/// The difference of two polygon sets through the boolean engine, for
/// operands whose every point the engine admits.
pub fn clip_difference(a: &MultiPolygon, b: &MultiPolygon) -> (r: MultiPolygon)
    requires
        mp_clip_safe(a@),
        mp_clip_safe(b@),
    ensures
        r@ == difference_r(a@, b@),
{
    from_engine(engine_difference(&to_engine(a), &to_engine(b)))
}

/// What the union of two polygon sets is when the operands' points are first
/// held against the engine's range: their union through the engine, or, when
/// a point lies outside it, the fragments kept side by side, unresolved.
pub open spec fn checked_union_r(a: Seq<PolyView>, b: Seq<PolyView>) -> Seq<PolyView> {
    if mp_clip_safe(a) && mp_clip_safe(b) {
        union_r(a, b)
    } else {
        a + b
    }
}

/// What the difference of two polygon sets is under the same range test:
/// their difference through the engine, or the base kept unchanged.
pub open spec fn checked_difference_r(a: Seq<PolyView>, b: Seq<PolyView>) -> Seq<PolyView> {
    if mp_clip_safe(a) && mp_clip_safe(b) {
        difference_r(a, b)
    } else {
        a
    }
}

/// The two polygon sets side by side, without the engine.
fn concat_mp(a: &MultiPolygon, b: &MultiPolygon) -> (r: MultiPolygon)
    ensures
        r@ == a@ + b@,
{
    let mut polygons: Vec<Polygon> = Vec::new();
    let mut i: usize = 0;
    while i < a.0.len()
        invariant
            i <= a.0.len(),
            polygons@.len() == i,
            forall|k: int| 0 <= k < i ==> #[trigger] polygons@[k]@ == a@[k],
        decreases a.0.len() - i,
    {
        polygons.push(a.0[i].duplicate());
        i += 1;
    }
    let mut j: usize = 0;
    while j < b.0.len()
        invariant
            j <= b.0.len(),
            polygons@.len() == a.0@.len() + j,
            forall|k: int| 0 <= k < a.0@.len() ==> #[trigger] polygons@[k]@ == a@[k],
            forall|k: int|
                0 <= k < j ==> #[trigger] polygons@[a.0@.len() + k]@ == b@[k],
        decreases b.0.len() - j,
    {
        polygons.push(b.0[j].duplicate());
        j += 1;
    }
    let result = MultiPolygon(polygons);
    proof {
        assert(a@.len() == a.0@.len());
        assert forall|k: int| 0 <= k < result@.len() implies result@[k] == (a@ + b@)[k] by {
            assert(result@[k] == polygons@[k]@);
            if k >= a.0@.len() {
                let m = k - a.0@.len();
                assert(polygons@[a.0@.len() + m]@ == b@[m]);
            }
        }
        assert(result@ =~= a@ + b@);
    }
    result
}

/// The union of two polygon sets: through the engine when every point is in
/// its range, else the fragments kept side by side.
pub fn clip_union_checked(a: &MultiPolygon, b: &MultiPolygon) -> (r: MultiPolygon)
    ensures
        r@ == checked_union_r(a@, b@),
{
    if multi_polygon_clip_safe(a) && multi_polygon_clip_safe(b) {
        clip_union(a, b)
    } else {
        concat_mp(a, b)
    }
}

/// The difference of two polygon sets: through the engine when every point
/// is in its range, else the base unchanged.
pub fn clip_difference_checked(a: &MultiPolygon, b: &MultiPolygon) -> (r: MultiPolygon)
    ensures
        r@ == checked_difference_r(a@, b@),
{
    if multi_polygon_clip_safe(a) && multi_polygon_clip_safe(b) {
        clip_difference(a, b)
    } else {
        let mut polygons: Vec<Polygon> = Vec::new();
        let mut i: usize = 0;
        while i < a.0.len()
            invariant
                i <= a.0.len(),
                polygons@.len() == i,
                forall|k: int| 0 <= k < i ==> #[trigger] polygons@[k]@ == a@[k],
            decreases a.0.len() - i,
        {
            polygons.push(a.0[i].duplicate());
            i += 1;
        }
        let result = MultiPolygon(polygons);
        proof {
            assert(result@ =~= a@);
        }
        result
    }
}

} // verus!
