use vstd::prelude::*;

verus! {

use crate::scalar::{Coord, coord_eq, coord_eq_r, coord_r, coord_x, coord_y, make_coord, x_r, y_r};

/// A directed segment between two points.
#[derive(Clone, Copy)]
pub struct Line {
    pub start: Coord,
    pub end: Coord,
}

/// An ordered chain of points: open when first and last differ, a ring when
/// they are equal.
pub struct LineString(pub Vec<Coord>);

/// A set of chains.
pub struct MultiLineString(pub Vec<LineString>);

/// A set of points.
pub struct MultiPoint(pub Vec<Coord>);

/// One exterior ring and zero or more interior (hole) rings, each closed.
pub struct Polygon {
    exterior: LineString,
    interiors: Vec<LineString>,
}

/// A set of polygons.
pub struct MultiPolygon(pub Vec<Polygon>);

/// A triangle, convertible to a polygon.
#[derive(Clone, Copy)]
pub struct Triangle(pub Coord, pub Coord, pub Coord);

/// An axis-aligned rectangle given by two opposite corners, convertible to a
/// polygon.
#[derive(Clone, Copy)]
pub struct Rect {
    pub min: Coord,
    pub max: Coord,
}

/// The closed sum of every shape kind this library offsets.
pub enum Geometry {
    Point(Coord),
    Line(Line),
    LineString(LineString),
    Polygon(Polygon),
    MultiPoint(MultiPoint),
    MultiLineString(MultiLineString),
    MultiPolygon(MultiPolygon),
    GeometryCollection(GeometryCollection),
    Triangle(Triangle),
    Rect(Rect),
}

/// A collection of geometries, possibly nested.
pub struct GeometryCollection(pub Vec<Geometry>);

impl View for LineString {
    type V = Seq<Coord>;

    open spec fn view(&self) -> Seq<Coord> {
        self.0@
    }
}

/// The mathematical content of a polygon: its rings, exterior first.
pub struct PolyView {
    pub exterior: Seq<Coord>,
    pub interiors: Seq<Seq<Coord>>,
}

impl View for Polygon {
    type V = PolyView;

    closed spec fn view(&self) -> PolyView {
        PolyView { exterior: self.exterior@, interiors: self.interiors@.map_values(|r: LineString| r@) }
    }
}

impl View for MultiPolygon {
    type V = Seq<PolyView>;

    open spec fn view(&self) -> Seq<PolyView> {
        self.0@.map_values(|p: Polygon| p@)
    }
}

impl View for MultiLineString {
    type V = Seq<Seq<Coord>>;

    open spec fn view(&self) -> Seq<Seq<Coord>> {
        self.0@.map_values(|ls: LineString| ls@)
    }
}

impl View for MultiPoint {
    type V = Seq<Coord>;

    open spec fn view(&self) -> Seq<Coord> {
        self.0@
    }
}

/// Whether a chain is a ring already: empty, or ending on the value of its
/// first point (compared as numbers, the way the boolean engine sees them).
pub open spec fn ring_closed(s: Seq<Coord>) -> bool {
    s.len() == 0 || coord_eq_r(s[s.len() - 1], s[0])
}

/// A chain made into a ring: left alone when closed, else with its first
/// point appended.
pub open spec fn close_ring(s: Seq<Coord>) -> Seq<Coord> {
    if ring_closed(s) {
        s
    } else {
        s.push(s[0])
    }
}

impl LineString {
    /// Appends the first point when the chain does not already end on it.
    pub fn close(&mut self)
        ensures
            final(self)@ == close_ring(old(self)@),
    {
        if self.0.len() > 0 {
            let first = self.0[0];
            let last = self.0[self.0.len() - 1];
            if !coord_eq(&last, &first) {
                self.0.push(first);
            }
        }
    }

    /// A copy of the chain.
    pub fn duplicate(&self) -> (r: LineString)
        ensures
            r@ == self@,
    {
        let mut points: Vec<Coord> = Vec::new();
        let mut i: usize = 0;
        while i < self.0.len()
            invariant
                i <= self.0.len(),
                points@ == self.0@.subrange(0, i as int),
            decreases self.0.len() - i,
        {
            points.push(self.0[i]);
            i += 1;
        }
        proof {
            assert(points@ == self.0@);
        }
        LineString(points)
    }
}

impl Polygon {
    /// Builds a polygon from an exterior ring and interior rings, closing
    /// each ring that does not already end on its first point.
    pub fn new(exterior: LineString, interiors: Vec<LineString>) -> (r: Polygon)
        ensures
            r@.exterior == close_ring(exterior@),
            r@.interiors == interiors@.map_values(|ring: LineString| close_ring(ring@)),
    {
        let mut exterior = exterior;
        exterior.close();
        let mut closed_interiors: Vec<LineString> = Vec::new();
        let mut i: usize = 0;
        while i < interiors.len()
            invariant
                i <= interiors.len(),
                closed_interiors@.len() == i,
                forall|j: int|
                    0 <= j < i ==> #[trigger] closed_interiors@[j]@ == close_ring(interiors@[j]@),
            decreases interiors.len() - i,
        {
            let mut ring = interiors[i].duplicate();
            ring.close();
            closed_interiors.push(ring);
            i += 1;
        }
        let result = Polygon { exterior, interiors: closed_interiors };
        proof {
            assert(result@.interiors =~= interiors@.map_values(
                |ring: LineString| close_ring(ring@),
            ));
        }
        result
    }

    /// Builds a polygon from rings taken exactly as given, point for point;
    /// the caller answers for their closure.
    pub(crate) fn from_rings(exterior: LineString, interiors: Vec<LineString>) -> (r: Polygon)
        ensures
            r@.exterior == exterior@,
            r@.interiors == interiors@.map_values(|ring: LineString| ring@),
    {
        let result = Polygon { exterior, interiors };
        proof {
            assert(result@.interiors =~= interiors@.map_values(|ring: LineString| ring@));
        }
        result
    }

    /// The exterior ring.
    pub fn exterior(&self) -> (r: &LineString)
        ensures
            r@ == self@.exterior,
    {
        &self.exterior
    }

    /// The interior rings.
    pub fn interiors(&self) -> (r: &Vec<LineString>)
        ensures
            r@.map_values(|ring: LineString| ring@) == self@.interiors,
    {
        &self.interiors
    }

    /// A copy of the polygon.
    pub fn duplicate(&self) -> (r: Polygon)
        ensures
            r@ == self@,
    {
        let exterior = self.exterior.duplicate();
        let mut interiors: Vec<LineString> = Vec::new();
        let mut i: usize = 0;
        while i < self.interiors.len()
            invariant
                i <= self.interiors.len(),
                interiors@.len() == i,
                forall|j: int| 0 <= j < i ==> #[trigger] interiors@[j]@ == self.interiors@[j]@,
            decreases self.interiors.len() - i,
        {
            interiors.push(self.interiors[i].duplicate());
            i += 1;
        }
        let result = Polygon { exterior, interiors };
        proof {
            assert(result@.interiors =~= self@.interiors);
        }
        result
    }
}

impl Triangle {
    /// The triangle as a polygon: its three corners, the first repeated,
    /// as the exterior ring, without holes.
    pub fn to_polygon(&self) -> (r: Polygon)
        ensures
            r@.exterior == close_ring(seq![self.0, self.1, self.2, self.0]),
            r@.interiors == Seq::<Seq<Coord>>::empty(),
    {
        let mut points: Vec<Coord> = Vec::new();
        points.push(self.0);
        points.push(self.1);
        points.push(self.2);
        points.push(self.0);
        proof {
            assert(points@ =~= seq![self.0, self.1, self.2, self.0]);
            assert(Seq::<LineString>::empty().map_values(|ring: LineString| close_ring(ring@))
                =~= Seq::<Seq<Coord>>::empty());
        }
        Polygon::new(LineString(points), Vec::new())
    }
}

/// The corner ring of a rectangle, counter-clockwise from below max, each
/// corner built afresh from the two defining corners' components.
pub open spec fn rect_ring_r(rc: Rect) -> Seq<Coord> {
    seq![
        coord_r(x_r(rc.max), y_r(rc.min)),
        coord_r(x_r(rc.max), y_r(rc.max)),
        coord_r(x_r(rc.min), y_r(rc.max)),
        coord_r(x_r(rc.min), y_r(rc.min)),
        coord_r(x_r(rc.max), y_r(rc.min)),
    ]
}

impl Rect {
    /// The rectangle as a polygon: its four corners, the first repeated, as
    /// the exterior ring, without holes.
    pub fn to_polygon(&self) -> (r: Polygon)
        ensures
            r@.exterior == close_ring(rect_ring_r(*self)),
            r@.interiors == Seq::<Seq<Coord>>::empty(),
    {
        let max_x = coord_x(&self.max);
        let max_y = coord_y(&self.max);
        let min_x = coord_x(&self.min);
        let min_y = coord_y(&self.min);
        let mut points: Vec<Coord> = Vec::new();
        points.push(make_coord(&max_x, &min_y));
        points.push(make_coord(&max_x, &max_y));
        points.push(make_coord(&min_x, &max_y));
        points.push(make_coord(&min_x, &min_y));
        points.push(make_coord(&max_x, &min_y));
        proof {
            assert(points@ =~= rect_ring_r(*self));
            assert(Seq::<LineString>::empty().map_values(|ring: LineString| close_ring(ring@))
                =~= Seq::<Seq<Coord>>::empty());
        }
        Polygon::new(LineString(points), Vec::new())
    }
}

} // verus!
