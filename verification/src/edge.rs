use vstd::prelude::*;

verus! {

use crate::EdgeError;
use crate::scalar::{
    Coord, Real, add_r, coord_r, coord_x, coord_y, div_r, finite_r, make_coord, mul_r, neg_r,
    real_add, real_div, real_is_finite, real_mul, real_neg, real_sqrt, real_sub, sqrt_r, sub_r,
    x_r, y_r,
};

/// A point translated by the vector (dx, dy).
pub open spec fn translate_r(c: Coord, dx: Real, dy: Real) -> Coord {
    coord_r(add_r(x_r(c), dx), add_r(y_r(c), dy))
}

/// The x extent of an edge, next minus current.
pub open spec fn edge_dx(e: Edge) -> Real {
    sub_r(x_r(e.next), x_r(e.current))
}

/// The y extent of an edge, next minus current.
pub open spec fn edge_dy(e: Edge) -> Real {
    sub_r(y_r(e.next), y_r(e.current))
}

/// The length of an edge.
pub open spec fn edge_length(e: Edge) -> Real {
    sqrt_r(add_r(mul_r(edge_dx(e), edge_dx(e)), mul_r(edge_dy(e), edge_dy(e))))
}

/// The x component of the unit inward normal, before the finiteness test.
pub open spec fn inward_nx(e: Edge) -> Real {
    div_r(neg_r(edge_dy(e)), edge_length(e))
}

/// The y component of the unit inward normal, before the finiteness test.
pub open spec fn inward_ny(e: Edge) -> Real {
    div_r(edge_dx(e), edge_length(e))
}

/// What `inwards_normal` returns: the left-hand rotation of the edge's
/// direction, scaled to unit length; the division is undefined exactly when
/// a component comes out non-finite, which an edge of zero length produces.
pub open spec fn inwards_normal_s(e: Edge) -> Result<Coord, EdgeError> {
    if finite_r(inward_nx(e)) && finite_r(inward_ny(e)) {
        Ok(coord_r(inward_nx(e), inward_ny(e)))
    } else {
        Err(EdgeError::VerticesOverlap)
    }
}

/// What `outwards_normal` returns: the negation of the inward normal, with
/// the same failure condition.
pub open spec fn outwards_normal_s(e: Edge) -> Result<Coord, EdgeError> {
    match inwards_normal_s(e) {
        Ok(n) => Ok(coord_r(neg_r(x_r(n)), neg_r(y_r(n)))),
        Err(err) => Err(err),
    }
}

/// A directed edge between two vertices; the direction decides the sign of
/// the normals.
#[derive(Clone, Copy)]
pub struct Edge {
    pub current: Coord,
    pub next: Coord,
}

impl Edge {
    pub fn new(current: &Coord, next: &Coord) -> (r: Self)
        ensures
            r.current == *current,
            r.next == *next,
    {
        Self { current: *current, next: *next }
    }

    pub fn new_with_offset(current: &Coord, next: &Coord, dx: Real, dy: Real) -> (r: Self)
        ensures
            r.current == translate_r(*current, dx, dy),
            r.next == translate_r(*next, dx, dy),
    {
        Self {
            current: make_coord(&real_add(&coord_x(current), &dx), &real_add(&coord_y(current), &dy)),
            next: make_coord(&real_add(&coord_x(next), &dx), &real_add(&coord_y(next), &dy)),
        }
    }

    /// The unit normal on the left of the edge's direction; fails exactly
    /// when a component is not finite. An edge whose endpoints are one
    /// point has zero length, and its normal is provably undefined.
    pub fn inwards_normal(&self) -> (r: Result<Coord, EdgeError>)
        ensures
            r == inwards_normal_s(*self),
            self.current == self.next ==> r == Err::<Coord, EdgeError>(
                EdgeError::VerticesOverlap,
            ),
    {
        let dx = real_sub(&coord_x(&self.next), &coord_x(&self.current));
        let dy = real_sub(&coord_y(&self.next), &coord_y(&self.current));
        let edge_len = real_sqrt(&real_add(&real_mul(&dx, &dx), &real_mul(&dy, &dy)));
        let x = real_div(&real_neg(&dy), &edge_len);
        let y = real_div(&dx, &edge_len);
        if real_is_finite(&x) && real_is_finite(&y) {
            Ok(make_coord(&x, &y))
        } else {
            Err(EdgeError::VerticesOverlap)
        }
    }

    /// The unit normal on the right of the edge's direction, the negation of
    /// the inward one; fails on the same edges.
    pub fn outwards_normal(&self) -> (r: Result<Coord, EdgeError>)
        ensures
            r == outwards_normal_s(*self),
            self.current == self.next ==> r == Err::<Coord, EdgeError>(
                EdgeError::VerticesOverlap,
            ),
    {
        match self.inwards_normal() {
            Ok(inwards) => Ok(
                make_coord(&real_neg(&coord_x(&inwards)), &real_neg(&coord_y(&inwards))),
            ),
            Err(err) => Err(err),
        }
    }

    /// The edge translated by (dx, dy).
    pub fn with_offset(&self, dx: Real, dy: Real) -> (r: Self)
        ensures
            r.current == translate_r(self.current, dx, dy),
            r.next == translate_r(self.next, dx, dy),
    {
        Self::new_with_offset(&self.current, &self.next, dx, dy)
    }

    /// The reversed edge translated by (dx, dy).
    pub fn inverse_with_offset(&self, dx: Real, dy: Real) -> (r: Self)
        ensures
            r.current == translate_r(self.next, dx, dy),
            r.next == translate_r(self.current, dx, dy),
    {
        Self::new_with_offset(&self.next, &self.current, dx, dy)
    }

    /// The edge with its endpoints swapped.
    pub fn inverse(&self) -> (r: Self)
        ensures
            r.current == self.next,
            r.next == self.current,
    {
        Self::new(&self.next, &self.current)
    }
}

} // verus!
