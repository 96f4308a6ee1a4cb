use vstd::prelude::*;

verus! {

use crate::scalar::{
    Coord, Real, add_r, mul_r, real_add, real_from_u32, real_is_sign_negative, real_mul, real_of_u32,
    real_sub, sign_negative_r, sub_r, x_r, y_r,
};

/// The running shoelace sum over the first `k` cyclic point pairs of a
/// ring: for each pair the cross terms are added and subtracted in turn,
/// the way the accumulation runs.
pub open spec fn shoelace_r(pts: Seq<Coord>, k: int) -> Real
    decreases k,
{
    if k <= 0 || k > pts.len() {
        real_of_u32(0)
    } else {
        let p1 = pts[k - 1];
        let p2 = if k == pts.len() {
            pts[0]
        } else {
            pts[k]
        };
        sub_r(
            add_r(shoelace_r(pts, k - 1), mul_r(x_r(p1), y_r(p2))),
            mul_r(x_r(p2), y_r(p1)),
        )
    }
}

/// The signed shoelace area of a ring taken cyclically, the first point
/// revisited after the last.
pub open spec fn ring_area_r(pts: Seq<Coord>) -> Real {
    shoelace_r(pts, pts.len() as int)
}

/// Whether a ring's order is reversed: an exterior ring is reversed when
/// its signed area does not have the sign bit set, a hole when it does.
pub open spec fn ring_flipped(pts: Seq<Coord>, is_hole: bool) -> bool {
    if is_hole {
        sign_negative_r(ring_area_r(pts))
    } else {
        !sign_negative_r(ring_area_r(pts))
    }
}

/// What `orient_rings` returns: the ring reversed when its winding does not
/// match the convention for its role, else the ring as given.
pub open spec fn oriented_r(pts: Seq<Coord>, is_hole: bool) -> Seq<Coord> {
    if ring_flipped(pts, is_hole) {
        pts.reverse()
    } else {
        pts
    }
}

/// Normalizes a ring's winding: computes the signed area by the shoelace
/// formula over the ring taken cyclically and reverses the point order when
/// its sign does not match the convention for the ring's role.
pub fn orient_rings(coordinates: &Vec<Coord>, is_hole: bool) -> (r: Vec<Coord>)
    ensures
        r@ == oriented_r(coordinates@, is_hole),
{
    let n = coordinates.len();
    let mut area = real_from_u32(0);
    let mut j: usize = 0;
    while j < n
        invariant
            j <= n,
            n == coordinates.len(),
            area == shoelace_r(coordinates@, j as int),
        decreases n - j,
    {
        let p1 = coordinates[j];
        let p2 = if j + 1 == n {
            coordinates[0]
        } else {
            coordinates[j + 1]
        };
        area = real_sub(
            &real_add(&area, &real_mul(&crate::scalar::coord_x(&p1), &crate::scalar::coord_y(&p2))),
            &real_mul(&crate::scalar::coord_x(&p2), &crate::scalar::coord_y(&p1)),
        );
        j += 1;
    }
    let negative = real_is_sign_negative(&area);
    let flip = if is_hole {
        negative
    } else {
        !negative
    };
    let mut ring: Vec<Coord> = Vec::new();
    if flip {
        let mut i: usize = 0;
        while i < n
            invariant
                i <= n,
                n == coordinates.len(),
                ring@.len() == i,
                forall|k: int|
                    0 <= k < i ==> ring@[k] == coordinates@[n - 1 - k],
            decreases n - i,
        {
            ring.push(coordinates[n - 1 - i]);
            i += 1;
        }
        proof {
            assert(ring@ =~= coordinates@.reverse());
        }
    } else {
        let mut i: usize = 0;
        while i < n
            invariant
                i <= n,
                n == coordinates.len(),
                ring@ == coordinates@.subrange(0, i as int),
            decreases n - i,
        {
            ring.push(coordinates[i]);
            i += 1;
        }
        proof {
            assert(ring@ =~= coordinates@);
        }
    }
    ring
}

} // verus!
