use vstd::prelude::*;

pub mod arc;
pub mod clip;
pub mod edge;
pub mod geometry;
pub mod offset;
pub mod scalar;
pub mod utils;

pub use crate::edge::Edge;
pub use crate::geometry::{
    Geometry, GeometryCollection, Line, LineString, MultiLineString, MultiPoint, MultiPolygon,
    Polygon, Rect, Triangle,
};
pub use crate::offset::Offset;
pub use crate::scalar::{Coord, Real};
pub use crate::utils::orient_rings;

verus! {

/// This enumeration contains error cases for edges manipulation.
#[derive(Debug, Copy, Clone, PartialEq, Eq, Structural)]
pub enum EdgeError {
    /// This error can be produced if normals of an edge of null length are computed.
    VerticesOverlap,
}

/// If offset computing fails this error is returned.
#[derive(Debug, Copy, Clone, PartialEq, Eq, Structural)]
pub enum OffsetError {
    /// This error can be produced when manipulating edges.
    EdgeError(EdgeError),
}

/// A signed offset distance: its sign is read by the builders, its magnitude
/// only by the trusted numeric steps. The two flags differ only on a
/// negative zero or a sign-bit-carrying NaN: `negative` holds when the
/// number compares below zero, `sign_negative` when its sign bit is set.
#[derive(Clone, Copy)]
pub struct Distance {
    /// True when the distance compares below zero: the area-less builders
    /// yield nothing for such a distance.
    pub negative: bool,
    /// True when the distance's sign bit is set: the polygon builder erodes
    /// for such a distance and inflates otherwise.
    pub sign_negative: bool,
    /// The absolute value of the distance.
    pub magnitude: Real,
}

/// How densely arcs are approximated: by a segment count per arc, or by a
/// longest admissible segment.
#[derive(Clone, Copy)]
pub enum ArcResolution {
    SegmentCount(usize),
    SegmentLength(Real),
}

/// Arcs around corners are made of 5 segments by default.
pub const DEFAULT_ARC_SEGMENTS: u32 = 5;

} // verus!
