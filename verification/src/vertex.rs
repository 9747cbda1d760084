//! The vertex that a tessellation hands out.

use vstd::prelude::*;
use crate::types::{LyonPoint, LyonVector};

verus! {

/// Marks a vertex of a filled shape.
pub const PRIMITIVE_TYPE_FILLED: u32 = 1;

/// Marks a vertex of a stroked line.
pub const PRIMITIVE_TYPE_STROKED: u32 = 2;

/// One vertex of a mesh: where it lies, and what its caller asked to have
/// written on every vertex of the mesh.
#[derive(Clone, Copy, Debug, PartialEq, Eq, Structural)]
pub struct Vertex {
    /// Where the vertex lies.
    pub position: LyonPoint,
    /// Where the tessellator put the vertex; the same point as `position`.
    pub original_position: LyonPoint,
    /// For a stroke, the direction in which the vertex moves as the line gets
    /// wider; for a fill, the zero vector.
    pub normal: LyonVector,
    /// Packed colour, as the caller gave it.
    pub color: u32,
    /// `PRIMITIVE_TYPE_FILLED` or `PRIMITIVE_TYPE_STROKED`.
    pub primitive_type: u32,
    /// Index into the caller's table of fills.
    pub fill_ind: i32,
    /// Index of the caller's shape.
    pub shape_ind: i32,
}

} // verus!
