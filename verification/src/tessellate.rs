//! What is decided before and after a tessellation.
//!
//! Before: the options, which arrive as integers and encodings, are read into
//! the rule, caps, joins and numbers that the tessellator works with, and an
//! empty output is made for it. A line without width is not tessellated at
//! all: its stroke is the empty mesh. During: each point that the tessellator
//! hands out becomes a vertex that carries the caller's colour and indices.
//! After: the way the tessellation ended decides whether the caller gets the
//! mesh, is told to come again with wider indices, or gets a message.

use vstd::prelude::*;
use crate::geometry::{Geometry, GeometryBuilderError, GeometryOutput, IndexWidth};
use crate::types::{LyonPoint, LyonVector, Scalar};
use crate::vertex::{Vertex, PRIMITIVE_TYPE_FILLED, PRIMITIVE_TYPE_STROKED};

verus! {

/// Encoding of the tolerance that a fill gets when it asks for none that is
/// greater than zero: the single-precision number nearest to one tenth.
pub const DEFAULT_TOLERANCE_BITS: u32 = 0x3DCC_CCCD;

/// Which regions of a path that overlaps itself are inside.
#[derive(Clone, Copy, Debug, PartialEq, Eq, Structural)]
pub enum FillRule {
    /// Inside where the number of turns around the region is odd.
    EvenOdd,
    /// Inside where the number of turns around the region is not zero.
    NonZero,
}

/// The direction in which the fill tessellator sweeps over the path.
#[derive(Clone, Copy, Debug, PartialEq, Eq, Structural)]
pub enum Orientation {
    Vertical,
    Horizontal,
}

/// The shape of the ends of an open stroked subpath.
#[derive(Clone, Copy, Debug, PartialEq, Eq, Structural)]
pub enum LineCap {
    /// Cut off flat at the endpoint.
    Butt,
    /// A half disc around the endpoint.
    Round,
    /// Cut off flat half a line width beyond the endpoint.
    Square,
}

/// The shape of the corners of a stroke.
#[derive(Clone, Copy, Debug, PartialEq, Eq, Structural)]
pub enum LineJoin {
    /// The outer edges run on until they meet, unless that is too far.
    Miter,
    /// As `Miter`, but cut off where it gets too far.
    MiterClip,
    /// The ends of the outer edges are joined by a straight edge.
    Bevel,
    /// The ends of the outer edges are joined by an arc.
    Round,
}

/// The options of a fill as the caller gives them.
#[derive(Clone, Copy, Debug, PartialEq, Eq, Structural)]
pub struct CFillOptions {
    /// How far the mesh may stray from a curve; used if greater than zero.
    pub tolerance: Scalar,
    /// 1 for `NonZero`; 0 and every other value for `EvenOdd`.
    pub fill_rule: i32,
    /// 1 for `Horizontal`; 0 and every other value for `Vertical`.
    pub orientation: i32,
    /// Written on every vertex.
    pub color: u32,
    /// Written on every vertex.
    pub fill_ind: i32,
    /// Written on every vertex.
    pub shape_ind: i32,
}

/// The options of a stroke as the caller gives them.
#[derive(Clone, Copy, Debug, PartialEq, Eq, Structural)]
pub struct CStrokeOptions {
    /// Read by `cap_from_integer`.
    pub start_cap: i32,
    /// Read by `cap_from_integer`.
    pub end_cap: i32,
    /// Read by `join_from_integer`.
    pub join: i32,
    /// The width of the line.
    pub width: Scalar,
    /// Written on every vertex.
    pub color: u32,
    /// Written on every vertex.
    pub fill_ind: i32,
    /// Written on every vertex.
    pub shape_ind: i32,
    /// How far the mesh may stray from a curve.
    pub tolerance: Scalar,
}

/// The options of a fill as the tessellator takes them.
#[derive(Clone, Copy, Debug, PartialEq, Eq, Structural)]
pub struct FillOptions {
    pub tolerance: Scalar,
    pub fill_rule: FillRule,
    pub sweep_orientation: Orientation,
}

/// The options of a stroke as the tessellator takes them.
#[derive(Clone, Copy, Debug, PartialEq, Eq, Structural)]
pub struct StrokeOptions {
    pub start_cap: LineCap,
    pub end_cap: LineCap,
    pub line_join: LineJoin,
    pub line_width: Scalar,
    pub tolerance: Scalar,
}

/// The fill rule that an integer stands for: `EvenOdd` for 0, `NonZero` for
/// 1, and `EvenOdd`, the rule of a fill that asks for none, for every other
/// value.
pub open spec fn fill_rule_of(i: i32) -> FillRule {
    if i == 1 {
        FillRule::NonZero
    } else {
        FillRule::EvenOdd
    }
}

/// The sweep direction that an integer stands for: `Vertical` for 0,
/// `Horizontal` for 1, and `Vertical`, the direction of a fill that asks for
/// none, for every other value.
pub open spec fn orientation_of(i: i32) -> Orientation {
    if i == 1 {
        Orientation::Horizontal
    } else {
        Orientation::Vertical
    }
}

/// The cap that an integer stands for: `Butt` for 0, `Round` for 1, `Square`
/// for 2, and `Butt` for every other value.
pub open spec fn cap_of(i: i32) -> LineCap {
    if i == 1 {
        LineCap::Round
    } else if i == 2 {
        LineCap::Square
    } else {
        LineCap::Butt
    }
}

/// The join that an integer stands for: `Miter` for 0, `MiterClip` for 1,
/// `Bevel` for 2, `Round` for 3, and `Miter` for every other value.
pub open spec fn join_of(i: i32) -> LineJoin {
    if i == 1 {
        LineJoin::MiterClip
    } else if i == 2 {
        LineJoin::Bevel
    } else if i == 3 {
        LineJoin::Round
    } else {
        LineJoin::Miter
    }
}

/// The tolerance of a fill: the one asked for if it is greater than zero,
/// and otherwise one tenth.
pub open spec fn fill_tolerance_of(asked: Scalar) -> Scalar {
    if asked.positive() {
        asked
    } else {
        Scalar { bits: DEFAULT_TOLERANCE_BITS }
    }
}

/// Reads a fill rule from an integer.
pub fn fill_rule_from_integer(i: i32) -> (r: FillRule)
    ensures
        r == fill_rule_of(i),
{
    match i {
        0 => FillRule::EvenOdd,
        1 => FillRule::NonZero,
        _ => FillRule::EvenOdd,
    }
}

/// Reads a sweep direction from an integer.
pub fn orientation_from_integer(i: i32) -> (r: Orientation)
    ensures
        r == orientation_of(i),
{
    match i {
        0 => Orientation::Vertical,
        1 => Orientation::Horizontal,
        _ => Orientation::Vertical,
    }
}

/// Reads a cap from an integer.
pub fn cap_from_integer(i: i32) -> (r: LineCap)
    ensures
        r == cap_of(i),
{
    match i {
        0 => LineCap::Butt,
        1 => LineCap::Round,
        2 => LineCap::Square,
        _ => LineCap::Butt,
    }
}

/// Reads a join from an integer.
pub fn join_from_integer(i: i32) -> (r: LineJoin)
    ensures
        r == join_of(i),
{
    match i {
        0 => LineJoin::Miter,
        1 => LineJoin::MiterClip,
        2 => LineJoin::Bevel,
        3 => LineJoin::Round,
        _ => LineJoin::Miter,
    }
}

/// Reads the options of a fill. The tolerance is always greater than zero.
pub fn fill_options(copts: &CFillOptions) -> (r: FillOptions)
    ensures
        r == (FillOptions {
            tolerance: fill_tolerance_of(copts.tolerance),
            fill_rule: fill_rule_of(copts.fill_rule),
            sweep_orientation: orientation_of(copts.orientation),
        }),
        r.tolerance.positive(),
{
    let tolerance: Scalar = if copts.tolerance.is_positive() {
        copts.tolerance
    } else {
        Scalar::from_bits(DEFAULT_TOLERANCE_BITS)
    };
    FillOptions {
        tolerance,
        fill_rule: fill_rule_from_integer(copts.fill_rule),
        sweep_orientation: orientation_from_integer(copts.orientation),
    }
}

/// Reads the options of a stroke. Width and tolerance are taken as given.
pub fn stroke_options(copts: &CStrokeOptions) -> (r: StrokeOptions)
    ensures
        r == (StrokeOptions {
            start_cap: cap_of(copts.start_cap),
            end_cap: cap_of(copts.end_cap),
            line_join: join_of(copts.join),
            line_width: copts.width,
            tolerance: copts.tolerance,
        }),
{
    StrokeOptions {
        start_cap: cap_from_integer(copts.start_cap),
        end_cap: cap_from_integer(copts.end_cap),
        line_join: join_from_integer(copts.join),
        line_width: copts.width,
        tolerance: copts.tolerance,
    }
}

/// The vertex of a fill at `position`: no normal, and the colour and the two
/// indices of the options, copied as they are.
pub fn fill_vertex(position: LyonPoint, copts: &CFillOptions) -> (r: Vertex)
    ensures
        r == (Vertex {
            position,
            original_position: position,
            normal: LyonVector::zero(),
            color: copts.color,
            primitive_type: PRIMITIVE_TYPE_FILLED,
            fill_ind: copts.fill_ind,
            shape_ind: copts.shape_ind,
        }),
{
    Vertex {
        position,
        original_position: position,
        normal: LyonVector { x: Scalar::zero(), y: Scalar::zero() },
        color: copts.color,
        primitive_type: PRIMITIVE_TYPE_FILLED,
        fill_ind: copts.fill_ind,
        shape_ind: copts.shape_ind,
    }
}

/// The vertex of a stroke at `position` with the given normal, and the
/// colour and the two indices of the options, copied as they are.
pub fn stroke_vertex(position: LyonPoint, normal: LyonVector, copts: &CStrokeOptions) -> (r: Vertex)
    ensures
        r == (Vertex {
            position,
            original_position: position,
            normal,
            color: copts.color,
            primitive_type: PRIMITIVE_TYPE_STROKED,
            fill_ind: copts.fill_ind,
            shape_ind: copts.shape_ind,
        }),
{
    Vertex {
        position,
        original_position: position,
        normal,
        color: copts.color,
        primitive_type: PRIMITIVE_TYPE_STROKED,
        fill_ind: copts.fill_ind,
        shape_ind: copts.shape_ind,
    }
}

/// The output that a tessellation starts with: no vertex, no index.
pub open spec fn empty_mesh(width: IndexWidth) -> Geometry {
    Geometry {
        width,
        vertices: Seq::empty(),
        indices: Seq::empty(),
        first_vertex: 0,
        first_index: 0,
    }
}

/// Why a tessellation gave up.
#[derive(Debug)]
pub enum TessellationError {
    /// The tessellator cannot work with an option or a coordinate; the text
    /// says with which.
    UnsupportedParameter(String),
    /// The output refused a vertex or a triangle.
    GeometryBuilder(GeometryBuilderError),
    /// The tessellator could not make sense of the path; the text says where
    /// it gave up.
    Internal(String),
}

/// What the caller of a tessellation gets.
#[derive(Debug)]
pub enum TessellationReply {
    /// The mesh.
    Geometry(GeometryOutput),
    /// No mesh and no message: the mesh has more vertices than the width of
    /// the indices allows, and the same call with wider indices may succeed.
    TooManyVertices,
    /// No mesh, and the reason in words.
    Failed(String),
}

/// How a stroke begins.
#[derive(Debug)]
pub enum StrokeStart {
    /// The line has no width, so its stroke covers nothing: the reply is the
    /// empty mesh, and the tessellator is not asked.
    Finished(TessellationReply),
    /// The tessellator is to run with these options and to fill this output;
    /// `conclude` then gives the reply.
    Tessellate(StrokeOptions, GeometryOutput),
}

/// Begins a fill: reads the options and makes the empty output that the
/// tessellator is to fill. `conclude` gives the reply when it has run.
pub fn begin_fill(copts: &CFillOptions, width: IndexWidth) -> (r: (FillOptions, GeometryOutput))
    ensures
        r.0 == (FillOptions {
            tolerance: fill_tolerance_of(copts.tolerance),
            fill_rule: fill_rule_of(copts.fill_rule),
            sweep_orientation: orientation_of(copts.orientation),
        }),
        r.1@ == empty_mesh(width),
{
    (fill_options(copts), GeometryOutput::new(width))
}

/// Begins a stroke. If the width of the line is zero, the stroke is finished
/// at once: it is the empty mesh, which has no triangle. For every other width
/// the options are read and the empty output is made that the tessellator is
/// to fill.
pub fn begin_stroke(copts: &CStrokeOptions, width: IndexWidth) -> (r: StrokeStart)
    ensures
        copts.width.equals_zero() ==> (r matches StrokeStart::Finished(
            TessellationReply::Geometry(mesh),
        ) && mesh@ == empty_mesh(width) && mesh@.triangles() == 0),
        !copts.width.equals_zero() ==> (r matches StrokeStart::Tessellate(options, output)
            && options == (StrokeOptions {
            start_cap: cap_of(copts.start_cap),
            end_cap: cap_of(copts.end_cap),
            line_join: join_of(copts.join),
            line_width: copts.width,
            tolerance: copts.tolerance,
        }) && output@ == empty_mesh(width)),
{
    if copts.width.is_zero() {
        StrokeStart::Finished(conclude(Ok(()), GeometryOutput::new(width)))
    } else {
        StrokeStart::Tessellate(stroke_options(copts), GeometryOutput::new(width))
    }
}

/// Decides what the caller gets from the way the tessellation ended. It gets
/// the mesh if the tessellation succeeded. If the output refused a vertex for
/// want of room, it gets neither mesh nor message. Otherwise it gets the
/// reason in words: that of the output for a refused triangle, and
/// otherwise the text that came with the error.
pub fn conclude(outcome: Result<(), TessellationError>, geometry: GeometryOutput) -> (r:
    TessellationReply)
    ensures
        match outcome {
            Ok(_) => r == TessellationReply::Geometry(geometry),
            Err(TessellationError::GeometryBuilder(GeometryBuilderError::TooManyVertices)) => r
                is TooManyVertices,
            Err(TessellationError::GeometryBuilder(GeometryBuilderError::InvalidVertex)) => r
                matches TessellationReply::Failed(text) && text@ == "Invalid vertex"@,
            Err(TessellationError::UnsupportedParameter(reason)) => r
                matches TessellationReply::Failed(text) && text@ == reason@,
            Err(TessellationError::Internal(reason)) => r matches TessellationReply::Failed(text)
                && text@ == reason@,
        },
{
    match outcome {
        Ok(_) => TessellationReply::Geometry(geometry),
        Err(TessellationError::GeometryBuilder(error)) => {
            match error {
                GeometryBuilderError::TooManyVertices => TessellationReply::TooManyVertices,
                GeometryBuilderError::InvalidVertex => TessellationReply::Failed(error.message()),
            }
        },
        Err(TessellationError::UnsupportedParameter(reason)) => TessellationReply::Failed(reason),
        Err(TessellationError::Internal(reason)) => TessellationReply::Failed(reason),
    }
}

} // verus!
