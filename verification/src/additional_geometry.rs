//! Whole shapes, drawn with the builder's own commands.
//!
//! Each shape is one closed subpath. The rectangle needs nothing but its two
//! corners. The round shapes are drawn from points that their caller has
//! worked out: this crate does no arithmetic on coordinates, it decides which
//! verbs a shape is made of and in what order they go.

use vstd::prelude::*;
use crate::path::{complete, ended, subpath_open, Verb};
use crate::pathbuilder::Builder;
use crate::types::{LyonPoint, Scalar};

verus! {

/// A cubic curve without its starting point: two control points and the
/// point it arrives at.
#[derive(Clone, Copy, Debug, PartialEq, Eq, Structural)]
pub struct CubicArc {
    pub ctrl1: LyonPoint,
    pub ctrl2: LyonPoint,
    pub to: LyonPoint,
}

/// A circle or an ellipse as four cubic curves, one for each quarter turn,
/// going round from `start` and back to it.
#[derive(Clone, Copy, Debug, PartialEq, Eq, Structural)]
pub struct Outline {
    pub start: LyonPoint,
    pub first: CubicArc,
    pub second: CubicArc,
    pub third: CubicArc,
    pub fourth: CubicArc,
}

/// One corner of a rounded rectangle: its radius after clamping, the point
/// `from` where the straight edge before it ends, and the curve that turns
/// the corner from there. A corner whose radius is not positive is sharp:
/// `from` is then the corner itself and the curve is not drawn.
#[derive(Clone, Copy, Debug, PartialEq, Eq, Structural)]
pub struct Corner {
    pub radius: Scalar,
    pub from: LyonPoint,
    pub arc: CubicArc,
}

impl Corner {
    /// The number of curves that turn the corner: one if its radius is
    /// positive, none if it is sharp.
    pub open spec fn curves(self) -> nat {
        if self.radius.positive() {
            1
        } else {
            0
        }
    }
}

/// The four corners of a rounded rectangle, in the order in which they are
/// drawn.
#[derive(Clone, Copy, Debug, PartialEq, Eq, Structural)]
pub struct Corners {
    pub top_left: Corner,
    pub top_right: Corner,
    pub bottom_right: Corner,
    pub bottom_left: Corner,
}

/// The verb that draws `arc`.
pub open spec fn arc_verb<const N: usize>(arc: CubicArc, attributes: [Scalar; N]) -> Verb<N> {
    Verb::CubicTo { ctrl1: arc.ctrl1, ctrl2: arc.ctrl2, to: arc.to, attributes }
}

/// The verbs of the rectangle with opposite corners `min` and `max`: from
/// `(min.x, min.y)` to `(max.x, min.y)`, `(max.x, max.y)` and `(min.x, max.y)`,
/// then closed.
pub open spec fn rectangle_verbs<const N: usize>(
    min: LyonPoint,
    max: LyonPoint,
    attributes: [Scalar; N],
) -> Seq<Verb<N>> {
    seq![
        Verb::Begin { at: LyonPoint { x: min.x, y: min.y }, attributes },
        Verb::LineTo { to: LyonPoint { x: max.x, y: min.y }, attributes },
        Verb::LineTo { to: LyonPoint { x: max.x, y: max.y }, attributes },
        Verb::LineTo { to: LyonPoint { x: min.x, y: max.y }, attributes },
        Verb::Close,
    ]
}

/// The verbs of a circle or an ellipse: exactly four cubic curves, closed.
pub open spec fn outline_verbs<const N: usize>(
    outline: Outline,
    attributes: [Scalar; N],
) -> Seq<Verb<N>> {
    seq![
        Verb::Begin { at: outline.start, attributes },
        arc_verb(outline.first, attributes),
        arc_verb(outline.second, attributes),
        arc_verb(outline.third, attributes),
        arc_verb(outline.fourth, attributes),
        Verb::Close,
    ]
}

/// What turns one corner: its curve if the radius is positive, nothing if
/// the corner is sharp.
pub open spec fn corner_verbs<const N: usize>(
    corner: Corner,
    attributes: [Scalar; N],
) -> Seq<Verb<N>> {
    if corner.radius.positive() {
        seq![arc_verb(corner.arc, attributes)]
    } else {
        Seq::empty()
    }
}

/// The verbs of a rounded rectangle. It begins where the left edge meets the
/// top-left corner, turns that corner, and then for each further corner draws
/// the straight edge up to it and turns it. The closing segment is the left
/// edge.
pub open spec fn rounded_rectangle_verbs<const N: usize>(
    corners: Corners,
    attributes: [Scalar; N],
) -> Seq<Verb<N>> {
    seq![Verb::Begin { at: corners.top_left.from, attributes }]
        + corner_verbs(corners.top_left, attributes)
        + seq![Verb::LineTo { to: corners.top_right.from, attributes }]
        + corner_verbs(corners.top_right, attributes)
        + seq![Verb::LineTo { to: corners.bottom_right.from, attributes }]
        + corner_verbs(corners.bottom_right, attributes)
        + seq![Verb::LineTo { to: corners.bottom_left.from, attributes }]
        + corner_verbs(corners.bottom_left, attributes)
        + seq![Verb::Close]
}

/// The number of corners with a positive radius.
pub open spec fn rounded_corner_count(corners: Corners) -> nat {
    corners.top_left.curves() + corners.top_right.curves() + corners.bottom_right.curves()
        + corners.bottom_left.curves()
}

/// The number of curves among the verbs.
pub open spec fn curve_count<const N: usize>(verbs: Seq<Verb<N>>) -> nat
    decreases verbs.len(),
{
    if verbs.len() == 0 {
        0
    } else if verbs.last().is_curve() {
        curve_count(verbs.drop_last()) + 1
    } else {
        curve_count(verbs.drop_last())
    }
}

/// Turns one corner: draws its curve if its radius is positive.
fn turn_corner<const N: usize>(builder: &mut Builder<N>, corner: Corner, attributes: [Scalar; N])
    requires
        subpath_open(old(builder)@),
    ensures
        final(builder)@ == old(builder)@ + corner_verbs(corner, attributes),
        subpath_open(final(builder)@),
{
    if corner.radius.is_positive() {
        builder.cubic_to(corner.arc.ctrl1, corner.arc.ctrl2, corner.arc.to, attributes);
    }
    assert(builder@ =~= old(builder)@ + corner_verbs(corner, attributes));
}

/// Draws the rectangle with opposite corners `min` and `max` as one closed
/// subpath of four points. A subpath that was open is ended first.
pub fn add_rectangle<const N: usize>(
    builder: &mut Builder<N>,
    min: LyonPoint,
    max: LyonPoint,
    attributes: [Scalar; N],
)
    ensures
        final(builder)@ == ended(old(builder)@) + rectangle_verbs(min, max, attributes),
        complete(final(builder)@),
{
    builder.begin(LyonPoint { x: min.x, y: min.y }, attributes);
    builder.line_to(LyonPoint { x: max.x, y: min.y }, attributes);
    builder.line_to(LyonPoint { x: max.x, y: max.y }, attributes);
    builder.line_to(LyonPoint { x: min.x, y: max.y }, attributes);
    builder.close();
    assert(builder@ =~= ended(old(builder)@) + rectangle_verbs(min, max, attributes));
}

/// Draws the four curves of `outline` as one closed subpath.
fn add_outline<const N: usize>(builder: &mut Builder<N>, outline: Outline, attributes: [Scalar; N])
    ensures
        final(builder)@ == ended(old(builder)@) + outline_verbs(outline, attributes),
        complete(final(builder)@),
{
    builder.begin(outline.start, attributes);
    builder.cubic_to(outline.first.ctrl1, outline.first.ctrl2, outline.first.to, attributes);
    builder.cubic_to(outline.second.ctrl1, outline.second.ctrl2, outline.second.to, attributes);
    builder.cubic_to(outline.third.ctrl1, outline.third.ctrl2, outline.third.to, attributes);
    builder.cubic_to(outline.fourth.ctrl1, outline.fourth.ctrl2, outline.fourth.to, attributes);
    builder.close();
    assert(builder@ =~= ended(old(builder)@) + outline_verbs(outline, attributes));
}

/// Draws a circle as one closed subpath of exactly four cubic curves, one
/// for each quarter turn. A subpath that was open is ended first.
pub fn add_circle<const N: usize>(
    builder: &mut Builder<N>,
    outline: Outline,
    attributes: [Scalar; N],
)
    ensures
        final(builder)@ == ended(old(builder)@) + outline_verbs(outline, attributes),
        complete(final(builder)@),
{
    add_outline(builder, outline, attributes);
}

/// Draws an ellipse as one closed subpath of exactly four cubic curves, one
/// for each quarter turn. A subpath that was open is ended first.
pub fn add_ellipse<const N: usize>(
    builder: &mut Builder<N>,
    outline: Outline,
    attributes: [Scalar; N],
)
    ensures
        final(builder)@ == ended(old(builder)@) + outline_verbs(outline, attributes),
        complete(final(builder)@),
{
    add_outline(builder, outline, attributes);
}

/// Draws a rounded rectangle as one closed subpath: a cubic curve at each
/// corner whose radius is positive, a sharp turn at each other corner, and
/// straight edges between them. A subpath that was open is ended first.
pub fn add_rounded_rectangle<const N: usize>(
    builder: &mut Builder<N>,
    corners: Corners,
    attributes: [Scalar; N],
)
    ensures
        final(builder)@ == ended(old(builder)@) + rounded_rectangle_verbs(corners, attributes),
        complete(final(builder)@),
{
    let ghost base = ended(builder@);
    let ghost begin = seq![Verb::Begin { at: corners.top_left.from, attributes }];
    let ghost c0 = corner_verbs(corners.top_left, attributes);
    let ghost e1 = seq![Verb::LineTo { to: corners.top_right.from, attributes }];
    let ghost c1 = corner_verbs(corners.top_right, attributes);
    let ghost e2 = seq![Verb::LineTo { to: corners.bottom_right.from, attributes }];
    let ghost c2 = corner_verbs(corners.bottom_right, attributes);
    let ghost e3 = seq![Verb::LineTo { to: corners.bottom_left.from, attributes }];
    let ghost c3 = corner_verbs(corners.bottom_left, attributes);
    builder.begin(corners.top_left.from, attributes);
    assert(builder@ =~= base + begin);
    turn_corner(builder, corners.top_left, attributes);
    assert(builder@ =~= base + (begin + c0));
    builder.line_to(corners.top_right.from, attributes);
    assert(builder@ =~= base + (begin + c0 + e1));
    turn_corner(builder, corners.top_right, attributes);
    assert(builder@ =~= base + (begin + c0 + e1 + c1));
    builder.line_to(corners.bottom_right.from, attributes);
    assert(builder@ =~= base + (begin + c0 + e1 + c1 + e2));
    turn_corner(builder, corners.bottom_right, attributes);
    assert(builder@ =~= base + (begin + c0 + e1 + c1 + e2 + c2));
    builder.line_to(corners.bottom_left.from, attributes);
    assert(builder@ =~= base + (begin + c0 + e1 + c1 + e2 + c2 + e3));
    turn_corner(builder, corners.bottom_left, attributes);
    assert(builder@ =~= base + (begin + c0 + e1 + c1 + e2 + c2 + e3 + c3));
    builder.close();
    assert(builder@ =~= base + (begin + c0 + e1 + c1 + e2 + c2 + e3 + c3 + seq![Verb::Close]));
}

/// A rounded rectangle none of whose corners has a positive radius is a sharp
/// rectangle: five verbs, none of them a curve.
pub proof fn law_sharp_corners_draw_no_curve<const N: usize>(
    corners: Corners,
    attributes: [Scalar; N],
)
    requires
        !corners.top_left.radius.positive(),
        !corners.top_right.radius.positive(),
        !corners.bottom_right.radius.positive(),
        !corners.bottom_left.radius.positive(),
    ensures
        rounded_rectangle_verbs(corners, attributes) =~= seq![
            Verb::Begin { at: corners.top_left.from, attributes },
            Verb::LineTo { to: corners.top_right.from, attributes },
            Verb::LineTo { to: corners.bottom_right.from, attributes },
            Verb::LineTo { to: corners.bottom_left.from, attributes },
            Verb::Close,
        ],
        forall|i: int|
            0 <= i < rounded_rectangle_verbs(corners, attributes).len()
                ==> !(#[trigger] rounded_rectangle_verbs(corners, attributes)[i]).is_curve(),
{
}

/// A rounded rectangle has one curve for each corner with a positive radius,
/// and besides the curves the five verbs of the sharp rectangle.
pub proof fn law_one_curve_for_each_rounded_corner<const N: usize>(
    corners: Corners,
    attributes: [Scalar; N],
)
    ensures
        rounded_rectangle_verbs(corners, attributes).len() == 5 + rounded_corner_count(corners),
        curve_count(rounded_rectangle_verbs(corners, attributes)) == rounded_corner_count(corners),
{
    let begin = seq![Verb::Begin { at: corners.top_left.from, attributes }];
    let c0 = corner_verbs(corners.top_left, attributes);
    let e1 = seq![Verb::LineTo { to: corners.top_right.from, attributes }];
    let c1 = corner_verbs(corners.top_right, attributes);
    let e2 = seq![Verb::LineTo { to: corners.bottom_right.from, attributes }];
    let c2 = corner_verbs(corners.bottom_right, attributes);
    let e3 = seq![Verb::LineTo { to: corners.bottom_left.from, attributes }];
    let c3 = corner_verbs(corners.bottom_left, attributes);
    let close = seq![Verb::<N>::Close];
    lemma_curve_count_of_one(begin[0]);
    lemma_curve_count_of_one(e1[0]);
    lemma_curve_count_of_one(e2[0]);
    lemma_curve_count_of_one(e3[0]);
    lemma_curve_count_of_one(close[0]);
    lemma_curve_count_of_corner(corners.top_left, attributes);
    lemma_curve_count_of_corner(corners.top_right, attributes);
    lemma_curve_count_of_corner(corners.bottom_right, attributes);
    lemma_curve_count_of_corner(corners.bottom_left, attributes);
    assert(begin =~= seq![begin[0]]);
    assert(e1 =~= seq![e1[0]]);
    assert(e2 =~= seq![e2[0]]);
    assert(e3 =~= seq![e3[0]]);
    assert(close =~= seq![close[0]]);
    lemma_curve_count_of_parts(begin, c0);
    lemma_curve_count_of_parts(begin + c0, e1);
    lemma_curve_count_of_parts(begin + c0 + e1, c1);
    lemma_curve_count_of_parts(begin + c0 + e1 + c1, e2);
    lemma_curve_count_of_parts(begin + c0 + e1 + c1 + e2, c2);
    lemma_curve_count_of_parts(begin + c0 + e1 + c1 + e2 + c2, e3);
    lemma_curve_count_of_parts(begin + c0 + e1 + c1 + e2 + c2 + e3, c3);
    lemma_curve_count_of_parts(begin + c0 + e1 + c1 + e2 + c2 + e3 + c3, close);
}

/// A single verb counts as one curve if it is a curve, and as none if not.
proof fn lemma_curve_count_of_one<const N: usize>(verb: Verb<N>)
    ensures
        curve_count(seq![verb]) == if verb.is_curve() {
            1nat
        } else {
            0nat
        },
{
    reveal_with_fuel(curve_count, 2);
    assert(seq![verb].drop_last() =~= Seq::<Verb<N>>::empty());
}

/// A corner counts as one curve if its radius is positive, and as none if
/// it is sharp.
proof fn lemma_curve_count_of_corner<const N: usize>(corner: Corner, attributes: [Scalar; N])
    ensures
        curve_count(corner_verbs(corner, attributes)) == corner.curves(),
{
    if corner.radius.positive() {
        lemma_curve_count_of_one(arc_verb(corner.arc, attributes));
    }
}

/// The curves of two runs of verbs, one after the other, are those of the
/// first and those of the second.
proof fn lemma_curve_count_of_parts<const N: usize>(a: Seq<Verb<N>>, b: Seq<Verb<N>>)
    ensures
        curve_count(a + b) == curve_count(a) + curve_count(b),
    decreases b.len(),
{
    if b.len() == 0 {
        assert(a + b =~= a);
    } else {
        assert((a + b).drop_last() =~= a + b.drop_last());
        lemma_curve_count_of_parts(a, b.drop_last());
    }
}

} // verus!
