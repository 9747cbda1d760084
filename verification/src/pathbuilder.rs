//! The builder: it takes drawing commands one by one and leaves a path.
//!
//! A builder is described by the verbs it has taken so far. Where the pen
//! stands, where the subpath began and whether a subpath is open all follow
//! from those verbs (see `crate::path`); the builder keeps the two points at
//! hand so that no command has to look back.
//!
//! The builder does no arithmetic on coordinates. A command that is given by
//! offsets from the pen, or an arc, is worked out by its caller, who then
//! gives the commands below with the points it has found. For a smooth curve
//! the builder says which point is to be mirrored and decides whether the
//! mirror image is used; the caller mirrors.

use vstd::prelude::*;
use crate::path::{
    complete, current_position, ended, lemma_positions_after, may_follow, start_position,
    subpath_open, well_formed, Path, Verb,
};
use crate::types::{LyonPoint, Scalar};

verus! {

/// The two flags of an arc given by its endpoints: whether the arc spans more
/// than half a turn, and whether it is drawn in the direction of growing
/// angles.
#[derive(Clone, Copy, Debug, PartialEq, Eq, Structural)]
pub struct ArcFlags {
    pub large_arc: bool,
    pub sweep: bool,
}

/// Reads one arc flag from an integer: 1 sets it, every other value leaves
/// it clear.
pub fn arc_flag_from_integer(i: i32) -> (r: bool)
    ensures
        r == (i == 1),
{
    i == 1
}

impl ArcFlags {
    /// Reads both flags of an arc from integers.
    pub fn from_integers(large_arc: i32, sweep: i32) -> (r: ArcFlags)
        ensures
            r.large_arc == (large_arc == 1),
            r.sweep == (sweep == 1),
    {
        ArcFlags { large_arc: arc_flag_from_integer(large_arc), sweep: arc_flag_from_integer(sweep) }
    }
}

/// The control point that a smooth quadratic curve mirrors: that of the
/// last verb, if the last verb is a quadratic curve.
pub open spec fn quadratic_control<const N: usize>(verbs: Seq<Verb<N>>) -> Option<LyonPoint> {
    if verbs.len() == 0 {
        None
    } else {
        match verbs.last() {
            Verb::QuadraticTo { ctrl, .. } => Some(ctrl),
            _ => None,
        }
    }
}

/// The control point that a smooth cubic curve mirrors: the second one of
/// the last verb, if the last verb is a cubic curve.
pub open spec fn cubic_control<const N: usize>(verbs: Seq<Verb<N>>) -> Option<LyonPoint> {
    if verbs.len() == 0 {
        None
    } else {
        match verbs.last() {
            Verb::CubicTo { ctrl2, .. } => Some(ctrl2),
            _ => None,
        }
    }
}

/// The control point of a smooth quadratic curve drawn after the verbs:
/// `mirrored` if the last verb is a quadratic curve, and the pen if not.
pub open spec fn smooth_quadratic_control<const N: usize>(
    verbs: Seq<Verb<N>>,
    mirrored: LyonPoint,
) -> LyonPoint {
    if quadratic_control(verbs) is Some {
        mirrored
    } else {
        current_position(verbs)
    }
}

/// The first control point of a smooth cubic curve drawn after the verbs:
/// `mirrored` if the last verb is a cubic curve, and the pen if not.
pub open spec fn smooth_cubic_control<const N: usize>(
    verbs: Seq<Verb<N>>,
    mirrored: LyonPoint,
) -> LyonPoint {
    if cubic_control(verbs) is Some {
        mirrored
    } else {
        current_position(verbs)
    }
}

/// Accumulates verbs. Its view is the sequence of verbs taken so far, which
/// is well formed at every moment.
#[derive(Debug)]
pub struct Builder<const N: usize> {
    verbs: Vec<Verb<N>>,
    start: LyonPoint,
    current: LyonPoint,
}

impl<const N: usize> View for Builder<N> {
    type V = Seq<Verb<N>>;

    closed spec fn view(&self) -> Seq<Verb<N>> {
        self.verbs@
    }
}

impl<const N: usize> Builder<N> {
    #[verifier::type_invariant]
    spec fn inv(self) -> bool {
        &&& well_formed(self.verbs@)
        &&& self.start == start_position(self.verbs@)
        &&& self.current == current_position(self.verbs@)
    }

    /// A builder that has taken no verb. Its pen rests at the origin.
    pub fn new() -> (r: Builder<N>)
        ensures
            r@ == Seq::<Verb<N>>::empty(),
    {
        Builder {
            verbs: Vec::new(),
            start: LyonPoint { x: Scalar { bits: 0 }, y: Scalar { bits: 0 } },
            current: LyonPoint { x: Scalar { bits: 0 }, y: Scalar { bits: 0 } },
        }
    }

    /// Takes one verb that may stand behind the verbs taken so far.
    fn append(&mut self, verb: Verb<N>)
        requires
            old(self)@.len() == 0 ==> verb is Begin,
            old(self)@.len() > 0 ==> may_follow(old(self)@.last(), verb),
        ensures
            final(self)@ == old(self)@.push(verb),
            well_formed(final(self)@),
            !(verb is Begin) ==> start_position(final(self)@) == start_position(old(self)@),
    {
        proof {
            use_type_invariant(&*self);
        }
        let mut taken: Builder<N> = Builder::new();
        std::mem::swap(self, &mut taken);
        let Builder { verbs, start, current } = taken;
        let mut verbs: Vec<Verb<N>> = verbs;
        let ghost before = verbs@;
        let (start, current): (LyonPoint, LyonPoint) = match verb {
            Verb::Begin { at, .. } => (at, at),
            Verb::LineTo { to, .. } => (start, to),
            Verb::QuadraticTo { to, .. } => (start, to),
            Verb::CubicTo { to, .. } => (start, to),
            Verb::Close => (start, start),
            Verb::End => (start, current),
        };
        verbs.push(verb);
        proof {
            lemma_positions_after(before, verb);
            assert forall|i: int| 0 < i < verbs@.len() implies may_follow(
                verbs@[i - 1],
                #[trigger] verbs@[i],
            ) by {
                if i < before.len() {
                    assert(verbs@[i] == before[i]);
                    assert(verbs@[i - 1] == before[i - 1]);
                }
            }
        }
        *self = Builder { verbs, start, current };
    }

    /// Whether a subpath has begun and not ended.
    pub fn is_open(&self) -> (r: bool)
        ensures
            r == subpath_open(self@),
    {
        let n: usize = self.verbs.len();
        if n == 0 {
            false
        } else {
            match self.verbs[n - 1] {
                Verb::Close => false,
                Verb::End => false,
                _ => true,
            }
        }
    }

    /// The number of verbs taken so far. They are well formed.
    pub fn len(&self) -> (r: usize)
        ensures
            r == self@.len(),
            well_formed(self@),
    {
        proof {
            use_type_invariant(self);
        }
        self.verbs.len()
    }

    /// Where the pen stands.
    pub fn current_position(&self) -> (r: LyonPoint)
        ensures
            r == current_position(self@),
    {
        proof {
            use_type_invariant(self);
        }
        self.current
    }

    /// Where the last subpath began.
    pub fn start_position(&self) -> (r: LyonPoint)
        ensures
            r == start_position(self@),
    {
        proof {
            use_type_invariant(self);
        }
        self.start
    }

    /// Opens a subpath at `at`. A subpath that is still open is ended first
    /// and left open. The pen and the start of the subpath are then at `at`.
    pub fn begin(&mut self, at: LyonPoint, attributes: [Scalar; N])
        ensures
            final(self)@ == ended(old(self)@).push(Verb::Begin { at, attributes }),
            well_formed(final(self)@),
            subpath_open(final(self)@),
            current_position(final(self)@) == at,
            start_position(final(self)@) == at,
    {
        if self.is_open() {
            self.append(Verb::End);
        }
        self.append(Verb::Begin { at, attributes });
    }

    /// Draws a straight segment from the pen to `to`.
    pub fn line_to(&mut self, to: LyonPoint, attributes: [Scalar; N])
        requires
            subpath_open(old(self)@),
        ensures
            final(self)@ == old(self)@.push(Verb::LineTo { to, attributes }),
            well_formed(final(self)@),
            subpath_open(final(self)@),
            start_position(final(self)@) == start_position(old(self)@),
            current_position(final(self)@) == to,
    {
        self.append(Verb::LineTo { to, attributes });
    }

    /// Draws a straight segment to the point with abscissa `x` at the height
    /// of the pen.
    pub fn horizontal_line_to(&mut self, x: Scalar, attributes: [Scalar; N])
        requires
            subpath_open(old(self)@),
        ensures
            final(self)@ == old(self)@.push(
                Verb::LineTo {
                    to: LyonPoint { x, y: current_position(old(self)@).y },
                    attributes,
                },
            ),
            well_formed(final(self)@),
            subpath_open(final(self)@),
            start_position(final(self)@) == start_position(old(self)@),
    {
        let y: Scalar = self.current_position().y;
        self.append(Verb::LineTo { to: LyonPoint { x, y }, attributes });
    }

    /// Draws a straight segment to the point with ordinate `y` straight above
    /// or below the pen.
    pub fn vertical_line_to(&mut self, y: Scalar, attributes: [Scalar; N])
        requires
            subpath_open(old(self)@),
        ensures
            final(self)@ == old(self)@.push(
                Verb::LineTo {
                    to: LyonPoint { x: current_position(old(self)@).x, y },
                    attributes,
                },
            ),
            well_formed(final(self)@),
            subpath_open(final(self)@),
            start_position(final(self)@) == start_position(old(self)@),
    {
        let x: Scalar = self.current_position().x;
        self.append(Verb::LineTo { to: LyonPoint { x, y }, attributes });
    }

    /// Draws a quadratic curve from the pen to `to`.
    pub fn quadratic_to(&mut self, ctrl: LyonPoint, to: LyonPoint, attributes: [Scalar; N])
        requires
            subpath_open(old(self)@),
        ensures
            final(self)@ == old(self)@.push(Verb::QuadraticTo { ctrl, to, attributes }),
            well_formed(final(self)@),
            subpath_open(final(self)@),
            start_position(final(self)@) == start_position(old(self)@),
            current_position(final(self)@) == to,
    {
        self.append(Verb::QuadraticTo { ctrl, to, attributes });
    }

    /// Draws a cubic curve from the pen to `to`.
    pub fn cubic_to(
        &mut self,
        ctrl1: LyonPoint,
        ctrl2: LyonPoint,
        to: LyonPoint,
        attributes: [Scalar; N],
    )
        requires
            subpath_open(old(self)@),
        ensures
            final(self)@ == old(self)@.push(Verb::CubicTo { ctrl1, ctrl2, to, attributes }),
            well_formed(final(self)@),
            subpath_open(final(self)@),
            start_position(final(self)@) == start_position(old(self)@),
            current_position(final(self)@) == to,
    {
        self.append(Verb::CubicTo { ctrl1, ctrl2, to, attributes });
    }

    /// The point that a smooth quadratic curve drawn next mirrors through the
    /// pen to get its control point. There is one only if the last verb is a
    /// quadratic curve.
    pub fn quadratic_control(&self) -> (r: Option<LyonPoint>)
        ensures
            r == quadratic_control(self@),
    {
        let n: usize = self.verbs.len();
        if n == 0 {
            None
        } else {
            match self.verbs[n - 1] {
                Verb::QuadraticTo { ctrl, .. } => Some(ctrl),
                _ => None,
            }
        }
    }

    /// The point that a smooth cubic curve drawn next mirrors through the pen
    /// to get its first control point. There is one only if the last verb is
    /// a cubic curve.
    pub fn cubic_control(&self) -> (r: Option<LyonPoint>)
        ensures
            r == cubic_control(self@),
    {
        let n: usize = self.verbs.len();
        if n == 0 {
            None
        } else {
            match self.verbs[n - 1] {
                Verb::CubicTo { ctrl2, .. } => Some(ctrl2),
                _ => None,
            }
        }
    }

    /// Draws a quadratic curve to `to` that leaves the pen the way the curve
    /// before it arrived. `mirrored` is the mirror image, through the pen, of
    /// the point that `quadratic_control` returns; it is the control point if
    /// the last verb is a quadratic curve. If not, `mirrored` is not looked at
    /// and the control point is the pen, which makes the curve a straight
    /// line.
    pub fn smooth_quadratic_to(
        &mut self,
        mirrored: LyonPoint,
        to: LyonPoint,
        attributes: [Scalar; N],
    )
        requires
            subpath_open(old(self)@),
        ensures
            final(self)@ == old(self)@.push(
                Verb::QuadraticTo {
                    ctrl: smooth_quadratic_control(old(self)@, mirrored),
                    to,
                    attributes,
                },
            ),
            well_formed(final(self)@),
            subpath_open(final(self)@),
            start_position(final(self)@) == start_position(old(self)@),
            current_position(final(self)@) == to,
    {
        let ctrl: LyonPoint = match self.quadratic_control() {
            Some(_) => mirrored,
            None => self.current_position(),
        };
        self.quadratic_to(ctrl, to, attributes);
    }

    /// Draws a cubic curve to `to` that leaves the pen the way the curve
    /// before it arrived. `mirrored` is the mirror image, through the pen, of
    /// the point that `cubic_control` returns; it is the first control point
    /// if the last verb is a cubic curve. If not, `mirrored` is not looked at
    /// and the first control point is the pen.
    pub fn smooth_cubic_to(
        &mut self,
        mirrored: LyonPoint,
        ctrl2: LyonPoint,
        to: LyonPoint,
        attributes: [Scalar; N],
    )
        requires
            subpath_open(old(self)@),
        ensures
            final(self)@ == old(self)@.push(
                Verb::CubicTo {
                    ctrl1: smooth_cubic_control(old(self)@, mirrored),
                    ctrl2,
                    to,
                    attributes,
                },
            ),
            well_formed(final(self)@),
            subpath_open(final(self)@),
            start_position(final(self)@) == start_position(old(self)@),
            current_position(final(self)@) == to,
    {
        let ctrl1: LyonPoint = match self.cubic_control() {
            Some(_) => mirrored,
            None => self.current_position(),
        };
        self.cubic_to(ctrl1, ctrl2, to, attributes);
    }

    /// Ends the subpath with a segment back to its start, where the pen then
    /// stands.
    pub fn close(&mut self)
        requires
            subpath_open(old(self)@),
        ensures
            final(self)@ == old(self)@.push(Verb::Close),
            complete(final(self)@),
            start_position(final(self)@) == start_position(old(self)@),
            current_position(final(self)@) == start_position(old(self)@),
    {
        proof {
            lemma_positions_after(self@, Verb::<N>::Close);
        }
        self.append(Verb::Close);
    }

    /// Ends the subpath: as `close` does if `close` is set, and otherwise
    /// without a closing segment, the pen staying where it is.
    pub fn end(&mut self, close: bool)
        requires
            subpath_open(old(self)@),
        ensures
            final(self)@ == old(self)@.push(
                if close {
                    Verb::Close
                } else {
                    Verb::End
                },
            ),
            complete(final(self)@),
            start_position(final(self)@) == start_position(old(self)@),
            current_position(final(self)@) == if close {
                start_position(old(self)@)
            } else {
                current_position(old(self)@)
            },
    {
        proof {
            lemma_positions_after(self@, Verb::<N>::Close);
            lemma_positions_after(self@, Verb::<N>::End);
        }
        if close {
            self.append(Verb::Close);
        } else {
            self.append(Verb::End);
        }
    }

    /// Makes room for the verbs of `endpoints` endpoints, as far as memory
    /// allows. A verb holds its control points, so `control_points` asks for
    /// nothing more. No verb is added or changed.
    pub fn reserve(&mut self, endpoints: usize, control_points: usize)
        ensures
            final(self)@ == old(self)@,
    {
        proof {
            use_type_invariant(&*self);
        }
        let mut taken: Builder<N> = Builder::new();
        std::mem::swap(self, &mut taken);
        let Builder { verbs, start, current } = taken;
        let mut verbs: Vec<Verb<N>> = verbs;
        let _ = verbs.try_reserve(endpoints);
        *self = Builder { verbs, start, current };
    }

    /// Ends the open subpath, if there is one, and hands the verbs over as a
    /// path. The builder is gone after this: the path holds what was drawn
    /// before the call and nothing can be drawn into it later.
    pub fn build(self) -> (path: Path<N>)
        ensures
            path@ == ended(self@),
            complete(path@),
    {
        proof {
            use_type_invariant(&self);
        }
        let open: bool = self.is_open();
        let Builder { verbs, .. } = self;
        let mut verbs: Vec<Verb<N>> = verbs;
        if open {
            let ghost before = verbs@;
            verbs.push(Verb::End);
            proof {
                assert forall|i: int| 0 < i < verbs@.len() implies may_follow(
                    verbs@[i - 1],
                    #[trigger] verbs@[i],
                ) by {
                    if i < before.len() {
                        assert(verbs@[i] == before[i]);
                        assert(verbs@[i - 1] == before[i - 1]);
                    }
                }
            }
        }
        Path::from_complete(verbs)
    }
}

} // verus!
