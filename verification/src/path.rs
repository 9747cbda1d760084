//! Verbs, and the immutable path that a builder leaves behind.
//!
//! A path is a sequence of verbs. Its subpaths are not stored apart: each one
//! is the run of verbs from a `Begin` to the next `Close` or `End`. The
//! predicates below say which sequences are made of such runs, and where the
//! pen stands after a sequence.
//!
//! A verb says where it goes, not where it comes from. A walk along the path
//! gives for each verb an event that says both.

use vstd::prelude::*;
use crate::types::{LyonPoint, Scalar};

verus! {

/// One drawing command. `N` is the number of attributes that every endpoint
/// carries; it is fixed for a builder and for the path it builds.
#[derive(Clone, Copy, Debug, PartialEq, Eq)]
pub enum Verb<const N: usize> {
    /// Opens a subpath at `at`.
    Begin { at: LyonPoint, attributes: [Scalar; N] },
    /// A straight segment to `to`.
    LineTo { to: LyonPoint, attributes: [Scalar; N] },
    /// A quadratic curve to `to`, bent towards `ctrl`.
    QuadraticTo { ctrl: LyonPoint, to: LyonPoint, attributes: [Scalar; N] },
    /// A cubic curve to `to`, leaving towards `ctrl1` and arriving from `ctrl2`.
    CubicTo { ctrl1: LyonPoint, ctrl2: LyonPoint, to: LyonPoint, attributes: [Scalar; N] },
    /// Ends the subpath with a segment back to where it began.
    Close,
    /// Ends the subpath and leaves it open.
    End,
}

impl<const N: usize> Verb<N> {
    /// Whether the verb ends a subpath.
    pub open spec fn ends_subpath(self) -> bool {
        self is Close || self is End
    }

    /// Whether the verb is a curve.
    pub open spec fn is_curve(self) -> bool {
        self is QuadraticTo || self is CubicTo
    }

    /// Whether the verb draws a segment, straight or curved.
    pub open spec fn is_segment(self) -> bool {
        self is LineTo || self is QuadraticTo || self is CubicTo
    }
}

/// Whether `next` may stand directly behind `prev`: after the end of a
/// subpath only a `Begin`, inside a subpath anything but a `Begin`.
pub open spec fn may_follow<const N: usize>(prev: Verb<N>, next: Verb<N>) -> bool {
    if prev.ends_subpath() {
        next is Begin
    } else {
        !(next is Begin)
    }
}

/// Whether the verbs are a run of subpaths, the last of which may still be
/// open: the first verb is a `Begin`, and each later verb may follow the one
/// before it.
pub open spec fn well_formed<const N: usize>(verbs: Seq<Verb<N>>) -> bool {
    &&& verbs.len() > 0 ==> verbs[0] is Begin
    &&& forall|i: int| 0 < i < verbs.len() ==> may_follow(verbs[i - 1], #[trigger] verbs[i])
}

/// Whether the last subpath has begun and not ended.
pub open spec fn subpath_open<const N: usize>(verbs: Seq<Verb<N>>) -> bool {
    verbs.len() > 0 && !verbs.last().ends_subpath()
}

/// Whether the verbs are a run of subpaths each of which has ended.
pub open spec fn complete<const N: usize>(verbs: Seq<Verb<N>>) -> bool {
    well_formed(verbs) && !subpath_open(verbs)
}

/// The verbs with the open subpath, if there is one, ended by an `End`.
pub open spec fn ended<const N: usize>(verbs: Seq<Verb<N>>) -> Seq<Verb<N>> {
    if subpath_open(verbs) {
        verbs.push(Verb::End)
    } else {
        verbs
    }
}

/// Where the last subpath began: the point of the last `Begin`, or the
/// origin if nothing has begun.
pub open spec fn start_position<const N: usize>(verbs: Seq<Verb<N>>) -> LyonPoint
    decreases verbs.len(),
{
    if verbs.len() == 0 {
        LyonPoint::origin()
    } else {
        match verbs.last() {
            Verb::Begin { at, .. } => at,
            _ => start_position(verbs.drop_last()),
        }
    }
}

/// Where the pen stands after the verbs: at the endpoint of the last
/// segment; at the start of the subpath that was just begun or closed; where
/// it stood before an `End`; at the origin if there is no verb.
pub open spec fn current_position<const N: usize>(verbs: Seq<Verb<N>>) -> LyonPoint
    decreases verbs.len(),
{
    if verbs.len() == 0 {
        LyonPoint::origin()
    } else {
        match verbs.last() {
            Verb::Begin { at, .. } => at,
            Verb::LineTo { to, .. } => to,
            Verb::QuadraticTo { to, .. } => to,
            Verb::CubicTo { to, .. } => to,
            Verb::Close => start_position(verbs.drop_last()),
            Verb::End => current_position(verbs.drop_last()),
        }
    }
}

/// The number of subpaths: one for each `Begin`.
pub open spec fn subpath_count<const N: usize>(verbs: Seq<Verb<N>>) -> nat
    decreases verbs.len(),
{
    if verbs.len() == 0 {
        0
    } else if verbs.last() is Begin {
        subpath_count(verbs.drop_last()) + 1
    } else {
        subpath_count(verbs.drop_last())
    }
}

/// One step of a walk along a path: a verb together with the points that it
/// starts from.
#[derive(Clone, Copy, Debug, PartialEq, Eq)]
pub enum Event<const N: usize> {
    /// A subpath begins at `at`.
    Begin { at: LyonPoint, attributes: [Scalar; N] },
    /// A straight segment.
    Line { from: LyonPoint, to: LyonPoint, attributes: [Scalar; N] },
    /// A quadratic curve.
    Quadratic { from: LyonPoint, ctrl: LyonPoint, to: LyonPoint, attributes: [Scalar; N] },
    /// A cubic curve.
    Cubic {
        from: LyonPoint,
        ctrl1: LyonPoint,
        ctrl2: LyonPoint,
        to: LyonPoint,
        attributes: [Scalar; N],
    },
    /// The subpath that began at `first` ends at `last`; if `close` is set,
    /// a segment leads from `last` back to `first`.
    End { last: LyonPoint, first: LyonPoint, close: bool },
}

/// The event of the verb at place `i`: the verb itself, and with it the pen
/// and the start of the subpath as they are after the verbs before it.
pub open spec fn event_at<const N: usize>(verbs: Seq<Verb<N>>, i: int) -> Event<N> {
    let before = verbs.take(i);
    match verbs[i] {
        Verb::Begin { at, attributes } => Event::Begin { at, attributes },
        Verb::LineTo { to, attributes } => Event::Line {
            from: current_position(before),
            to,
            attributes,
        },
        Verb::QuadraticTo { ctrl, to, attributes } => Event::Quadratic {
            from: current_position(before),
            ctrl,
            to,
            attributes,
        },
        Verb::CubicTo { ctrl1, ctrl2, to, attributes } => Event::Cubic {
            from: current_position(before),
            ctrl1,
            ctrl2,
            to,
            attributes,
        },
        Verb::Close => Event::End {
            last: current_position(before),
            first: start_position(before),
            close: true,
        },
        Verb::End => Event::End {
            last: current_position(before),
            first: start_position(before),
            close: false,
        },
    }
}

impl<const N: usize> Event<N> {
    /// Where the event sets out.
    pub open spec fn sets_out_from(self) -> LyonPoint {
        match self {
            Event::Begin { at, .. } => at,
            Event::Line { from, .. } => from,
            Event::Quadratic { from, .. } => from,
            Event::Cubic { from, .. } => from,
            Event::End { last, .. } => last,
        }
    }

    /// Where the event leaves the pen.
    pub open spec fn arrives_at(self) -> LyonPoint {
        match self {
            Event::Begin { at, .. } => at,
            Event::Line { to, .. } => to,
            Event::Quadratic { to, .. } => to,
            Event::Cubic { to, .. } => to,
            Event::End { last, first, close } => if close {
                first
            } else {
                last
            },
        }
    }
}

/// How one more verb moves the start of the subpath and the pen.
pub proof fn lemma_positions_after<const N: usize>(verbs: Seq<Verb<N>>, verb: Verb<N>)
    ensures
        start_position(verbs.push(verb)) == match verb {
            Verb::Begin { at, .. } => at,
            _ => start_position(verbs),
        },
        current_position(verbs.push(verb)) == match verb {
            Verb::Begin { at, .. } => at,
            Verb::LineTo { to, .. } => to,
            Verb::QuadraticTo { to, .. } => to,
            Verb::CubicTo { to, .. } => to,
            Verb::Close => start_position(verbs),
            Verb::End => current_position(verbs),
        },
{
    assert(verbs.push(verb).drop_last() == verbs);
}

/// A walk along well-formed verbs is unbroken: every event but a `Begin` sets
/// out from where the event before it arrived.
pub proof fn law_walk_is_unbroken<const N: usize>(verbs: Seq<Verb<N>>, i: int)
    requires
        well_formed(verbs),
        0 < i < verbs.len(),
        !(verbs[i] is Begin),
    ensures
        event_at(verbs, i).sets_out_from() == event_at(verbs, i - 1).arrives_at(),
{
    let before = verbs.take(i);
    assert(before.last() == verbs[i - 1]);
    assert(before.drop_last() =~= verbs.take(i - 1));
    assert(may_follow(verbs[i - 1], verbs[i]));
}

/// The `first` of the event that ends a subpath is where the subpath began:
/// if the verb at `begin` is a `Begin` and no other `Begin` stands between it
/// and the place `end`, the event at `end` has the point of that `Begin` for
/// the start of its subpath.
pub proof fn law_end_names_its_begin<const N: usize>(verbs: Seq<Verb<N>>, begin: int, end: int)
    requires
        0 <= begin < end < verbs.len(),
        verbs[begin] is Begin,
        forall|k: int| begin < k < end ==> !(#[trigger] verbs[k] is Begin),
        verbs[end].ends_subpath(),
    ensures
        event_at(verbs, end) matches Event::End { first, .. } && verbs[begin] matches Verb::Begin {
            at,
            ..
        } && first == at,
{
    lemma_start_of_prefix(verbs, begin, end);
}

/// The start of the subpath after the first `upto` verbs is the point of the
/// last `Begin` among them.
proof fn lemma_start_of_prefix<const N: usize>(verbs: Seq<Verb<N>>, begin: int, upto: int)
    requires
        0 <= begin < upto <= verbs.len(),
        verbs[begin] is Begin,
        forall|k: int| begin < k < upto ==> !(#[trigger] verbs[k] is Begin),
    ensures
        verbs[begin] matches Verb::Begin { at, .. } && start_position(verbs.take(upto)) == at,
    decreases upto - begin,
{
    let prefix = verbs.take(upto);
    assert(prefix.last() == verbs[upto - 1]);
    assert(prefix.drop_last() =~= verbs.take(upto - 1));
    if upto - 1 > begin {
        lemma_start_of_prefix(verbs, begin, upto - 1);
    }
}

/// A subpath ends exactly once before the next begins: in well-formed verbs,
/// between a `Begin` and the next `Begin` stand segments and then one `Close`
/// or `End`, which is the verb just before the next `Begin`.
pub proof fn law_one_end_between_begins<const N: usize>(
    verbs: Seq<Verb<N>>,
    first: int,
    second: int,
)
    requires
        well_formed(verbs),
        0 <= first < second < verbs.len(),
        verbs[first] is Begin,
        verbs[second] is Begin,
        forall|k: int| first < k < second ==> !(#[trigger] verbs[k] is Begin),
    ensures
        first < second - 1,
        verbs[second - 1].ends_subpath(),
        forall|k: int| first < k < second - 1 ==> (#[trigger] verbs[k]).is_segment(),
{
    assert(may_follow(verbs[second - 1], verbs[second]));
    assert forall|k: int| first < k < second - 1 implies (#[trigger] verbs[k]).is_segment() by {
        // If this verb ended the subpath, the next one would be a `Begin`.
        assert(may_follow(verbs[k], verbs[k + 1]));
        assert(!(verbs[k + 1] is Begin));
    }
}

/// An ordered run of subpaths, each begun and ended, that nothing changes
/// once it is built. It is made by `Builder::build` and in no other way.
#[derive(Debug)]
pub struct Path<const N: usize> {
    verbs: Vec<Verb<N>>,
}

impl<const N: usize> View for Path<N> {
    type V = Seq<Verb<N>>;

    closed spec fn view(&self) -> Seq<Verb<N>> {
        self.verbs@
    }
}

impl<const N: usize> Path<N> {
    #[verifier::type_invariant]
    spec fn inv(self) -> bool {
        complete(self.verbs@)
    }

    /// Makes a path of verbs that are already complete.
    pub(crate) fn from_complete(verbs: Vec<Verb<N>>) -> (r: Path<N>)
        requires
            complete(verbs@),
        ensures
            r@ == verbs@,
    {
        Path { verbs }
    }

    /// The number of verbs. Every path is complete.
    pub fn len(&self) -> (r: usize)
        ensures
            r == self@.len(),
            complete(self@),
    {
        proof {
            use_type_invariant(self);
        }
        self.verbs.len()
    }

    /// Whether the path has no verb, and so no subpath.
    pub fn is_empty(&self) -> (r: bool)
        ensures
            r == (self@.len() == 0),
    {
        self.verbs.len() == 0
    }

    /// The verb at `index`, counted from the first verb of the first subpath.
    pub fn verb(&self, index: usize) -> (r: Verb<N>)
        requires
            index < self@.len(),
        ensures
            r == self@[index as int],
    {
        self.verbs[index]
    }

    /// The events of a walk along the path from its first verb to its last,
    /// one for each verb.
    pub fn events(&self) -> (r: Vec<Event<N>>)
        ensures
            r@.len() == self@.len(),
            forall|i: int| 0 <= i < r@.len() ==> #[trigger] r@[i] == event_at(self@, i),
    {
        let n: usize = self.verbs.len();
        let mut events: Vec<Event<N>> = Vec::new();
        let mut start: LyonPoint = LyonPoint { x: Scalar { bits: 0 }, y: Scalar { bits: 0 } };
        let mut current: LyonPoint = start;
        let mut i: usize = 0;
        while i < n
            invariant
                n == self.verbs@.len(),
                i <= n,
                events@.len() == i,
                start == start_position(self.verbs@.take(i as int)),
                current == current_position(self.verbs@.take(i as int)),
                forall|j: int| 0 <= j < i ==> #[trigger] events@[j] == event_at(self.verbs@, j),
            decreases n - i,
        {
            let verb: Verb<N> = self.verbs[i];
            proof {
                assert(self.verbs@.take(i as int + 1) =~= self.verbs@.take(i as int).push(verb));
                lemma_positions_after(self.verbs@.take(i as int), verb);
            }
            let event: Event<N> = match verb {
                Verb::Begin { at, attributes } => Event::Begin { at, attributes },
                Verb::LineTo { to, attributes } => Event::Line { from: current, to, attributes },
                Verb::QuadraticTo { ctrl, to, attributes } => Event::Quadratic {
                    from: current,
                    ctrl,
                    to,
                    attributes,
                },
                Verb::CubicTo { ctrl1, ctrl2, to, attributes } => Event::Cubic {
                    from: current,
                    ctrl1,
                    ctrl2,
                    to,
                    attributes,
                },
                Verb::Close => Event::End { last: current, first: start, close: true },
                Verb::End => Event::End { last: current, first: start, close: false },
            };
            match verb {
                Verb::Begin { at, .. } => {
                    start = at;
                    current = at;
                },
                Verb::LineTo { to, .. } => {
                    current = to;
                },
                Verb::QuadraticTo { to, .. } => {
                    current = to;
                },
                Verb::CubicTo { to, .. } => {
                    current = to;
                },
                Verb::Close => {
                    current = start;
                },
                Verb::End => {},
            }
            events.push(event);
            i = i + 1;
        }
        events
    }

    /// Where the subpath that begins at `begin` ends: the place of the first
    /// `Close` or `End` behind `begin`. Every verb between the two draws a
    /// segment.
    pub fn subpath_end(&self, begin: usize) -> (r: usize)
        requires
            begin < self@.len(),
            self@[begin as int] is Begin,
        ensures
            begin < r < self@.len(),
            self@[r as int].ends_subpath(),
            forall|k: int| begin < k < r ==> (#[trigger] self@[k]).is_segment(),
    {
        proof {
            use_type_invariant(self);
        }
        let n: usize = self.verbs.len();
        let mut i: usize = begin + 1;
        loop
            invariant
                n == self.verbs@.len(),
                complete(self.verbs@),
                begin < i < n,
                self.verbs@[begin as int] is Begin,
                forall|k: int| begin < k < i ==> (#[trigger] self.verbs@[k]).is_segment(),
            ensures
                begin < i < n,
                self.verbs@[i as int].ends_subpath(),
                forall|k: int| begin < k < i ==> (#[trigger] self.verbs@[k]).is_segment(),
            decreases n - i,
        {
            proof {
                // The verb before this one is the `Begin` or a segment, so
                // this one is no `Begin`.
                assert(may_follow(self.verbs@[i - 1], self.verbs@[i as int]));
                if i - 1 > begin {
                    assert(self.verbs@[i - 1].is_segment());
                }
            }
            match self.verbs[i] {
                Verb::Close => {
                    break;
                },
                Verb::End => {
                    break;
                },
                _ => {},
            }
            i = i + 1;
        }
        i
    }

    /// Whether the subpath that begins at `begin` is closed: whether it ends
    /// with a `Close`.
    pub fn is_closed(&self, begin: usize) -> (r: bool)
        requires
            begin < self@.len(),
            self@[begin as int] is Begin,
        ensures
            r == exists|end: int|
                begin < end < self@.len() && self@[end] is Close && forall|k: int|
                    begin < k < end ==> (#[trigger] self@[k]).is_segment(),
    {
        let end: usize = self.subpath_end(begin);
        let closed: bool = match self.verbs[end] {
            Verb::Close => true,
            _ => false,
        };
        proof {
            if !closed {
                // A segment is no `Close`, and the verb at `end` is an `End`:
                // no `Close` can be reached over segments alone.
                assert forall|other: int|
                    begin < other < self@.len() && self@[other] is Close && (forall|k: int|
                        begin < k < other ==> (#[trigger] self@[k]).is_segment()) implies false by {
                    if other < end {
                        assert(self@[other].is_segment());
                    } else if other > end {
                        assert(self@[end as int].is_segment());
                    }
                }
            }
        }
        closed
    }

    /// The number of subpaths.
    pub fn subpaths(&self) -> (r: usize)
        ensures
            r == subpath_count(self@),
    {
        let n: usize = self.verbs.len();
        let mut count: usize = 0;
        let mut i: usize = 0;
        while i < n
            invariant
                n == self.verbs@.len(),
                i <= n,
                count <= i,
                count == subpath_count(self.verbs@.take(i as int)),
            decreases n - i,
        {
            proof {
                let prefix = self.verbs@.take(i as int + 1);
                assert(prefix.drop_last() == self.verbs@.take(i as int));
                assert(prefix.last() == self.verbs@[i as int]);
            }
            match self.verbs[i] {
                Verb::Begin { .. } => {
                    count = count + 1;
                },
                _ => {},
            }
            i = i + 1;
        }
        proof {
            assert(self.verbs@.take(n as int) == self.verbs@);
        }
        count
    }
}

} // verus!
