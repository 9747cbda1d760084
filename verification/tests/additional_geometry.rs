use lyon_front::additional_geometry::{
    add_circle, add_ellipse, add_rectangle, add_rounded_rectangle, Corner, Corners, CubicArc, Outline,
};
use lyon_front::path::{Path, Verb};
use lyon_front::pathbuilder::Builder;
use lyon_front::types::{LyonPoint, Scalar};

fn scalar(value: f32) -> Scalar {
    Scalar::from_bits(value.to_bits())
}

fn pt(x: f32, y: f32) -> LyonPoint {
    LyonPoint::new(scalar(x), scalar(y))
}

fn verbs<const N: usize>(path: &Path<N>) -> Vec<Verb<N>> {
    (0..path.len()).map(|i| path.verb(i)).collect()
}

fn arc(ctrl1: LyonPoint, ctrl2: LyonPoint, to: LyonPoint) -> CubicArc {
    CubicArc { ctrl1, ctrl2, to }
}

fn curves<const N: usize>(path: &Path<N>) -> usize {
    verbs(path)
        .iter()
        .filter(|verb| matches!(verb, Verb::QuadraticTo { .. } | Verb::CubicTo { .. }))
        .count()
}

/// The circle around (cx, cy), worked out as its callers do.
fn circle(cx: f32, cy: f32, radius: f32) -> Outline {
    let d = radius * 0.55191505;
    Outline {
        start: pt(cx - radius, cy),
        first: arc(pt(cx - radius, cy - d), pt(cx - d, cy - radius), pt(cx, cy - radius)),
        second: arc(pt(cx + d, cy - radius), pt(cx + radius, cy - d), pt(cx + radius, cy)),
        third: arc(pt(cx + radius, cy + d), pt(cx + d, cy + radius), pt(cx, cy + radius)),
        fourth: arc(pt(cx - d, cy + radius), pt(cx - radius, cy + d), pt(cx - radius, cy)),
    }
}

/// The corners of the rectangle from (x0, y0) to (x1, y1) with one radius for
/// each corner, worked out as its callers do.
fn corners(x0: f32, y0: f32, x1: f32, y1: f32, tl: f32, tr: f32, br: f32, bl: f32) -> Corners {
    let k = 0.55191505;
    Corners {
        top_left: Corner {
            radius: scalar(tl),
            from: pt(x0, y0 + tl),
            arc: arc(pt(x0, y0 + tl - tl * k), pt(x0 + tl - tl * k, y0), pt(x0 + tl, y0)),
        },
        top_right: Corner {
            radius: scalar(tr),
            from: pt(x1 - tr, y0),
            arc: arc(pt(x1 - tr + tr * k, y0), pt(x1, y0 + tr - tr * k), pt(x1, y0 + tr)),
        },
        bottom_right: Corner {
            radius: scalar(br),
            from: pt(x1, y1 - br),
            arc: arc(pt(x1, y1 - br + br * k), pt(x1 - br + br * k, y1), pt(x1 - br, y1)),
        },
        bottom_left: Corner {
            radius: scalar(bl),
            from: pt(x0 + bl, y1),
            arc: arc(pt(x0 + bl - bl * k, y1), pt(x0, y1 - bl + bl * k), pt(x0, y1 - bl)),
        },
    }
}

#[test]
fn rectangle_is_four_points_in_order_and_closed() {
    let mut builder: Builder<0> = Builder::new();
    add_rectangle(&mut builder, pt(1.0, 2.0), pt(5.0, 8.0), []);
    assert!(!builder.is_open());
    assert_eq!(builder.current_position(), pt(1.0, 2.0));
    let path = builder.build();
    assert_eq!(
        verbs(&path),
        vec![
            Verb::Begin { at: pt(1.0, 2.0), attributes: [] },
            Verb::LineTo { to: pt(5.0, 2.0), attributes: [] },
            Verb::LineTo { to: pt(5.0, 8.0), attributes: [] },
            Verb::LineTo { to: pt(1.0, 8.0), attributes: [] },
            Verb::Close,
        ]
    );
    assert_eq!(path.subpaths(), 1);
}

#[test]
fn rectangle_with_no_area_is_still_drawn() {
    let mut builder: Builder<0> = Builder::new();
    add_rectangle(&mut builder, pt(3.0, 3.0), pt(3.0, 3.0), []);
    let path = builder.build();
    assert_eq!(path.len(), 5);
    assert_eq!(path.verb(0), Verb::Begin { at: pt(3.0, 3.0), attributes: [] });
    assert_eq!(path.verb(2), Verb::LineTo { to: pt(3.0, 3.0), attributes: [] });
}

#[test]
fn shape_ends_a_subpath_that_is_still_open() {
    let mut builder: Builder<0> = Builder::new();
    builder.begin(pt(0.0, 0.0), []);
    builder.line_to(pt(9.0, 9.0), []);
    add_rectangle(&mut builder, pt(1.0, 2.0), pt(5.0, 8.0), []);
    let path = builder.build();
    assert_eq!(path.len(), 8);
    assert_eq!(path.verb(2), Verb::End);
    assert_eq!(path.verb(3), Verb::Begin { at: pt(1.0, 2.0), attributes: [] });
    assert_eq!(path.verb(7), Verb::Close);
    assert_eq!(path.subpaths(), 2);
}

#[test]
fn rectangle_carries_its_attributes_on_every_corner() {
    let mut builder: Builder<1> = Builder::new();
    add_rectangle(&mut builder, pt(0.0, 0.0), pt(1.0, 1.0), [scalar(7.0)]);
    let path = builder.build();
    assert_eq!(path.verb(0), Verb::Begin { at: pt(0.0, 0.0), attributes: [scalar(7.0)] });
    assert_eq!(path.verb(3), Verb::LineTo { to: pt(0.0, 1.0), attributes: [scalar(7.0)] });
}

#[test]
fn circle_is_four_cubic_curves_and_closed() {
    let outline = circle(10.0, 20.0, 5.0);
    let mut builder: Builder<0> = Builder::new();
    add_circle(&mut builder, outline, []);
    assert_eq!(builder.current_position(), pt(5.0, 20.0));
    let path = builder.build();
    assert_eq!(
        verbs(&path),
        vec![
            Verb::Begin { at: outline.start, attributes: [] },
            Verb::CubicTo { ctrl1: outline.first.ctrl1, ctrl2: outline.first.ctrl2, to: outline.first.to, attributes: [] },
            Verb::CubicTo { ctrl1: outline.second.ctrl1, ctrl2: outline.second.ctrl2, to: outline.second.to, attributes: [] },
            Verb::CubicTo { ctrl1: outline.third.ctrl1, ctrl2: outline.third.ctrl2, to: outline.third.to, attributes: [] },
            Verb::CubicTo { ctrl1: outline.fourth.ctrl1, ctrl2: outline.fourth.ctrl2, to: outline.fourth.to, attributes: [] },
            Verb::Close,
        ]
    );
    assert_eq!(curves(&path), 4);
    // The control points lie 5 * 0.55191505 from the ends of the quarter.
    let d = 5.0f32 * 0.55191505;
    assert_eq!(path.verb(1), Verb::CubicTo {
        ctrl1: pt(5.0, 20.0 - d),
        ctrl2: pt(10.0 - d, 15.0),
        to: pt(10.0, 15.0),
        attributes: [],
    });
}

#[test]
fn ellipse_is_four_cubic_curves_and_closed() {
    let outline = Outline {
        start: pt(-4.0, 0.0),
        first: arc(pt(-4.0, -1.0), pt(-2.0, -2.0), pt(0.0, -2.0)),
        second: arc(pt(2.0, -2.0), pt(4.0, -1.0), pt(4.0, 0.0)),
        third: arc(pt(4.0, 1.0), pt(2.0, 2.0), pt(0.0, 2.0)),
        fourth: arc(pt(-2.0, 2.0), pt(-4.0, 1.0), pt(-4.0, 0.0)),
    };
    let mut builder: Builder<0> = Builder::new();
    builder.begin(pt(100.0, 100.0), []);
    add_ellipse(&mut builder, outline, []);
    let path = builder.build();
    assert_eq!(path.len(), 8);
    assert_eq!(path.verb(1), Verb::End);
    assert_eq!(path.verb(2), Verb::Begin { at: pt(-4.0, 0.0), attributes: [] });
    assert_eq!(
        path.verb(5),
        Verb::CubicTo { ctrl1: pt(4.0, 1.0), ctrl2: pt(2.0, 2.0), to: pt(0.0, 2.0), attributes: [] }
    );
    assert_eq!(path.verb(7), Verb::Close);
    assert_eq!(curves(&path), 4);
}

#[test]
fn rounded_rectangle_turns_every_round_corner_with_one_curve() {
    let all = corners(0.0, 0.0, 10.0, 6.0, 1.0, 2.0, 3.0, 0.5);
    let mut builder: Builder<0> = Builder::new();
    add_rounded_rectangle(&mut builder, all, []);
    assert!(!builder.is_open());
    assert_eq!(builder.current_position(), pt(0.0, 1.0));
    let path = builder.build();
    let cubic = |corner: Corner| Verb::CubicTo {
        ctrl1: corner.arc.ctrl1,
        ctrl2: corner.arc.ctrl2,
        to: corner.arc.to,
        attributes: [],
    };
    assert_eq!(
        verbs(&path),
        vec![
            Verb::Begin { at: pt(0.0, 1.0), attributes: [] },
            cubic(all.top_left),
            Verb::LineTo { to: pt(8.0, 0.0), attributes: [] },
            cubic(all.top_right),
            Verb::LineTo { to: pt(10.0, 3.0), attributes: [] },
            cubic(all.bottom_right),
            Verb::LineTo { to: pt(0.5, 6.0), attributes: [] },
            cubic(all.bottom_left),
            Verb::Close,
        ]
    );
    assert_eq!(curves(&path), 4);
}

#[test]
fn rounded_rectangle_without_radius_is_a_sharp_rectangle() {
    let all = corners(1.0, 2.0, 5.0, 8.0, 0.0, 0.0, 0.0, 0.0);
    let mut builder: Builder<0> = Builder::new();
    add_rounded_rectangle(&mut builder, all, []);
    let path = builder.build();
    assert_eq!(
        verbs(&path),
        vec![
            Verb::Begin { at: pt(1.0, 2.0), attributes: [] },
            Verb::LineTo { to: pt(5.0, 2.0), attributes: [] },
            Verb::LineTo { to: pt(5.0, 8.0), attributes: [] },
            Verb::LineTo { to: pt(1.0, 8.0), attributes: [] },
            Verb::Close,
        ]
    );
    assert_eq!(curves(&path), 0);
    // The same verbs as the plain rectangle.
    let mut plain: Builder<0> = Builder::new();
    add_rectangle(&mut plain, pt(1.0, 2.0), pt(5.0, 8.0), []);
    assert_eq!(verbs(&path), verbs(&plain.build()));
}

#[test]
fn each_corner_is_judged_by_its_own_radius() {
    // Only the top-right corner is round.
    let all = corners(0.0, 0.0, 10.0, 6.0, 0.0, 2.0, 0.0, 0.0);
    let mut builder: Builder<0> = Builder::new();
    add_rounded_rectangle(&mut builder, all, []);
    let path = builder.build();
    assert_eq!(
        verbs(&path),
        vec![
            Verb::Begin { at: pt(0.0, 0.0), attributes: [] },
            Verb::LineTo { to: pt(8.0, 0.0), attributes: [] },
            Verb::CubicTo {
                ctrl1: all.top_right.arc.ctrl1,
                ctrl2: all.top_right.arc.ctrl2,
                to: pt(10.0, 2.0),
                attributes: [],
            },
            Verb::LineTo { to: pt(10.0, 6.0), attributes: [] },
            Verb::LineTo { to: pt(0.0, 6.0), attributes: [] },
            Verb::Close,
        ]
    );
    // Only the top-left corner is round.
    let all = corners(0.0, 0.0, 10.0, 6.0, 1.0, 0.0, 0.0, 0.0);
    let mut builder: Builder<0> = Builder::new();
    add_rounded_rectangle(&mut builder, all, []);
    let path = builder.build();
    assert_eq!(path.len(), 6);
    assert!(matches!(path.verb(1), Verb::CubicTo { .. }));
    assert!(matches!(path.verb(2), Verb::LineTo { .. }));
    assert!(matches!(path.verb(3), Verb::LineTo { .. }));
    assert_eq!(curves(&path), 1);
}

#[test]
fn a_corner_with_a_radius_that_is_no_number_or_negative_is_sharp() {
    let mut all = corners(0.0, 0.0, 10.0, 6.0, 0.0, 0.0, 0.0, 0.0);
    all.top_left.radius = scalar(f32::NAN);
    all.top_right.radius = scalar(-1.0);
    all.bottom_right.radius = scalar(-0.0);
    all.bottom_left.radius = scalar(f32::NEG_INFINITY);
    let mut builder: Builder<0> = Builder::new();
    add_rounded_rectangle(&mut builder, all, []);
    let path = builder.build();
    assert_eq!(path.len(), 5);
    assert_eq!(curves(&path), 0);
}
