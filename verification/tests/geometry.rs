use scene_composer::geometry::{
    mul_add, sat_add, sat_sub, saturate, whole, Affine, PathEl, Point, Rect, ONE,
};

fn fx(n: i32) -> i32 {
    n * 65536
}

#[test]
fn one_is_two_to_the_sixteenth() {
    assert_eq!(ONE, 65536);
    assert_eq!(whole(1), ONE);
    assert_eq!(whole(1000), 65_536_000);
    assert_eq!(whole(-3), -196_608);
    assert_eq!(whole(i16::MIN), i32::MIN);
}

#[test]
fn mul_add_is_exact_on_whole_numbers() {
    assert_eq!(mul_add(fx(3), fx(2), 0, 0, fx(1)), fx(7));
    assert_eq!(mul_add(fx(3), fx(2), fx(4), fx(5), 0), fx(26));
    assert_eq!(mul_add(fx(400), ONE / 2, 0, 0, fx(500)), fx(700));
}

#[test]
fn mul_add_rounds_down() {
    // 1/65536 * 1/65536 is below the resolution, on either side of nought.
    assert_eq!(mul_add(1, 1, 0, 0, 0), 0);
    assert_eq!(mul_add(-1, 1, 0, 0, 0), -1);
    assert_eq!(mul_add(-1, 1, 0, 0, 5), 4);
    // The two products are summed before the rounding.
    assert_eq!(mul_add(32768, 1, 32768, 1, 0), 1);
    assert_eq!(mul_add(13107, fx(5), 0, 0, 0), 65535);
}

#[test]
fn mul_add_saturates() {
    assert_eq!(mul_add(i32::MAX, i32::MAX, 0, 0, 0), i32::MAX);
    assert_eq!(mul_add(i32::MIN, i32::MAX, 0, 0, 0), i32::MIN);
    assert_eq!(mul_add(i32::MIN, i32::MIN, i32::MIN, i32::MIN, i32::MAX), i32::MAX);
    assert_eq!(mul_add(0, 0, 0, 0, i32::MIN), i32::MIN);
    assert_eq!(mul_add(ONE, i32::MAX, 0, 0, 1), i32::MAX);
}

#[test]
fn sums_and_differences_saturate() {
    assert_eq!(sat_add(fx(2), fx(3)), fx(5));
    assert_eq!(sat_sub(fx(2), fx(3)), fx(-1));
    assert_eq!(sat_add(i32::MAX, 1), i32::MAX);
    assert_eq!(sat_add(i32::MIN, -1), i32::MIN);
    assert_eq!(sat_sub(i32::MIN, 1), i32::MIN);
    assert_eq!(sat_sub(i32::MAX, -1), i32::MAX);
    assert_eq!(sat_sub(0, i32::MIN), i32::MAX);
    assert_eq!(saturate(1i128 << 40), i32::MAX);
    assert_eq!(saturate(-(1i128 << 40)), i32::MIN);
    assert_eq!(saturate(-17), -17);
}

#[test]
fn identity_is_neutral() {
    let m = Affine { a: 13107, b: -7, c: 99, d: fx(3), e: fx(150), f: fx(-20) };
    assert_eq!(Affine::identity().compose(m), m);
    assert_eq!(m.compose(Affine::identity()), m);
    let extreme = Affine { a: i32::MIN, b: i32::MAX, c: i32::MIN, d: i32::MAX, e: i32::MIN, f: i32::MAX };
    assert_eq!(Affine::identity().compose(extreme), extreme);
    assert_eq!(extreme.compose(Affine::identity()), extreme);
}

#[test]
fn constructors_fill_the_matrix() {
    assert_eq!(Affine::identity(), Affine { a: ONE, b: 0, c: 0, d: ONE, e: 0, f: 0 });
    assert_eq!(Affine::translate(fx(3), fx(4)), Affine { a: ONE, b: 0, c: 0, d: ONE, e: fx(3), f: fx(4) });
    assert_eq!(Affine::scale(13107), Affine { a: 13107, b: 0, c: 0, d: 13107, e: 0, f: 0 });
    assert_eq!(Affine::scale_non_uniform(fx(2), fx(3)), Affine { a: fx(2), b: 0, c: 0, d: fx(3), e: 0, f: 0 });
    assert_eq!(Affine::flip_y(), Affine { a: ONE, b: 0, c: 0, d: -ONE, e: 0, f: 0 });
}

#[test]
fn translate_then_scale() {
    let m = Affine::translate(fx(150), fx(150)).compose(Affine::scale(13107));
    assert_eq!(m, Affine { a: 13107, b: 0, c: 0, d: 13107, e: fx(150), f: fx(150) });
    // The other way round the shift is scaled too.
    let n = Affine::scale(fx(2)).compose(Affine::translate(fx(150), fx(10)));
    assert_eq!(n, Affine { a: fx(2), b: 0, c: 0, d: fx(2), e: fx(300), f: fx(20) });
}

#[test]
fn composition_is_the_matrix_product() {
    let p = Affine { a: fx(1), b: fx(2), c: fx(3), d: fx(4), e: fx(5), f: fx(6) };
    let q = Affine { a: fx(7), b: fx(8), c: fx(9), d: fx(10), e: fx(11), f: fx(12) };
    assert_eq!(
        p.compose(q),
        Affine { a: fx(31), b: fx(46), c: fx(39), d: fx(58), e: fx(52), f: fx(76) }
    );
    assert_eq!(
        q.compose(p),
        Affine { a: fx(25), b: fx(28), c: fx(57), d: fx(64), e: fx(100), f: fx(112) }
    );
}

#[test]
fn placement_groups_either_way() {
    let outer = Affine { a: fx(2), b: 5, c: -9, d: fx(3), e: fx(100), f: fx(400) };
    let t = Affine::translate(fx(14), fx(17));
    let left = outer.compose(t).compose(Affine::flip_y());
    let right = outer.compose(t.compose(Affine::flip_y()));
    assert_eq!(left, right);
    assert_eq!(left.a, outer.a);
    assert_eq!(left.b, outer.b);
    assert_eq!(left.c, 9);
    assert_eq!(left.d, fx(-3));
    let at = outer.apply(Point::new(fx(14), fx(17)));
    assert_eq!((left.e, left.f), (at.x, at.y));
}

#[test]
fn apply_moves_points() {
    let m = Affine { a: fx(2), b: 0, c: 0, d: fx(3), e: fx(1), f: fx(-1) };
    assert_eq!(m.apply(Point::new(fx(10), fx(20))), Point { x: fx(21), y: fx(59) });
    assert_eq!(Affine::flip_y().apply(Point::new(fx(10), fx(20))), Point { x: fx(10), y: fx(-20) });
    assert_eq!(
        Affine::translate(fx(1), fx(2)).apply(Point::new(i32::MAX, i32::MIN)),
        Point { x: i32::MAX, y: i32::MIN + fx(2) }
    );
}

#[test]
fn apply_el_maps_every_point() {
    let m = Affine::translate(fx(1), fx(2));
    let p = Point::new(fx(10), fx(20));
    let q = Point::new(fx(11), fx(22));
    assert_eq!(m.apply_el(PathEl::MoveTo(p)), PathEl::MoveTo(q));
    assert_eq!(m.apply_el(PathEl::LineTo(p)), PathEl::LineTo(q));
    assert_eq!(m.apply_el(PathEl::QuadTo(p, p)), PathEl::QuadTo(q, q));
    assert_eq!(m.apply_el(PathEl::CurveTo(p, q, p)), PathEl::CurveTo(q, Point::new(fx(12), fx(24)), q));
    assert_eq!(m.apply_el(PathEl::ClosePath), PathEl::ClosePath);
}

#[test]
fn rect_from_origin_and_size() {
    let r = Rect::from_origin_size(Point::new(fx(1), fx(2)), fx(10), fx(20));
    assert_eq!(r, Rect { x0: fx(1), y0: fx(2), x1: fx(11), y1: fx(22) });
    let far = Rect::from_origin_size(Point::new(i32::MAX, 0), 1, 1);
    assert_eq!(far.x1, i32::MAX);
}

#[test]
fn rect_path_goes_round_the_corners() {
    let r = Rect { x0: fx(1), y0: fx(2), x1: fx(11), y1: fx(22) };
    assert_eq!(
        r.path(),
        vec![
            PathEl::MoveTo(Point::new(fx(1), fx(2))),
            PathEl::LineTo(Point::new(fx(11), fx(2))),
            PathEl::LineTo(Point::new(fx(11), fx(22))),
            PathEl::LineTo(Point::new(fx(1), fx(22))),
            PathEl::ClosePath,
        ]
    );
}
