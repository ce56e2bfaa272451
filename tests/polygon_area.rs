use polygon_rs::{
    Area2D, DefaultSubprograms, Fixed, Polygon, Polygon2D, RealNumber, Square, Squarea, UnitShape,
    Vertex, VertexPolygon,
};

fn fx(v: f64) -> Fixed {
    Fixed::from_raw((v * 65536.0) as i64)
}

fn value(f: Fixed) -> f64 {
    f.raw() as f64 / 65536.0
}

fn pairs(points: &[(f64, f64)]) -> Vec<(Fixed, Fixed)> {
    points.iter().map(|&(x, y)| (fx(x), fx(y))).collect()
}

fn heap_area(points: &[(f64, f64)]) -> f64 {
    value(VertexPolygon::new(pairs(points)).area())
}

const STAR: [(f64, f64); 8] = [
    (0.0, 0.0),
    (0.5, 0.25),
    (1.0, 0.0),
    (0.75, 0.5),
    (1.0, 1.0),
    (0.5, 0.75),
    (0.0, 1.0),
    (0.25, 0.5),
];

#[test]
fn degenerate_vertex_lists_have_zero_area() {
    assert_eq!(heap_area(&[]), 0.0);
    assert_eq!(heap_area(&[(3.0, 4.0)]), 0.0);
    assert_eq!(heap_area(&[(3.0, 4.0), (-7.0, 2.5)]), 0.0);
    let empty: Polygon2D<Fixed, 0> = Polygon2D::new([], []);
    assert_eq!(empty.area(), Fixed::zero());
    let point: Polygon2D<Fixed, 1> = Polygon2D::new([fx(5.0)], [fx(6.0)]);
    assert_eq!(point.area(), Fixed::zero());
    let segment: Polygon2D<Fixed, 2> = Polygon2D::new([fx(0.0), fx(9.0)], [fx(1.0), fx(4.0)]);
    assert_eq!(segment.area(), Fixed::zero());
}

#[test]
fn unit_right_triangle() {
    assert_eq!(heap_area(&[(0.0, 0.0), (1.0, 0.0), (0.0, 1.0)]), 0.5);
}

#[test]
fn unit_square() {
    assert_eq!(heap_area(&[(0.0, 0.0), (1.0, 0.0), (1.0, 1.0), (0.0, 1.0)]), 1.0);
}

#[test]
fn eight_point_star() {
    assert_eq!(heap_area(&STAR), 0.5);
}

#[test]
fn reversed_order_keeps_area() {
    let mut reversed = STAR.to_vec();
    reversed.reverse();
    assert_eq!(heap_area(&reversed), heap_area(&STAR));
    let cw = [(1.0, 1.0), (2.0, 1.0), (2.0, 0.0), (1.0, 0.0)];
    let ccw = [(1.0, 0.0), (2.0, 0.0), (2.0, 1.0), (1.0, 1.0)];
    assert_eq!(heap_area(&cw), 1.0);
    assert_eq!(heap_area(&ccw), 1.0);
}

#[test]
fn rotated_order_keeps_area() {
    for k in 0..STAR.len() {
        let mut rotated = STAR.to_vec();
        rotated.rotate_left(k);
        assert_eq!(heap_area(&rotated), 0.5);
    }
}

#[test]
fn quadrilateral_strategy_matches_default() {
    let xs = [fx(0.0), fx(1.0), fx(1.0), fx(0.0)];
    let ys = [fx(0.0), fx(0.0), fx(1.0), fx(1.0)];
    let unrolled = <Squarea as Area2D<Fixed, 4>>::area(xs, ys);
    let general = <DefaultSubprograms as Area2D<Fixed, 4>>::area(xs, ys);
    assert_eq!(unrolled, general);
    assert_eq!(value(unrolled), 1.0);

    let xs = [fx(0.0), fx(2.0), fx(1.0), fx(-1.0)];
    let ys = [fx(0.0), fx(1.0), fx(3.0), fx(2.0)];
    let square: Square<Fixed> = Square::new(xs, ys);
    let general: Polygon2D<Fixed, 4> = Polygon2D::new(xs, ys);
    assert_eq!(square.area(), general.area());
    assert_eq!(value(square.area()), 5.0);
}

#[test]
fn heap_and_fixed_layouts_agree() {
    let heap = VertexPolygon::new(pairs(&STAR));
    let mut xs = [Fixed::zero(); 8];
    let mut ys = [Fixed::zero(); 8];
    for (i, &(x, y)) in STAR.iter().enumerate() {
        xs[i] = fx(x);
        ys[i] = fx(y);
    }
    let fixed: Polygon2D<Fixed, 8> = Polygon2D::new(xs, ys);
    assert_eq!(heap.area(), fixed.area());
    assert_eq!(value(fixed.area()), 0.5);
}

#[test]
fn array_vertices_measure_like_pairs() {
    let arrays: Vec<[Fixed; 2]> = STAR.iter().map(|&(x, y)| [fx(x), fx(y)]).collect();
    let polygon = VertexPolygon::new(arrays);
    assert_eq!(polygon.vertices().len(), 8);
    assert_eq!(value(polygon.area()), 0.5);
}

#[test]
fn vertex_accessors() {
    let a = [fx(1.5), fx(-2.0)];
    assert_eq!(a.x(), fx(1.5));
    assert_eq!(a.y(), fx(-2.0));
    let p = (fx(3.0), fx(4.25));
    assert_eq!(p.x(), fx(3.0));
    assert_eq!(p.y(), fx(4.25));
}

#[test]
fn unit_strategy_ignores_coordinates() {
    let shape: Polygon2D<Fixed, 3, UnitShape<Fixed>> =
        Polygon2D::new([fx(0.0), fx(4.0), fx(0.0)], [fx(0.0), fx(0.0), fx(3.0)]);
    assert_eq!(shape.area(), Fixed::one());
    let measured: Polygon2D<Fixed, 3> =
        Polygon2D::new([fx(0.0), fx(4.0), fx(0.0)], [fx(0.0), fx(0.0), fx(3.0)]);
    assert_eq!(value(measured.area()), 6.0);
}

#[test]
fn fixed_constants_and_conversions() {
    assert_eq!(Fixed::zero().raw(), 0);
    assert_eq!(Fixed::one().raw(), 65536);
    assert_eq!(Fixed::two().raw(), 131072);
    assert_eq!(Fixed::from_int(-3).raw(), -3 * 65536);
    assert_eq!(Fixed::from_raw(12345).raw(), 12345);
}

#[test]
fn fixed_arithmetic() {
    assert_eq!(fx(1.5).add(fx(2.25)), fx(3.75));
    assert_eq!(fx(1.5).sub(fx(2.25)), fx(-0.75));
    assert_eq!(fx(1.5).mul(fx(-2.0)), fx(-3.0));
    assert_eq!(fx(0.25).mul(fx(0.5)), fx(0.125));
    assert_eq!(fx(3.0).div(fx(2.0)), fx(1.5));
    assert_eq!(fx(-1.0).div(fx(4.0)), fx(-0.25));
    assert_eq!(fx(-2.5).abs(), fx(2.5));
    assert_eq!(fx(2.5).abs(), fx(2.5));
}

#[test]
fn fixed_rounding_and_wrapping() {
    // The smallest positive value squared rounds down to zero.
    let tiny = Fixed::from_raw(1);
    assert_eq!(tiny.mul(tiny).raw(), 0);
    // A negative product rounds down, away from zero.
    assert_eq!(Fixed::from_raw(-1).mul(tiny).raw(), -1);
    // One third rounds down to the nearest multiple of 2^-16.
    assert_eq!(Fixed::one().div(Fixed::from_int(3)).raw(), 21845);
    // Addition and subtraction wrap around.
    assert_eq!(Fixed::from_raw(i64::MAX).add(tiny).raw(), i64::MIN);
    assert_eq!(Fixed::from_raw(i64::MIN).sub(tiny).raw(), i64::MAX);
    // The absolute value saturates.
    assert_eq!(Fixed::from_raw(i64::MIN).abs().raw(), i64::MAX);
    assert_eq!(Fixed::from_raw(i64::MIN + 1).abs().raw(), i64::MAX);
}
