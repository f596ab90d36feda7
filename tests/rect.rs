use boom::rect::Point;

#[test]
fn rect_is_independent_of_corner_order() {
    let a = Point { x: 30, y: -4 };
    let b = Point { x: -10, y: 12 };
    assert_eq!(a.to_rect(b), b.to_rect(a));
    let c = Point { x: 5, y: 5 };
    assert_eq!(c.to_rect(c), c.to_rect(c));
}

#[test]
fn rect_dimensions() {
    let r = Point { x: 30, y: -4 }.to_rect(Point { x: -10, y: 12 });
    assert_eq!(*r.origin(), Point { x: -10, y: -4 });
    assert_eq!(r.width(), 40);
    assert_eq!(r.height(), 16);
    let wide = Point { x: i32::MIN, y: i32::MAX }.to_rect(Point { x: i32::MAX, y: i32::MIN });
    assert_eq!(wide.width(), u32::MAX as u64);
    assert_eq!(wide.height(), u32::MAX as u64);
    let big = Point { x: i64::MIN, y: 0i64 }.to_rect(Point { x: i64::MAX, y: 0 });
    assert_eq!(big.width(), u64::MAX);
    assert_eq!(big.height(), 0);
    let u = Point { x: 7u32, y: 1 }.to_rect(Point { x: 2, y: 9 });
    assert_eq!(*u.origin(), Point { x: 2, y: 1 });
    assert_eq!((u.width(), u.height()), (5, 8));
    let v = Point { x: u64::MAX, y: 0u64 }.to_rect(Point { x: 0, y: 3 });
    assert_eq!((v.width(), v.height()), (u64::MAX, 3));
}
