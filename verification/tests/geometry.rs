use node_canvas::geometry::{pointer_or_origin, Offset, Point};

#[test]
fn origin_is_zero_zero() {
    assert_eq!(Point::origin(), Point { x: 0, y: 0 });
    assert_eq!(Offset::zero(), Offset { dx: 0, dy: 0 });
}

#[test]
fn offset_from_is_the_exact_difference() {
    let a = Point { x: 7, y: -3 };
    let b = Point { x: 2, y: 10 };
    assert_eq!(a.offset_from(b), Offset { dx: 5, dy: -13 });
    assert_eq!(b.offset_from(a), Offset { dx: -5, dy: 13 });
}

#[test]
fn offset_from_holds_the_widest_difference() {
    let low = Point { x: i32::MIN, y: i32::MIN };
    let high = Point { x: i32::MAX, y: i32::MAX };
    assert_eq!(high.offset_from(low), Offset { dx: 4_294_967_295, dy: 4_294_967_295 });
    assert_eq!(low.offset_from(high), Offset { dx: -4_294_967_295, dy: -4_294_967_295 });
}

#[test]
fn shifted_adds_the_offset() {
    let p = Point { x: 10, y: 20 };
    assert_eq!(p.shifted(Offset { dx: 5, dy: -25 }), Point { x: 15, y: -5 });
    assert_eq!(p.shifted(Offset::zero()), p);
}

#[test]
fn shifted_point_stops_at_the_ends_of_the_range() {
    let p = Point { x: i32::MAX - 1, y: i32::MIN + 1 };
    assert_eq!(p.shifted(Offset { dx: 1, dy: -1 }), Point { x: i32::MAX, y: i32::MIN });
    assert_eq!(p.shifted(Offset { dx: 2, dy: -2 }), Point { x: i32::MAX, y: i32::MIN });
    assert_eq!(
        p.shifted(Offset { dx: i64::MAX, dy: i64::MIN }),
        Point { x: i32::MAX, y: i32::MIN }
    );
    assert_eq!(
        p.shifted(Offset { dx: i64::MIN, dy: i64::MAX }),
        Point { x: i32::MIN, y: i32::MAX }
    );
}

#[test]
fn recorded_offset_leads_back_to_the_node() {
    let pointer = Point { x: -1000, y: 77 };
    let node = Point { x: 2_000_000_000, y: -2_000_000_000 };
    let offset = node.offset_from(pointer);
    assert_eq!(pointer.shifted(offset), node);
}

#[test]
fn distance_squared_of_a_three_four_five_triangle() {
    let a = Point { x: 1, y: 1 };
    let b = Point { x: 4, y: 5 };
    assert_eq!(a.distance_squared(b), 25);
    assert_eq!(b.distance_squared(a), 25);
    assert_eq!(a.distance_squared(a), 0);
}

#[test]
fn distance_squared_of_opposite_corners() {
    let low = Point { x: i32::MIN, y: i32::MIN };
    let high = Point { x: i32::MAX, y: i32::MAX };
    let side: u128 = 4_294_967_295;
    assert_eq!(low.distance_squared(high), 2 * side * side);
}

#[test]
fn missing_pointer_is_the_origin() {
    assert_eq!(pointer_or_origin(None), Point { x: 0, y: 0 });
    assert_eq!(pointer_or_origin(Some(Point { x: 3, y: -4 })), Point { x: 3, y: -4 });
}
