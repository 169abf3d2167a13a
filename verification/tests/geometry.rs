use kobovnc::geom::{halves, Point, Rectangle};

fn r(x0: i32, y0: i32, x1: i32, y1: i32) -> Rectangle {
    Rectangle::from_coords(x0, y0, x1, y1)
}

#[test]
fn includes_is_half_open() {
    let a = r(0, 0, 10, 10);
    assert!(a.includes(Point::new(0, 0)));
    assert!(a.includes(Point::new(9, 9)));
    assert!(!a.includes(Point::new(10, 5)));
    assert!(!a.includes(Point::new(5, 10)));
    assert!(!a.includes(Point::new(-1, 5)));
}

#[test]
fn contains_includes_borders() {
    let a = r(0, 0, 10, 10);
    assert!(a.contains(&a));
    assert!(a.contains(&r(2, 2, 10, 5)));
    assert!(!a.contains(&r(2, 2, 11, 5)));
    assert!(!r(2, 2, 10, 5).contains(&a));
}

#[test]
fn width_and_height() {
    let a = r(3, 4, 13, 24);
    assert_eq!(a.width(), 10);
    assert_eq!(a.height(), 20);
}

#[test]
fn extends_neighbours_within_a_third_of_the_smallest_side() {
    // 30 x 30 squares: a third of the smallest side is 10
    let a = r(0, 0, 30, 30);
    // right neighbour at distance 10
    assert!(a.extends(&r(40, 0, 70, 30)));
    // right neighbour at distance 11
    assert!(!a.extends(&r(41, 0, 71, 30)));
    // below, touching
    assert!(a.extends(&r(0, 30, 30, 60)));
    // above, at distance 5
    assert!(a.extends(&r(0, -35, 30, -5)));
    // left, at distance 10
    assert!(a.extends(&r(-40, 0, -10, 30)));
    // diagonal: no overlap on either axis
    assert!(!a.extends(&r(31, 31, 60, 60)));
    // overlapping rectangles do not extend each other
    assert!(!a.extends(&r(10, 10, 40, 40)));
}

#[test]
fn absorb_gives_the_bounding_box() {
    let mut a = r(0, 0, 10, 10);
    a.absorb(&r(5, -5, 20, 8));
    assert_eq!(a, r(0, -5, 20, 10));
}

#[test]
fn halves_split_toward_zero() {
    assert_eq!(halves(1), (0, 1));
    assert_eq!(halves(2), (1, 1));
    assert_eq!(halves(7), (3, 4));
    assert_eq!(halves(-3), (-1, -2));
}
