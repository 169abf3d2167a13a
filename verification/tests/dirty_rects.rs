use kobovnc::dirty::{dirty_union, push_to_dirty_rect_list};
use kobovnc::geom::Rectangle;

fn r(x0: i32, y0: i32, x1: i32, y1: i32) -> Rectangle {
    Rectangle::from_coords(x0, y0, x1, y1)
}

#[test]
fn push_into_empty_list_appends() {
    let mut list = Vec::new();
    push_to_dirty_rect_list(&mut list, r(0, 0, 10, 10));
    assert_eq!(list, vec![r(0, 0, 10, 10)]);
}

#[test]
fn push_of_a_held_rectangle_keeps_the_list() {
    let mut list = vec![r(0, 0, 100, 100)];
    push_to_dirty_rect_list(&mut list, r(10, 10, 20, 20));
    assert_eq!(list, vec![r(0, 0, 100, 100)]);
}

#[test]
fn push_of_a_larger_rectangle_replaces_the_first_it_holds() {
    let mut list = vec![r(500, 500, 510, 510), r(10, 10, 20, 20), r(30, 30, 40, 40)];
    push_to_dirty_rect_list(&mut list, r(0, 0, 50, 50));
    assert_eq!(list, vec![r(500, 500, 510, 510), r(0, 0, 50, 50), r(30, 30, 40, 40)]);
}

#[test]
fn push_of_a_neighbour_grows_the_listed_rectangle() {
    let mut list = vec![r(0, 0, 30, 30)];
    push_to_dirty_rect_list(&mut list, r(35, 0, 65, 30));
    assert_eq!(list, vec![r(0, 0, 65, 30)]);
}

#[test]
fn push_of_a_distant_rectangle_appends() {
    let mut list = vec![r(0, 0, 30, 30)];
    push_to_dirty_rect_list(&mut list, r(100, 100, 130, 130));
    assert_eq!(list, vec![r(0, 0, 30, 30), r(100, 100, 130, 130)]);
}

#[test]
fn every_region_stays_covered_after_pushes() {
    let pushed = [
        r(0, 0, 30, 30),
        r(35, 0, 65, 30),
        r(10, 10, 20, 20),
        r(200, 200, 220, 260),
        r(0, 0, 70, 40),
        r(190, 190, 230, 270),
    ];
    let mut list = Vec::new();
    for (k, rect) in pushed.iter().enumerate() {
        push_to_dirty_rect_list(&mut list, *rect);
        for earlier in &pushed[..=k] {
            assert!(list.iter().any(|d| d.contains(earlier)));
        }
    }
    assert_eq!(list, vec![r(0, 0, 70, 40), r(190, 190, 230, 270)]);
}

#[test]
fn union_of_dirty_rectangles() {
    let list = vec![r(10, 20, 30, 40), r(5, 50, 25, 60)];
    assert_eq!(dirty_union(&list, 758, 1024), r(5, 20, 30, 60));
}

#[test]
fn union_of_no_rectangle_is_the_start_box() {
    let list: Vec<Rectangle> = Vec::new();
    assert_eq!(dirty_union(&list, 758, 1024), r(758, 1024, 0, 0));
}

#[test]
fn union_starts_from_the_screen_corner() {
    // the top-left corner starts at the screen size, the bottom-right at the origin
    let list = vec![r(800, 1100, 900, 1200)];
    assert_eq!(dirty_union(&list, 758, 1024), r(758, 1024, 900, 1200));
}

#[test]
fn pushing_the_same_rectangle_twice_is_pushing_it_once() {
    let start = vec![r(0, 0, 10, 10), r(100, 100, 120, 130)];
    for rect in [r(2, 2, 5, 5), r(90, 90, 130, 140), r(10, 0, 12, 10), r(300, 300, 310, 310)] {
        let mut once = start.clone();
        push_to_dirty_rect_list(&mut once, rect);
        let mut twice = once.clone();
        push_to_dirty_rect_list(&mut twice, rect);
        assert_eq!(once, twice);
    }
}

#[test]
fn union_with_a_screen_wider_than_an_i32() {
    let u = dirty_union(&vec![], 3_000_000_000, 10);
    assert_eq!(u.min.x, 3_000_000_000u32 as i32);
    assert_eq!(u.min.y, 10);
}
