//! The list of screen regions that were drawn and wait for a refresh.
use vstd::prelude::*;
use crate::geom::{
    Point, Rectangle, i32_fits, min_int, max_int, lemma_contains_reflexive,
    lemma_absorb_contains_both,
};

verus! {

/// How a new dirty rectangle merges with one already in the list.
#[derive(Clone, Copy, Debug, PartialEq, Eq, Structural)]
pub enum Merge {
    /// The listed rectangle already holds the new one.
    Kept,
    /// The new rectangle holds the listed one and takes its place.
    Replaced,
    /// The new rectangle lies next to the listed one, which grows to hold both.
    Absorbed,
}

/// How `rect` merges with the listed rectangle `dr`, if it does.
pub open spec fn merge_kind(dr: Rectangle, rect: Rectangle) -> Option<Merge> {
    if dr.spec_contains(rect) {
        Some(Merge::Kept)
    } else if rect.spec_contains(dr) {
        Some(Merge::Replaced)
    } else if rect.spec_extends(dr) {
        Some(Merge::Absorbed)
    } else {
        None
    }
}

/// What the listed rectangle `dr` becomes once `rect` has merged with it.
pub open spec fn merged(dr: Rectangle, rect: Rectangle) -> Rectangle {
    match merge_kind(dr, rect) {
        Some(Merge::Kept) => dr,
        Some(Merge::Replaced) => rect,
        Some(Merge::Absorbed) => dr.spec_absorb(rect),
        None => dr,
    }
}

/// No rectangle before index `i` merges with `rect`.
pub open spec fn no_merge_before(list: Seq<Rectangle>, rect: Rectangle, i: int) -> bool {
    forall|j: int| 0 <= j < i ==> #[trigger] merge_kind(list[j], rect) is None
}

/// `i` is the first index of `list` whose rectangle merges with `rect`.
pub open spec fn first_merge_at(list: Seq<Rectangle>, rect: Rectangle, i: int) -> bool {
    &&& 0 <= i < list.len()
    &&& merge_kind(list[i], rect) is Some
    &&& no_merge_before(list, rect, i)
}

/// The list after `rect` was pushed: merged into the first rectangle that it merges
/// with, or appended when it merges with none.
pub open spec fn pushed_dirty_list(list: Seq<Rectangle>, rect: Rectangle) -> Seq<Rectangle> {
    if exists|i: int| first_merge_at(list, rect, i) {
        let i = choose|i: int| first_merge_at(list, rect, i);
        list.update(i, merged(list[i], rect))
    } else {
        list.push(rect)
    }
}

/// The comparisons that pushing `rect` makes stay within the range of an `i32`:
/// each listed rectangle that is compared by adjacency is one for which `extends` is defined.
pub open spec fn push_defined(list: Seq<Rectangle>, rect: Rectangle) -> bool {
    forall|i: int|
        0 <= i < list.len() && no_merge_before(list, rect, i) && !list[i].spec_contains(rect)
            && !rect.spec_contains(list[i]) ==> #[trigger] rect.extends_defined(list[i])
}

proof fn lemma_first_merge_unique(list: Seq<Rectangle>, rect: Rectangle, i: int, k: int)
    requires
        first_merge_at(list, rect, i),
        first_merge_at(list, rect, k),
    ensures
        i == k,
{
    if i < k {
        assert(merge_kind(list[i], rect) is None);
    } else if k < i {
        assert(merge_kind(list[k], rect) is None);
    }
}

/// Records `rect` as dirty. A listed rectangle that holds it is kept as it is; one
/// that it holds is replaced by it; one next to it grows to hold it. Only the first
/// listed rectangle for which one of these holds is changed; when none does, `rect`
/// is appended.
pub fn push_to_dirty_rect_list(list: &mut Vec<Rectangle>, rect: Rectangle)
    requires
        push_defined(old(list)@, rect),
    ensures
        final(list)@ == pushed_dirty_list(old(list)@, rect),
        // no dirty region is lost: each listed rectangle grows or stays
        final(list)@.len() >= old(list)@.len(),
        final(list)@.len() <= old(list)@.len() + 1,
        forall|i: int|
            0 <= i < old(list)@.len() ==> #[trigger] final(list)@[i].spec_contains(old(list)@[i]),
        // and the new region is held by some listed rectangle
        exists|j: int| 0 <= j < final(list)@.len() && #[trigger] final(list)@[j].spec_contains(rect),
{
    let ghost old_list = list@;
    let n = list.len();
    let mut i: usize = 0;
    while i < n
        invariant
            n == list@.len(),
            list@ == old_list,
            old_list == old(list)@,
            0 <= i <= n,
            no_merge_before(old_list, rect, i as int),
            push_defined(old_list, rect),
        decreases n - i,
    {
        let dr = list[i];
        if dr.contains(&rect) {
            proof {
                assert(first_merge_at(old_list, rect, i as int));
                assert forall|k: int| first_merge_at(old_list, rect, k) implies k == i by {
                    lemma_first_merge_unique(old_list, rect, i as int, k);
                }
                assert(list@ =~= pushed_dirty_list(old_list, rect));
                assert(list@[i as int].spec_contains(rect));
            }
            return;
        }
        if rect.contains(&dr) {
            list.set(i, rect);
            proof {
                assert(first_merge_at(old_list, rect, i as int));
                assert forall|k: int| first_merge_at(old_list, rect, k) implies k == i by {
                    lemma_first_merge_unique(old_list, rect, i as int, k);
                }
                assert(list@ =~= pushed_dirty_list(old_list, rect));
                assert(list@[i as int].spec_contains(rect));
                assert forall|k: int| 0 <= k < old_list.len() implies #[trigger] list@[k].spec_contains(
                    old_list[k],
                ) by {}
            }
            return;
        }
        proof {
            assert(rect.extends_defined(old_list[i as int]));
        }
        if rect.extends(&dr) {
            let mut grown = dr;
            grown.absorb(&rect);
            list.set(i, grown);
            proof {
                assert(first_merge_at(old_list, rect, i as int));
                assert forall|k: int| first_merge_at(old_list, rect, k) implies k == i by {
                    lemma_first_merge_unique(old_list, rect, i as int, k);
                }
                assert(list@ =~= pushed_dirty_list(old_list, rect));
                assert(list@[i as int].spec_contains(rect));
                assert forall|k: int| 0 <= k < old_list.len() implies #[trigger] list@[k].spec_contains(
                    old_list[k],
                ) by {}
            }
            return;
        }
        proof {
            assert(merge_kind(old_list[i as int], rect) is None);
        }
        i = i + 1;
    }
    list.push(rect);
    proof {
        assert forall|k: int| !first_merge_at(old_list, rect, k) by {
            if 0 <= k < old_list.len() {
                assert(merge_kind(old_list[k], rect) is None);
            }
        }
        assert(list@ =~= pushed_dirty_list(old_list, rect));
        assert(list@[n as int].spec_contains(rect));
        assert forall|k: int| 0 <= k < old_list.len() implies #[trigger] list@[k].spec_contains(
            old_list[k],
        ) by {}
    }
}

/// The bounding box of the listed rectangles, folded from a start box whose
/// top-left corner is `(fb_width, fb_height)` and bottom-right corner is `(0, 0)`.
pub open spec fn dirty_bounds(list: Seq<Rectangle>, fb_width: int, fb_height: int) -> Rectangle
    decreases list.len(),
{
    if list.len() == 0 {
        Rectangle {
            min: Point { x: fb_width as i32, y: fb_height as i32 },
            max: Point { x: 0, y: 0 },
        }
    } else {
        let b = dirty_bounds(list.drop_last(), fb_width, fb_height);
        let dr = list.last();
        Rectangle {
            min: Point {
                x: min_int(b.min.x as int, dr.min.x as int) as i32,
                y: min_int(b.min.y as int, dr.min.y as int) as i32,
            },
            max: Point {
                x: max_int(b.max.x as int, dr.max.x as int) as i32,
                y: max_int(b.max.y as int, dr.max.y as int) as i32,
            },
        }
    }
}

/// The region to refresh for a list of dirty rectangles: the smallest rectangle that
/// holds them all, with the screen size `(fb_width, fb_height)` as the start of the
/// top-left corner and the origin as the start of the bottom-right one.
pub fn dirty_union(list: &Vec<Rectangle>, fb_width: u32, fb_height: u32) -> (r: Rectangle)
    ensures
        r == dirty_bounds(list@, fb_width as int, fb_height as int),
        forall|i: int| 0 <= i < list@.len() ==> #[trigger] r.spec_contains(list@[i]),
{
    let mut min_x: i32 = fb_width as i32;
    let mut min_y: i32 = fb_height as i32;
    let mut max_x: i32 = 0;
    let mut max_y: i32 = 0;
    let n = list.len();
    let mut i: usize = 0;
    while i < n
        invariant
            n == list@.len(),
            0 <= i <= n,
            dirty_bounds(list@.take(i as int), fb_width as int, fb_height as int) == (Rectangle {
                min: Point { x: min_x, y: min_y },
                max: Point { x: max_x, y: max_y },
            }),
            forall|k: int|
                0 <= k < i ==> (Rectangle {
                    min: Point { x: min_x, y: min_y },
                    max: Point { x: max_x, y: max_y },
                }).spec_contains(#[trigger] list@[k]),
        decreases n - i,
    {
        let dr = list[i];
        if dr.max.x > max_x {
            max_x = dr.max.x;
        }
        if dr.max.y > max_y {
            max_y = dr.max.y;
        }
        if dr.min.x < min_x {
            min_x = dr.min.x;
        }
        if dr.min.y < min_y {
            min_y = dr.min.y;
        }
        proof {
            assert(list@.take(i + 1).drop_last() =~= list@.take(i as int));
        }
        i = i + 1;
    }
    proof {
        assert(list@.take(n as int) =~= list@);
    }
    Rectangle { min: Point { x: min_x, y: min_y }, max: Point { x: max_x, y: max_y } }
}

/// Marks `rect` in `list` and holds that no region is lost: whatever the list held
/// before, and `rect`, are each held by some rectangle of the list afterwards.
pub proof fn law_push_keeps_every_region(list: Seq<Rectangle>, rect: Rectangle, r: Rectangle)
    requires
        list.contains(r) || r == rect,
    ensures
        exists|j: int|
            0 <= j < pushed_dirty_list(list, rect).len() && #[trigger] pushed_dirty_list(
                list,
                rect,
            )[j].spec_contains(r),
{
    let p = pushed_dirty_list(list, rect);
    if exists|i: int| first_merge_at(list, rect, i) {
        let i = choose|i: int| first_merge_at(list, rect, i);
        assert(p == list.update(i, merged(list[i], rect)));
        if r == rect {
            assert(p[i].spec_contains(rect));
        } else {
            let k = choose|k: int| 0 <= k < list.len() && list[k] == r;
            if k == i {
                assert(p[i].spec_contains(r));
            } else {
                assert(p[k].spec_contains(r));
            }
        }
    } else {
        assert(p == list.push(rect));
        if r == rect {
            assert(p[list.len() as int].spec_contains(r));
        } else {
            let k = choose|k: int| 0 <= k < list.len() && list[k] == r;
            assert(p[k].spec_contains(r));
        }
    }
}

proof fn lemma_some_merge_has_first(list: Seq<Rectangle>, rect: Rectangle, j: int)
    requires
        0 <= j < list.len(),
        merge_kind(list[j], rect) is Some,
    ensures
        exists|i: int| first_merge_at(list, rect, i),
    decreases j,
{
    if no_merge_before(list, rect, j) {
        assert(first_merge_at(list, rect, j));
    } else {
        let k = choose|k: int| 0 <= k < j && !(#[trigger] merge_kind(list[k], rect) is None);
        lemma_some_merge_has_first(list, rect, k);
    }
}

/// Pushing a rectangle a second time changes nothing: the list after two pushes of
/// `rect` is the list after one.
pub proof fn law_push_twice_is_push_once(list: Seq<Rectangle>, rect: Rectangle)
    ensures
        pushed_dirty_list(pushed_dirty_list(list, rect), rect) == pushed_dirty_list(list, rect),
{
    let p = pushed_dirty_list(list, rect);
    lemma_contains_reflexive(rect);
    let i: int = if exists|i: int| first_merge_at(list, rect, i) {
        let i = choose|i: int| first_merge_at(list, rect, i);
        assert(p == list.update(i, merged(list[i], rect)));
        lemma_absorb_contains_both(list[i], rect);
        i
    } else {
        assert(p == list.push(rect));
        assert forall|j: int| 0 <= j < list.len() implies #[trigger] merge_kind(list[j], rect) is None by {
            if merge_kind(list[j], rect) is Some {
                lemma_some_merge_has_first(list, rect, j);
            }
        }
        list.len() as int
    };
    assert(p[i].spec_contains(rect));
    assert(merge_kind(p[i], rect) == Some(Merge::Kept));
    assert(first_merge_at(p, rect, i));
    assert forall|k: int| first_merge_at(p, rect, k) implies k == i by {
        lemma_first_merge_unique(p, rect, i, k);
    }
    assert(pushed_dirty_list(p, rect) =~= p.update(i, p[i]));
    assert(p.update(i, p[i]) =~= p);
}

/// The bounds of a dirty list hold each of its rectangles.
pub proof fn lemma_bounds_contain_each(list: Seq<Rectangle>, fb_width: int, fb_height: int, i: int)
    requires
        0 <= i < list.len(),
    ensures
        dirty_bounds(list, fb_width, fb_height).spec_contains(list[i]),
    decreases list.len(),
{
    if i < list.len() - 1 {
        lemma_bounds_contain_each(list.drop_last(), fb_width, fb_height, i);
    }
}

/// The bounds of a dirty list are the smallest box that holds its rectangles, from the
/// start box: each side of the bounds is the start box's or that of some rectangle of
/// the list, and every rectangle lies within them.
pub proof fn law_bounds_are_smallest(list: Seq<Rectangle>, fb_width: u32, fb_height: u32)
    ensures
        ({
            let b = dirty_bounds(list, fb_width as int, fb_height as int);
            &&& forall|i: int| 0 <= i < list.len() ==> #[trigger] b.spec_contains(list[i])
            &&& (b.min.x == fb_width as i32 || exists|i: int| 0 <= i < list.len() && #[trigger] list[i].min.x == b.min.x)
            &&& (b.min.y == fb_height as i32 || exists|i: int| 0 <= i < list.len() && #[trigger] list[i].min.y == b.min.y)
            &&& (b.max.x == 0 || exists|i: int| 0 <= i < list.len() && #[trigger] list[i].max.x == b.max.x)
            &&& (b.max.y == 0 || exists|i: int| 0 <= i < list.len() && #[trigger] list[i].max.y == b.max.y)
            &&& b.min.x <= fb_width as i32 && b.min.y <= fb_height as i32 && b.max.x >= 0 && b.max.y >= 0
        }),
    decreases list.len(),
{
    let b = dirty_bounds(list, fb_width as int, fb_height as int);
    assert forall|i: int| 0 <= i < list.len() implies #[trigger] b.spec_contains(list[i]) by {
        lemma_bounds_contain_each(list, fb_width as int, fb_height as int, i);
    }
    if list.len() > 0 {
        let init = list.drop_last();
        law_bounds_are_smallest(init, fb_width, fb_height);
        let n = list.len() - 1;
        assert(list[n] == list.last());
        assert forall|i: int| 0 <= i < init.len() implies #[trigger] init[i] == list[i] by {}
        if b.min.x != fb_width as i32 && b.min.x != list[n].min.x {
            let i = choose|i: int| 0 <= i < init.len() && #[trigger] init[i].min.x == dirty_bounds(init, fb_width as int, fb_height as int).min.x;
            assert(list[i].min.x == b.min.x);
        }
        if b.min.y != fb_height as i32 && b.min.y != list[n].min.y {
            let i = choose|i: int| 0 <= i < init.len() && #[trigger] init[i].min.y == dirty_bounds(init, fb_width as int, fb_height as int).min.y;
            assert(list[i].min.y == b.min.y);
        }
        if b.max.x != 0 && b.max.x != list[n].max.x {
            let i = choose|i: int| 0 <= i < init.len() && #[trigger] init[i].max.x == dirty_bounds(init, fb_width as int, fb_height as int).max.x;
            assert(list[i].max.x == b.max.x);
        }
        if b.max.y != 0 && b.max.y != list[n].max.y {
            let i = choose|i: int| 0 <= i < init.len() && #[trigger] init[i].max.y == dirty_bounds(init, fb_width as int, fb_height as int).max.y;
            assert(list[i].max.y == b.max.y);
        }
    }
}

} // verus!
