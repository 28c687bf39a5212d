//! Rectangles in screen coordinates and the box around a group of them.
use vstd::prelude::*;

verus! {

/// A rectangle in absolute screen coordinates.
#[derive(Debug, Clone, Copy, PartialEq, Eq, Structural)]
pub struct Rect {
    /// The left edge.
    pub x: i32,
    /// The top edge.
    pub y: i32,
    /// The extent to the right of `x`.
    pub width: i32,
    /// The extent below `y`.
    pub height: i32,
}

/// Whether a number can be held by an `i32`.
pub open spec fn fits_i32(n: int) -> bool {
    i32::MIN <= n <= i32::MAX
}

impl Rect {
    /// A rectangle from its left and top edge and its extent.
    pub fn new(x: i32, y: i32, width: i32, height: i32) -> (r: Rect)
        ensures
            r == (Rect { x, y, width, height }),
    {
        Rect { x, y, width, height }
    }

    /// The first column right of the rectangle.
    pub open spec fn right(self) -> int {
        self.x + self.width
    }

    /// The first row below the rectangle.
    pub open spec fn bottom(self) -> int {
        self.y + self.height
    }

    /// Whether a screen point lies in the rectangle. A rectangle whose width
    /// or height is not positive holds no point.
    pub open spec fn contains(self, x: int, y: int) -> bool {
        &&& self.x <= x < self.right()
        &&& self.y <= y < self.bottom()
    }

    /// Whether the right and the bottom edge can be held by an `i32`.
    pub open spec fn edges_fit(self) -> bool {
        fits_i32(self.right()) && fits_i32(self.bottom())
    }
}

/// Whether a screen point lies in one of the rectangles.
pub open spec fn covered(rects: Seq<Rect>, x: int, y: int) -> bool {
    exists|i: int| 0 <= i < rects.len() && (#[trigger] rects[i]).contains(x, y)
}

/// The smallest left edge of a non-empty group of rectangles.
pub open spec fn left_of(rects: Seq<Rect>) -> int {
    rects.map_values(|r: Rect| r.x as int).min()
}

/// The smallest top edge of a non-empty group of rectangles.
pub open spec fn top_of(rects: Seq<Rect>) -> int {
    rects.map_values(|r: Rect| r.y as int).min()
}

/// The largest right edge of a non-empty group of rectangles.
pub open spec fn right_of(rects: Seq<Rect>) -> int {
    rects.map_values(|r: Rect| r.right()).max()
}

/// The largest bottom edge of a non-empty group of rectangles.
pub open spec fn bottom_of(rects: Seq<Rect>) -> int {
    rects.map_values(|r: Rect| r.bottom()).max()
}

/// Whether the box around the rectangles has an area: there is a rectangle,
/// and the box is at least one pixel wide and high.
pub open spec fn drawable(rects: Seq<Rect>) -> bool {
    &&& rects.len() > 0
    &&& left_of(rects) < right_of(rects)
    &&& top_of(rects) < bottom_of(rects)
}

/// Whether every edge of the rectangles, and the width and the height of the
/// box around them, can be held by an `i32`.
pub open spec fn bounds_fit(rects: Seq<Rect>) -> bool {
    &&& forall|i: int| 0 <= i < rects.len() ==> (#[trigger] rects[i]).edges_fit()
    &&& rects.len() > 0 ==> {
        &&& fits_i32(right_of(rects) - left_of(rects))
        &&& fits_i32(bottom_of(rects) - top_of(rects))
    }
}

/// The box around a group of rectangles holds each of them, and each of its
/// four edges is an edge of one of them.
pub proof fn law_box_is_tight(rects: Seq<Rect>)
    requires
        rects.len() > 0,
    ensures
        forall|i: int|
            0 <= i < rects.len() ==> {
                &&& left_of(rects) <= (#[trigger] rects[i]).x
                &&& rects[i].x + rects[i].width <= right_of(rects)
                &&& top_of(rects) <= rects[i].y
                &&& rects[i].y + rects[i].height <= bottom_of(rects)
            },
        exists|i: int| 0 <= i < rects.len() && (#[trigger] rects[i]).x == left_of(rects),
        exists|i: int|
            0 <= i < rects.len() && (#[trigger] rects[i]).x + rects[i].width == right_of(rects),
        exists|i: int| 0 <= i < rects.len() && (#[trigger] rects[i]).y == top_of(rects),
        exists|i: int|
            0 <= i < rects.len() && (#[trigger] rects[i]).y + rects[i].height == bottom_of(rects),
{
    let lefts = rects.map_values(|r: Rect| r.x as int);
    let tops = rects.map_values(|r: Rect| r.y as int);
    let rights = rects.map_values(|r: Rect| r.right());
    let bottoms = rects.map_values(|r: Rect| r.bottom());
    lefts.min_ensures();
    tops.min_ensures();
    rights.max_ensures();
    bottoms.max_ensures();
    assert forall|i: int| 0 <= i < rects.len() implies {
        &&& left_of(rects) <= (#[trigger] rects[i]).x
        &&& rects[i].right() <= right_of(rects)
        &&& top_of(rects) <= rects[i].y
        &&& rects[i].bottom() <= bottom_of(rects)
    } by {
        assert(lefts[i] == rects[i].x);
        assert(tops[i] == rects[i].y);
        assert(rights[i] == rects[i].right());
        assert(bottoms[i] == rects[i].bottom());
    }
    let l = lefts.index_of(left_of(rects));
    assert(rects[l].x == lefts[l]);
    let t = tops.index_of(top_of(rects));
    assert(rects[t].y == tops[t]);
    let r = rights.index_of(right_of(rects));
    assert(rects[r].right() == rights[r]);
    let b = bottoms.index_of(bottom_of(rects));
    assert(rects[b].bottom() == bottoms[b]);
}

/// A rectangle holds the points that are less than its width right of its left
/// edge and less than its height below its top edge, and no others.
pub proof fn law_rect_holds_its_extent(r: Rect, dx: int, dy: int)
    ensures
        r.contains(r.x + dx, r.y + dy) <==> 0 <= dx < r.width && 0 <= dy < r.height,
        r.right() - r.x == r.width,
        r.bottom() - r.y == r.height,
{
}

/// A point is covered exactly if some rectangle of the group has it between its
/// edges.
pub proof fn law_covered_point(rects: Seq<Rect>, x: int, y: int)
    ensures
        covered(rects, x, y) <==> exists|i: int|
            0 <= i < rects.len() && 0 <= x - (#[trigger] rects[i]).x < rects[i].width && 0 <= y
                - rects[i].y < rects[i].height,
{
    if covered(rects, x, y) {
        let i = choose|i: int| 0 <= i < rects.len() && (#[trigger] rects[i]).contains(x, y);
        law_rect_holds_its_extent(rects[i], x - rects[i].x, y - rects[i].y);
        assert(0 <= x - rects[i].x < rects[i].width && 0 <= y - rects[i].y < rects[i].height);
    }
    if exists|i: int|
        0 <= i < rects.len() && 0 <= x - (#[trigger] rects[i]).x < rects[i].width && 0 <= y
            - rects[i].y < rects[i].height {
        let i = choose|i: int|
            0 <= i < rects.len() && 0 <= x - (#[trigger] rects[i]).x < rects[i].width && 0 <= y
                - rects[i].y < rects[i].height;
        law_rect_holds_its_extent(rects[i], x - rects[i].x, y - rects[i].y);
        assert(rects[i].contains(x, y));
    }
}

/// Two groups together cover what either of them covers.
pub proof fn law_covering_is_a_union(a: Seq<Rect>, b: Seq<Rect>, x: int, y: int)
    ensures
        covered(a + b, x, y) <==> covered(a, x, y) || covered(b, x, y),
        !covered(Seq::empty(), x, y),
{
    let both = a + b;
    if covered(a, x, y) {
        let i = choose|i: int| 0 <= i < a.len() && (#[trigger] a[i]).contains(x, y);
        assert(both[i].contains(x, y));
    }
    if covered(b, x, y) {
        let i = choose|i: int| 0 <= i < b.len() && (#[trigger] b[i]).contains(x, y);
        assert(both[a.len() + i].contains(x, y));
    }
    if covered(both, x, y) {
        let i = choose|i: int| 0 <= i < both.len() && (#[trigger] both[i]).contains(x, y);
        if i < a.len() {
            assert(a[i].contains(x, y));
        } else {
            assert(b[i - a.len()].contains(x, y));
        }
    }
}

/// There is something to draw exactly if the left edge of some rectangle is left of
/// the right edge of some rectangle, and the top edge of some above the bottom edge
/// of some.
pub proof fn law_drawable_by_edges(rects: Seq<Rect>)
    ensures
        drawable(rects) <==> {
            &&& exists|i: int, j: int|
                0 <= i < rects.len() && 0 <= j < rects.len() && (#[trigger] rects[i]).x < (
                #[trigger] rects[j]).x + rects[j].width
            &&& exists|i: int, j: int|
                0 <= i < rects.len() && 0 <= j < rects.len() && (#[trigger] rects[i]).y < (
                #[trigger] rects[j]).y + rects[j].height
        },
{
    if rects.len() > 0 {
        law_box_is_tight(rects);
        let l = choose|i: int| 0 <= i < rects.len() && (#[trigger] rects[i]).x == left_of(rects);
        let r = choose|i: int|
            0 <= i < rects.len() && (#[trigger] rects[i]).x + rects[i].width == right_of(rects);
        let t = choose|i: int| 0 <= i < rects.len() && (#[trigger] rects[i]).y == top_of(rects);
        let b = choose|i: int|
            0 <= i < rects.len() && (#[trigger] rects[i]).y + rects[i].height == bottom_of(rects);
        if drawable(rects) {
            assert(rects[l].x < rects[r].x + rects[r].width);
            assert(rects[t].y < rects[b].y + rects[b].height);
        }
    }
}

/// A number fits exactly if some `i32` is that number.
pub proof fn law_fitting_numbers(n: int)
    ensures
        fits_i32(n) <==> -0x8000_0000 <= n < 0x8000_0000,
        fits_i32(n) <==> n as i32 == n,
{
}

/// The bounds of a group fit exactly if all its edges do, and no right edge is too
/// far from a left edge and no bottom edge too far from a top edge.
pub proof fn law_fitting_bounds(rects: Seq<Rect>)
    ensures
        bounds_fit(rects) <==> {
            &&& forall|i: int|
                0 <= i < rects.len() ==> {
                    &&& -0x8000_0000 <= (#[trigger] rects[i]).x + rects[i].width < 0x8000_0000
                    &&& -0x8000_0000 <= rects[i].y + rects[i].height < 0x8000_0000
                }
            &&& forall|i: int, j: int|
                0 <= i < rects.len() && 0 <= j < rects.len() ==> {
                    &&& (#[trigger] rects[j]).x + rects[j].width - (#[trigger] rects[i]).x
                        < 0x8000_0000
                    &&& rects[j].y + rects[j].height - rects[i].y < 0x8000_0000
                }
        },
{
    if rects.len() > 0 {
        law_box_is_tight(rects);
        let l = choose|i: int| 0 <= i < rects.len() && (#[trigger] rects[i]).x == left_of(rects);
        let r = choose|i: int|
            0 <= i < rects.len() && (#[trigger] rects[i]).x + rects[i].width == right_of(rects);
        let t = choose|i: int| 0 <= i < rects.len() && (#[trigger] rects[i]).y == top_of(rects);
        let b = choose|i: int|
            0 <= i < rects.len() && (#[trigger] rects[i]).y + rects[i].height == bottom_of(rects);
        assert(rects[l].x + rects[l].width <= right_of(rects));
        assert(rects[t].y + rects[t].height <= bottom_of(rects));
        assert(rects[r].x >= left_of(rects) && rects[b].y >= top_of(rects));
    }
    assert forall|i: int| 0 <= i < rects.len() implies ((#[trigger] rects[i]).edges_fit() <==> {
        &&& -0x8000_0000 <= rects[i].x + rects[i].width < 0x8000_0000
        &&& -0x8000_0000 <= rects[i].y + rects[i].height < 0x8000_0000
    }) by {}
}

/// Every point that a rectangle of a group covers lies in the box around the
/// group.
pub proof fn law_covered_points_lie_in_the_box(rects: Seq<Rect>, x: int, y: int)
    requires
        covered(rects, x, y),
    ensures
        left_of(rects) <= x < right_of(rects),
        top_of(rects) <= y < bottom_of(rects),
        drawable(rects),
{
    law_box_is_tight(rects);
}

} // verus!
