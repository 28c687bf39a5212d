//! The bitmap that the overlay window is filled with.
use vstd::arithmetic::div_mod::lemma_fundamental_div_mod;
use vstd::arithmetic::div_mod::lemma_fundamental_div_mod_converse;
use vstd::prelude::*;

use crate::color::pack_pixel;
use crate::color::pixel_of;
use crate::rect::bottom_of;
use crate::rect::bounds_fit;
use crate::rect::covered;
use crate::rect::drawable;
use crate::rect::fits_i32;
use crate::rect::law_box_is_tight;
use crate::rect::law_covered_points_lie_in_the_box;
use crate::rect::left_of;
use crate::rect::right_of;
use crate::rect::top_of;
use crate::rect::Rect;

verus! {

/// The part of the screen that a bitmap stands for, and the pixel with which
/// rectangles are drawn in it.
#[derive(Debug, Clone, Copy, PartialEq, Eq, Structural)]
pub struct Canvas {
    /// The screen column of the leftmost pixels.
    pub x: i32,
    /// The screen row of the topmost pixels.
    pub y: i32,
    /// The number of pixels in a row.
    pub width: i32,
    /// The number of rows.
    pub height: i32,
    /// The pixel with which rectangles are drawn.
    pub pixel: u32,
}

/// How the bitmap of a canvas is laid out in memory.
#[derive(Debug, Clone, Copy, PartialEq, Eq, Structural)]
pub struct BitmapLayout {
    /// The number of pixels in a row.
    pub width: i32,
    /// The number of rows, negated: the topmost row comes first.
    pub height: i32,
    /// The number of color planes.
    pub planes: u16,
    /// The number of bits of a pixel.
    pub bit_count: u16,
}

/// Where and how a finished bitmap is laid over the screen.
#[derive(Debug, Clone, Copy, PartialEq, Eq, Structural)]
pub struct LayerUpdate {
    /// The screen column of the window.
    pub dst_x: i32,
    /// The screen row of the window.
    pub dst_y: i32,
    /// The width of the window.
    pub cx: i32,
    /// The height of the window.
    pub cy: i32,
    /// The bitmap column from which the window is filled.
    pub src_x: i32,
    /// The bitmap row from which the window is filled.
    pub src_y: i32,
    /// The alpha that is applied on top of that of the pixels.
    pub source_constant_alpha: u8,
}

/// The pixels of a bitmap, row by row, after rectangles were drawn into it.
/// The first pixel stands for the screen point `(x, y)`, and a row has `width`
/// pixels: those whose screen point lies in a rectangle hold `pixel`, the
/// others what they held before.
pub open spec fn painted(
    before: Seq<u32>,
    x: int,
    y: int,
    width: int,
    rects: Seq<Rect>,
    pixel: u32,
) -> Seq<u32> {
    Seq::new(
        before.len(),
        |k: int|
            if covered(rects, x + k % width, y + k / width) {
                pixel
            } else {
                before[k]
            },
    )
}

impl Canvas {
    /// A canvas has at least one pixel.
    pub open spec fn wf(self) -> bool {
        self.width > 0 && self.height > 0
    }

    /// Whether the canvas is the box around the rectangles, with the pixel of the
    /// color at the alpha.
    pub open spec fn draws(self, rects: Seq<Rect>, color: u32, alpha: u8) -> bool {
        &&& self.x == left_of(rects)
        &&& self.y == top_of(rects)
        &&& self.width == right_of(rects) - left_of(rects)
        &&& self.height == bottom_of(rects) - top_of(rects)
        &&& self.pixel == pixel_of(color, alpha)
    }

    /// Whether the edges of a rectangle, and their distances from the corner of
    /// the canvas, can be held by an `i32`.
    pub open spec fn offsets_fit(self, r: Rect) -> bool {
        &&& r.edges_fit()
        &&& fits_i32(r.x - self.x)
        &&& fits_i32(r.y - self.y)
        &&& fits_i32(r.right() - self.x)
        &&& fits_i32(r.bottom() - self.y)
    }

    /// The layout of the bitmap of a canvas.
    pub open spec fn layout(self) -> BitmapLayout {
        BitmapLayout {
            width: self.width,
            height: (-self.height) as i32,
            planes: 1,
            bit_count: 32,
        }
    }

    /// The update that lays the bitmap of a canvas over the screen.
    pub open spec fn update(self) -> LayerUpdate {
        LayerUpdate {
            dst_x: self.x,
            dst_y: self.y,
            cx: self.width,
            cy: self.height,
            src_x: 0,
            src_y: 0,
            source_constant_alpha: 255,
        }
    }

    /// The layout of the bitmap: top-down, with 32 bits for a pixel.
    pub fn bitmap_layout(&self) -> (layout: BitmapLayout)
        requires
            self.wf(),
        ensures
            layout == self.layout(),
            layout == (BitmapLayout {
                width: self.width,
                height: (-self.height) as i32,
                planes: 1,
                bit_count: 32,
            }),
    {
        BitmapLayout { width: self.width, height: -self.height, planes: 1, bit_count: 32 }
    }

    /// The number of pixels of the bitmap.
    pub fn pixel_count(&self) -> (count: usize)
        requires
            self.wf(),
            self.width * self.height <= i32::MAX,
        ensures
            count == self.width * self.height,
    {
        assert(self.width * self.height >= 0) by (nonlinear_arith)
            requires
                self.width > 0,
                self.height > 0,
        ;
        (self.width * self.height) as usize
    }

    /// The update that lays the whole bitmap over its part of the screen, with
    /// the alpha of its pixels unchanged.
    pub fn layer_update(&self) -> (update: LayerUpdate)
        ensures
            update == self.update(),
            update == (LayerUpdate {
                dst_x: self.x,
                dst_y: self.y,
                cx: self.width,
                cy: self.height,
                src_x: 0,
                src_y: 0,
                source_constant_alpha: 255,
            }),
    {
        LayerUpdate {
            dst_x: self.x,
            dst_y: self.y,
            cx: self.width,
            cy: self.height,
            src_x: 0,
            src_y: 0,
            source_constant_alpha: 255,
        }
    }

    /// Whether `paint` can place the rectangles: whether each edge, and its
    /// distance from the corner of the canvas, can be held by an `i32`.
    pub fn can_paint(&self, rects: &[Rect]) -> (b: bool)
        ensures
            b == (forall|i: int|
                0 <= i < rects@.len() ==> self.offsets_fit(#[trigger] rects@[i])),
    {
        let mut i: usize = 0;
        while i < rects.len()
            invariant
                i <= rects@.len(),
                forall|j: int| 0 <= j < i ==> self.offsets_fit(#[trigger] rects@[j]),
            decreases rects@.len() - i,
        {
            let r = rects[i];
            let right: i64 = r.x as i64 + r.width as i64;
            let bottom: i64 = r.y as i64 + r.height as i64;
            if !(in_i32(right) && in_i32(bottom) && in_i32(r.x as i64 - self.x as i64) && in_i32(
                r.y as i64 - self.y as i64,
            ) && in_i32(right - self.x as i64) && in_i32(bottom - self.y as i64)) {
                assert(!self.offsets_fit(rects@[i as int]));
                return false;
            }
            i += 1;
        }
        true
    }

    /// Draws the rectangles into a bitmap of the size of the canvas. What lies
    /// outside of the canvas is cut off.
    pub fn paint(&self, pixels: &mut [u32], rects: &[Rect])
        requires
            self.wf(),
            old(pixels)@.len() == self.width * self.height,
            forall|i: int| 0 <= i < rects@.len() ==> self.offsets_fit(#[trigger] rects@[i]),
        ensures
            final(pixels)@ == painted(
                old(pixels)@,
                self.x as int,
                self.y as int,
                self.width as int,
                rects@,
                self.pixel,
            ),
    {
        let ghost before = pixels@;
        let ghost x = self.x as int;
        let ghost y = self.y as int;
        let ghost w = self.width as int;
        let mut i: usize = 0;
        assert(pixels@ =~= painted(before, x, y, w, rects@.take(0), self.pixel));
        while i < rects.len()
            invariant
                i <= rects@.len(),
                self.wf(),
                x == self.x,
                y == self.y,
                w == self.width,
                before.len() == self.width * self.height,
                pixels@ == painted(before, x, y, w, rects@.take(i as int), self.pixel),
                forall|j: int| 0 <= j < rects@.len() ==> self.offsets_fit(#[trigger] rects@[j]),
            decreases rects@.len() - i,
        {
            let r = rects[i];
            assert(self.offsets_fit(rects@[i as int]));
            let left: usize = (r.x - self.x).max(0) as usize;
            let top: usize = (r.y - self.y).max(0) as usize;
            let right: usize = (r.x + r.width - self.x).min(self.width).max(0) as usize;
            let bottom: usize = (r.y + r.height - self.y).min(self.height).max(0) as usize;
            let ghost middle = pixels@;
            if left < right && top < bottom {
                self.fill(pixels, left, top, right, bottom);
            }
            proof {
                assert forall|k: int| 0 <= k < before.len() implies #[trigger] pixels@[k]
                    == painted(before, x, y, w, rects@.take(i + 1), self.pixel)[k] by {
                    lemma_cell_in_range(k, w, self.height as int);
                    lemma_covered_step(rects@, i as int, x + k % w, y + k / w);
                    assert(r.contains(x + k % w, y + k / w) <==> (left <= k % w < right && top <= k
                        / w < bottom));
                    assert(middle[k] == painted(
                        before,
                        x,
                        y,
                        w,
                        rects@.take(i as int),
                        self.pixel,
                    )[k]);
                }
                assert(pixels@ =~= painted(before, x, y, w, rects@.take(i + 1), self.pixel));
            }
            i += 1;
        }
        assert(rects@.take(rects@.len() as int) =~= rects@);
    }

    /// Sets the pixels of the columns from `left` and the rows from `top`, up to
    /// but without `right` and `bottom`.
    fn fill(&self, pixels: &mut [u32], left: usize, top: usize, right: usize, bottom: usize)
        requires
            self.wf(),
            old(pixels)@.len() == self.width * self.height,
            left < right <= self.width,
            top < bottom <= self.height,
        ensures
            final(pixels)@.len() == old(pixels)@.len(),
            forall|k: int|
                0 <= k < old(pixels)@.len() ==> #[trigger] final(pixels)@[k] == if left <= k
                    % (self.width as int) < right && top <= k / (self.width as int) < bottom {
                    self.pixel
                } else {
                    old(pixels)@[k]
                },
    {
        let ghost before = pixels@;
        let ghost w = self.width as int;
        let stride: usize = self.width as usize;
        assert(pixels.len() == before.len());
        let mut py: usize = top;
        while py < bottom
            invariant
                self.wf(),
                w == self.width,
                stride == w,
                before.len() == self.width * self.height,
                before.len() <= usize::MAX,
                pixels@.len() == before.len(),
                left < right <= w,
                top <= py <= bottom <= self.height,
                forall|k: int|
                    0 <= k < before.len() ==> #[trigger] pixels@[k] == if left <= k % w < right
                        && top <= k / w < py {
                        self.pixel
                    } else {
                        before[k]
                    },
            decreases bottom - py,
        {
            proof {
                lemma_row_in_range(py as int, w, self.height as int);
            }
            let ghost middle = pixels@;
            let start: usize = py * stride;
            let mut px: usize = left;
            while px < right
                invariant
                    start == py * w,
                    0 <= start,
                    start + w <= before.len(),
                    before.len() <= usize::MAX,
                    pixels@.len() == before.len(),
                    middle.len() == before.len(),
                    left <= px <= right <= w,
                    forall|k: int|
                        0 <= k < before.len() ==> #[trigger] pixels@[k] == if start + left <= k
                            < start + px {
                            self.pixel
                        } else {
                            middle[k]
                        },
                decreases right - px,
            {
                pixels[start + px] = self.pixel;
                px += 1;
            }
            proof {
                assert forall|k: int| 0 <= k < before.len() implies #[trigger] pixels@[k] == if left
                    <= k % w < right && top <= k / w < py + 1 {
                    self.pixel
                } else {
                    before[k]
                } by {
                    lemma_cell_in_row(k, w, py as int, left as int, right as int);
                    assert(middle[k] == if left <= k % w < right && top <= k / w < py {
                        self.pixel
                    } else {
                        before[k]
                    });
                }
            }
            py += 1;
        }
    }
}

/// The canvas on which the rectangles are drawn in a color and at an alpha: the
/// box around them. There is none where there is nothing to draw, that is where
/// there is no rectangle or the box has no area.
pub fn push_overlay_rects(rects: &[Rect], color_bgr: u32, alpha: u8) -> (canvas: Option<Canvas>)
    requires
        bounds_fit(rects@),
    ensures
        canvas is Some <==> drawable(rects@),
        canvas matches Some(c) ==> c.wf() && c.draws(rects@, color_bgr, alpha),
        canvas matches Some(c) ==> {
            &&& c.width > 0
            &&& c.height > 0
            &&& c.x == left_of(rects@)
            &&& c.y == top_of(rects@)
            &&& c.x + c.width == right_of(rects@)
            &&& c.y + c.height == bottom_of(rects@)
            &&& c.pixel == pixel_of(color_bgr, alpha)
        },
{
    if rects.len() == 0 {
        return None;
    }
    let (min_x, min_y, max_x, max_y) = bounds(rects);
    let w: i32 = max_x - min_x;
    let h: i32 = max_y - min_y;
    if w <= 0 || h <= 0 {
        return None;
    }
    Some(Canvas { x: min_x, y: min_y, width: w, height: h, pixel: pack_pixel(color_bgr, alpha) })
}

/// Whether the rectangles are in the range that `push_overlay_rects` can work
/// with: whether every edge, and the width and the height of the box around
/// them, can be held by an `i32`.
pub fn bounds_in_range(rects: &[Rect]) -> (b: bool)
    ensures
        b == bounds_fit(rects@),
{
    if rects.len() == 0 {
        return true;
    }
    let mut i: usize = 0;
    while i < rects.len()
        invariant
            i <= rects@.len(),
            forall|j: int| 0 <= j < i ==> (#[trigger] rects@[j]).edges_fit(),
        decreases rects@.len() - i,
    {
        let r = rects[i];
        if !(in_i32(r.x as i64 + r.width as i64) && in_i32(r.y as i64 + r.height as i64)) {
            assert(!rects@[i as int].edges_fit());
            return false;
        }
        i += 1;
    }
    let (min_x, min_y, max_x, max_y) = bounds(rects);
    in_i32(max_x as i64 - min_x as i64) && in_i32(max_y as i64 - min_y as i64)
}

/// The left, top, right and bottom edge of the box around the rectangles.
fn bounds(rects: &[Rect]) -> (r: (i32, i32, i32, i32))
    requires
        rects@.len() > 0,
        forall|i: int| 0 <= i < rects@.len() ==> (#[trigger] rects@[i]).edges_fit(),
    ensures
        r.0 == left_of(rects@),
        r.1 == top_of(rects@),
        r.2 == right_of(rects@),
        r.3 == bottom_of(rects@),
{
    let first = rects[0];
    assert(rects@[0].edges_fit());
    let mut min_x: i32 = first.x;
    let mut min_y: i32 = first.y;
    let mut max_x: i32 = first.x + first.width;
    let mut max_y: i32 = first.y + first.height;
    let mut i: usize = 1;
    while i < rects.len()
        invariant
            1 <= i <= rects@.len(),
            forall|j: int| 0 <= j < rects@.len() ==> (#[trigger] rects@[j]).edges_fit(),
            forall|j: int|
                0 <= j < i ==> {
                    &&& min_x <= (#[trigger] rects@[j]).x
                    &&& min_y <= rects@[j].y
                    &&& rects@[j].right() <= max_x
                    &&& rects@[j].bottom() <= max_y
                },
            exists|j: int| 0 <= j < i && (#[trigger] rects@[j]).x == min_x,
            exists|j: int| 0 <= j < i && (#[trigger] rects@[j]).y == min_y,
            exists|j: int| 0 <= j < i && (#[trigger] rects@[j]).right() == max_x,
            exists|j: int| 0 <= j < i && (#[trigger] rects@[j]).bottom() == max_y,
        decreases rects@.len() - i,
    {
        let r = rects[i];
        assert(rects@[i as int].edges_fit());
        min_x = min_x.min(r.x);
        min_y = min_y.min(r.y);
        max_x = max_x.max(r.x + r.width);
        max_y = max_y.max(r.y + r.height);
        i += 1;
    }
    proof {
        law_box_is_tight(rects@);
    }
    (min_x, min_y, max_x, max_y)
}

/// Whether a number can be held by an `i32`.
fn in_i32(n: i64) -> (b: bool)
    ensures
        b == fits_i32(n as int),
{
    i32::MIN as i64 <= n && n <= i32::MAX as i64
}

/// A row of a bitmap lies in it.
proof fn lemma_row_in_range(row: int, w: int, h: int)
    requires
        0 <= row < h,
        w > 0,
    ensures
        0 <= row * w,
        row * w + w <= w * h,
{
    assert(0 <= row * w && row * w + w <= w * h) by (nonlinear_arith)
        requires
            0 <= row < h,
            w > 0,
    ;
}

/// The row and the column of a pixel are in the range of the bitmap.
proof fn lemma_cell_in_range(k: int, w: int, h: int)
    requires
        0 <= k < w * h,
        w > 0,
    ensures
        0 <= k % w < w,
        0 <= k / w < h,
{
    assert(0 <= k % w < w && 0 <= k / w < h) by (nonlinear_arith)
        requires
            0 <= k < w * h,
            w > 0,
    ;
}

/// The pixels of a stretch of a row, by their place and by row and column.
proof fn lemma_cell_in_row(k: int, w: int, row: int, left: int, right: int)
    requires
        0 <= k,
        w > 0,
        0 <= left < right <= w,
    ensures
        (row * w + left <= k < row * w + right) <==> (k / w == row && left <= k % w < right),
{
    lemma_fundamental_div_mod(k, w);
    assert(w * (k / w) == (k / w) * w) by (nonlinear_arith);
    if row * w + left <= k < row * w + right {
        lemma_fundamental_div_mod_converse(k, w, row, k - row * w);
    }
}

/// The pixel at a column and a row of a painted bitmap: it is drawn exactly if
/// its screen point lies in one of the rectangles.
pub proof fn law_painted_point(
    before: Seq<u32>,
    x: int,
    y: int,
    width: int,
    height: int,
    rects: Seq<Rect>,
    pixel: u32,
    px: int,
    py: int,
)
    requires
        before.len() == width * height,
        0 <= px < width,
        0 <= py < height,
    ensures
        painted(before, x, y, width, rects, pixel).len() == before.len(),
        0 <= py * width + px < before.len(),
        painted(before, x, y, width, rects, pixel)[py * width + px] == if covered(
            rects,
            x + px,
            y + py,
        ) {
            pixel
        } else {
            before[py * width + px]
        },
{
    lemma_row_in_range(py, width, height);
    lemma_fundamental_div_mod_converse(py * width + px, width, py, px);
}

/// The canvas that is chosen for rectangles reaches from the leftmost left edge to
/// the rightmost right edge, and from the topmost top edge to the lowest bottom
/// edge, and no further.
pub proof fn law_canvas_is_the_box(canvas: Canvas, rects: Seq<Rect>, color: u32, alpha: u8)
    requires
        rects.len() > 0,
        canvas.draws(rects, color, alpha),
    ensures
        canvas.pixel == pixel_of(color, alpha),
        forall|i: int|
            0 <= i < rects.len() ==> {
                &&& canvas.x <= (#[trigger] rects[i]).x
                &&& canvas.y <= rects[i].y
                &&& rects[i].x + rects[i].width <= canvas.x + canvas.width
                &&& rects[i].y + rects[i].height <= canvas.y + canvas.height
            },
        exists|i: int| 0 <= i < rects.len() && (#[trigger] rects[i]).x == canvas.x,
        exists|i: int| 0 <= i < rects.len() && (#[trigger] rects[i]).y == canvas.y,
        exists|i: int|
            0 <= i < rects.len() && (#[trigger] rects[i]).x + rects[i].width == canvas.x
                + canvas.width,
        exists|i: int|
            0 <= i < rects.len() && (#[trigger] rects[i]).y + rects[i].height == canvas.y
                + canvas.height,
{
    law_box_is_tight(rects);
}

/// A canvas is well-formed exactly if it has a pixel, and it can place a rectangle
/// exactly if the edges, and their distances from its corner, are numbers of 32
/// bits.
pub proof fn law_canvas_range(canvas: Canvas, r: Rect)
    ensures
        canvas.wf() <==> canvas.width >= 1 && canvas.height >= 1,
        canvas.offsets_fit(r) <==> {
            &&& -0x8000_0000 <= r.x + r.width < 0x8000_0000
            &&& -0x8000_0000 <= r.y + r.height < 0x8000_0000
            &&& -0x8000_0000 <= r.x - canvas.x < 0x8000_0000
            &&& -0x8000_0000 <= r.y - canvas.y < 0x8000_0000
            &&& -0x8000_0000 <= r.x + r.width - canvas.x < 0x8000_0000
            &&& -0x8000_0000 <= r.y + r.height - canvas.y < 0x8000_0000
        },
{
}

/// The layout has room for exactly the pixels of the canvas, one plane of 32 bits
/// each, with the topmost row first.
pub proof fn law_layout_holds_the_pixels(canvas: Canvas)
    requires
        canvas.wf(),
    ensures
        canvas.layout().height < 0,
        canvas.layout().width * -canvas.layout().height == canvas.width * canvas.height,
        canvas.layout().width == canvas.width,
        canvas.layout().planes * canvas.layout().bit_count == u32::BITS,
        canvas.layout().planes == 1,
{
}

/// The update brings the pixel at a column and a row of the bitmap to the screen
/// point that it stands for, in a window of the size of the bitmap, and leaves its
/// alpha as it is.
pub proof fn law_update_places_the_pixels(canvas: Canvas, px: int, py: int)
    requires
        0 <= px < canvas.width,
        0 <= py < canvas.height,
    ensures
        canvas.update().dst_x + (px - canvas.update().src_x) == canvas.x + px,
        canvas.update().dst_y + (py - canvas.update().src_y) == canvas.y + py,
        canvas.update().src_x <= px < canvas.update().src_x + canvas.update().cx,
        canvas.update().src_y <= py < canvas.update().src_y + canvas.update().cy,
        canvas.update().src_x == 0 && canvas.update().src_y == 0,
        canvas.update().cx == canvas.width && canvas.update().cy == canvas.height,
        canvas.update().source_constant_alpha == 255,
{
}

/// Nothing is cut off: each screen point that a rectangle covers has its place
/// on the box around the rectangles, and there the pixel is drawn.
pub proof fn law_covered_points_are_painted(
    before: Seq<u32>,
    rects: Seq<Rect>,
    pixel: u32,
    sx: int,
    sy: int,
)
    requires
        covered(rects, sx, sy),
        before.len() == (right_of(rects) - left_of(rects)) * (bottom_of(rects) - top_of(rects)),
    ensures
        ({
            let width = right_of(rects) - left_of(rects);
            let k = (sy - top_of(rects)) * width + (sx - left_of(rects));
            &&& 0 <= k < before.len()
            &&& painted(before, left_of(rects), top_of(rects), width, rects, pixel)[k] == pixel
        }),
{
    law_covered_points_lie_in_the_box(rects, sx, sy);
    law_painted_point(
        before,
        left_of(rects),
        top_of(rects),
        right_of(rects) - left_of(rects),
        bottom_of(rects) - top_of(rects),
        rects,
        pixel,
        sx - left_of(rects),
        sy - top_of(rects),
    );
}

/// Painting the same rectangles twice is the same as painting them once.
pub proof fn law_painting_is_idempotent(
    before: Seq<u32>,
    x: int,
    y: int,
    width: int,
    rects: Seq<Rect>,
    pixel: u32,
)
    ensures
        painted(painted(before, x, y, width, rects, pixel), x, y, width, rects, pixel) == painted(
            before,
            x,
            y,
            width,
            rects,
            pixel,
        ),
{
    assert(painted(painted(before, x, y, width, rects, pixel), x, y, width, rects, pixel)
        =~= painted(before, x, y, width, rects, pixel));
}

/// Rectangles without a negative extent can always be painted on the canvas that
/// is the box around them.
pub proof fn law_box_can_be_painted(canvas: Canvas, rects: Seq<Rect>)
    requires
        bounds_fit(rects),
        drawable(rects),
        canvas.x == left_of(rects),
        canvas.y == top_of(rects),
        forall|i: int|
            0 <= i < rects.len() ==> (#[trigger] rects[i]).width >= 0 && rects[i].height >= 0,
    ensures
        forall|i: int| 0 <= i < rects.len() ==> canvas.offsets_fit(#[trigger] rects[i]),
{
    law_box_is_tight(rects);
}

/// Covering by one rectangle more.
proof fn lemma_covered_step(rects: Seq<Rect>, i: int, x: int, y: int)
    requires
        0 <= i < rects.len(),
    ensures
        covered(rects.take(i + 1), x, y) <==> (covered(rects.take(i), x, y) || rects[i].contains(
            x,
            y,
        )),
{
    let short = rects.take(i);
    let long = rects.take(i + 1);
    if covered(short, x, y) {
        let j = choose|j: int| 0 <= j < short.len() && (#[trigger] short[j]).contains(x, y);
        assert(long[j].contains(x, y));
    }
    if rects[i].contains(x, y) {
        assert(long[i].contains(x, y));
    }
    if covered(long, x, y) {
        let j = choose|j: int| 0 <= j < long.len() && (#[trigger] long[j]).contains(x, y);
        if j < i {
            assert(short[j].contains(x, y));
        }
    }
}

} // verus!
