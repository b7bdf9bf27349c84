//! How the framebuffer is laid out on a host window: every pixel becomes a
//! square of `SCALE_X` by `SCALE_Y` window pixels.

use vstd::prelude::*;

verus! {

/// Width of one machine pixel on the window.
pub const SCALE_X: u8 = 12;

/// Height of one machine pixel on the window.
pub const SCALE_Y: u8 = 12;

/// A rectangle on the window, by its top-left corner and its size.
#[derive(Clone, Copy, Debug, PartialEq, Eq, Structural)]
pub struct PixelRect {
    /// Distance of the left edge from the left edge of the window.
    pub x: i32,
    /// Distance of the top edge from the top edge of the window.
    pub y: i32,
    /// Width of the rectangle.
    pub width: u32,
    /// Height of the rectangle.
    pub height: u32,
}

/// The rectangle that shows the pixel at framebuffer index `index`.
pub open spec fn rect_of(index: int) -> PixelRect {
    PixelRect { x: ((index % 64) * 12) as i32, y: ((index / 64) * 12) as i32, width: 12, height: 12 }
}

/// The rectangles of the lit pixels among the first `count` pixels, in the
/// order of their indices.
pub open spec fn lit_rects_of(pixels: Seq<bool>, count: int) -> Seq<PixelRect>
    decreases count,
{
    if count <= 0 {
        Seq::empty()
    } else if pixels[count - 1] {
        lit_rects_of(pixels, count - 1).push(rect_of(count - 1))
    } else {
        lit_rects_of(pixels, count - 1)
    }
}

/// The size of the window, width first.
pub fn window_size() -> (size: (u32, u32))
    ensures
        size.0 == 64 * 12,
        size.1 == 32 * 12,
{
    (64 * SCALE_X as u32, 32 * SCALE_Y as u32)
}

/// The rectangle that shows the pixel at framebuffer index `index`.
pub fn pixel_rect(index: usize) -> (rect: PixelRect)
    requires
        index < 2048,
    ensures
        rect == rect_of(index as int),
{
    let x = index % 64;
    let y = index / 64;
    PixelRect {
        x: x as i32 * SCALE_X as i32,
        y: y as i32 * SCALE_Y as i32,
        width: SCALE_X as u32,
        height: SCALE_Y as u32,
    }
}

/// The rectangles to fill for a framebuffer: one for each lit pixel, in the
/// order of their indices.
pub fn lit_rects(pixels: &[bool; 2048]) -> (rects: Vec<PixelRect>)
    ensures
        rects@ == lit_rects_of(pixels@, 2048),
{
    let mut rects: Vec<PixelRect> = Vec::new();
    let mut index: usize = 0;
    while index < 2048
        invariant
            index <= 2048,
            rects@ == lit_rects_of(pixels@, index as int),
        decreases 2048 - index,
    {
        if pixels[index] {
            rects.push(pixel_rect(index));
        }
        index += 1;
    }
    rects
}

/// Whether `rect` shows one of the lit pixels among the first `count`.
pub open spec fn shows_lit_pixel(pixels: Seq<bool>, count: int, rect: PixelRect) -> bool {
    exists|k: int| 0 <= k < count && pixels[k] && #[trigger] rect_of(k) == rect
}

/// Every rectangle of `lit_rects_of` shows a lit pixel, and every lit pixel
/// has its rectangle there.
pub proof fn lit_rects_are_the_lit_pixels(pixels: Seq<bool>, count: int)
    requires
        0 <= count <= pixels.len(),
    ensures
        forall|j: int|
            0 <= j < lit_rects_of(pixels, count).len() ==> shows_lit_pixel(
                pixels,
                count,
                #[trigger] lit_rects_of(pixels, count)[j],
            ),
        forall|k: int|
            0 <= k < count && pixels[k] ==> lit_rects_of(pixels, count).contains(
                #[trigger] rect_of(k),
            ),
    decreases count,
{
    if count > 0 {
        lit_rects_are_the_lit_pixels(pixels, count - 1);
        let prev = lit_rects_of(pixels, count - 1);
        let all = lit_rects_of(pixels, count);
        assert forall|j: int| 0 <= j < all.len() implies shows_lit_pixel(
            pixels,
            count,
            #[trigger] all[j],
        ) by {
            if j < prev.len() {
                assert(shows_lit_pixel(pixels, count - 1, prev[j]));
                let k = choose|k: int|
                    0 <= k < count - 1 && pixels[k] && #[trigger] rect_of(k) == prev[j];
                assert(0 <= k < count && pixels[k] && rect_of(k) == all[j]);
            } else {
                assert(rect_of(count - 1) == all[j]);
            }
        }
        assert forall|k: int| 0 <= k < count && pixels[k] implies all.contains(
            #[trigger] rect_of(k),
        ) by {
            if k < count - 1 {
                let j = choose|j: int| 0 <= j < prev.len() && prev[j] == rect_of(k);
                assert(all[j] == rect_of(k));
            } else {
                assert(all[all.len() - 1] == rect_of(k));
            }
        }
    }
}

} // verus!
