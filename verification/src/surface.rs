//! The pixels of the window's surface, one `u32` each, stored row after
//! row. A highlight is an inversion of colors in place, which a second
//! inversion takes back.

use crate::region::{
    get_item, grid_of, item_at, lemma_is_grid_of, lemma_item_is_place, set_item,
};
use vstd::prelude::*;

verus! {

/// The bits of a pixel that hold its color.
pub const COLOR_BITS: u32 = 0x00FF_FFFF;

/// A pixel with its color inverted. The top byte stays.
pub open spec fn inverted(pixel: u32) -> u32 {
    pixel ^ COLOR_BITS
}

/// Whether the pixel `(px, py)` lies in the rectangle of `w` by `h` pixels at
/// `(x, y)`.
pub open spec fn in_rect(x: int, y: int, w: int, h: int, px: int, py: int) -> bool {
    x <= px < x + w && y <= py < y + h
}

/// The surface after the rectangle of `w` by `h` pixels at `(x, y)` was
/// inverted, as far as it lies on the surface.
pub open spec fn inverted_pixels(
    pixels: Seq<u32>,
    width: int,
    height: int,
    x: int,
    y: int,
    w: int,
    h: int,
) -> Seq<u32> {
    grid_of(
        width,
        height,
        |px: int, py: int|
            if in_rect(x, y, w, h, px, py) {
                inverted(item_at(pixels, width, px, py))
            } else {
                item_at(pixels, width, px, py)
            },
    )
}

/// Inverts the colors of a rectangle of pixels, as far as it lies on the
/// surface.
pub fn invert(
    pixels: &mut Vec<u32>,
    width: usize,
    height: usize,
    x: usize,
    y: usize,
    w: usize,
    h: usize,
)
    requires
        old(pixels)@.len() == width * height,
    ensures
        final(pixels)@ == inverted_pixels(
            old(pixels)@,
            width as int,
            height as int,
            x as int,
            y as int,
            w as int,
            h as int,
        ),
        final(pixels)@.len() == old(pixels)@.len(),
{
    let x_end: usize = if x >= width {
        x
    } else if w >= width - x {
        width
    } else {
        x + w
    };
    let y_end: usize = if y >= height {
        y
    } else if h >= height - y {
        height
    } else {
        y + h
    };
    let ghost before = pixels@;
    let mut py: usize = y;
    while py < y_end
        invariant
            y <= py <= y_end,
            x <= x_end,
            y_end <= height || y_end == y,
            x_end <= width || x_end == x,
            before.len() == width * height,
            pixels@.len() == before.len(),
            forall|a: int, b: int|
                0 <= a < width && 0 <= b < height ==> #[trigger] item_at(
                    pixels@,
                    width as int,
                    a,
                    b,
                ) == if x <= a < x_end && y <= b < py {
                    inverted(item_at(before, width as int, a, b))
                } else {
                    item_at(before, width as int, a, b)
                },
        decreases y_end - py,
    {
        let mut px: usize = x;
        while px < x_end
            invariant
                x <= px <= x_end,
                y <= py < y_end,
                y_end <= height,
                x_end <= width || x_end == x,
                before.len() == width * height,
                pixels@.len() == before.len(),
                forall|a: int, b: int|
                    0 <= a < width && 0 <= b < height ==> #[trigger] item_at(
                        pixels@,
                        width as int,
                        a,
                        b,
                    ) == if x <= a < x_end && (y <= b < py || (b == py && a < px)) {
                        inverted(item_at(before, width as int, a, b))
                    } else {
                        item_at(before, width as int, a, b)
                    },
            decreases x_end - px,
        {
            let pixel = get_item(pixels, width, height, px, py);
            set_item(pixels, width, height, px, py, pixel ^ COLOR_BITS);
            px = px + 1;
        }
        py = py + 1;
    }
    proof {
        let f = |a: int, b: int|
            if in_rect(x as int, y as int, w as int, h as int, a, b) {
                inverted(item_at(before, width as int, a, b))
            } else {
                item_at(before, width as int, a, b)
            };
        assert forall|a: int, b: int| 0 <= a < width && 0 <= b < height implies #[trigger] item_at(
            pixels@,
            width as int,
            a,
            b,
        ) == f(a, b) by {
            assert((x <= a < x_end) == (x as int <= a < x as int + w as int));
            assert((y <= b < y_end) == (y as int <= b < y as int + h as int));
        }
        lemma_is_grid_of(pixels@, width as int, height as int, f);
        assert(pixels@ =~= inverted_pixels(
            before,
            width as int,
            height as int,
            x as int,
            y as int,
            w as int,
            h as int,
        ));
    }
}

/// Inverting a pixel twice gives the pixel back.
pub proof fn lemma_inverted_twice(pixel: u32)
    ensures
        inverted(inverted(pixel)) == pixel,
{
    assert((pixel ^ 0x00FF_FFFFu32) ^ 0x00FF_FFFFu32 == pixel) by (bit_vector);
}

/// Inverting a rectangle twice leaves the surface as it was: a highlight can
/// always be taken back.
pub proof fn lemma_invert_twice(
    pixels: Seq<u32>,
    width: int,
    height: int,
    x: int,
    y: int,
    w: int,
    h: int,
)
    requires
        0 <= width,
        0 <= height,
        pixels.len() == width * height,
    ensures
        inverted_pixels(inverted_pixels(pixels, width, height, x, y, w, h), width, height, x, y, w, h)
            == pixels,
{
    let once = inverted_pixels(pixels, width, height, x, y, w, h);
    let twice = inverted_pixels(once, width, height, x, y, w, h);
    assert forall|k: int| 0 <= k < pixels.len() implies twice[k] == pixels[k] by {
        crate::region::lemma_place_is_item(width, height, k);
        let a = k % width;
        let b = k / width;
        lemma_item_is_place(width, height, a, b);
        lemma_inverted_twice(pixels[k]);
        assert(item_at(once, width, a, b) == once[k]);
        assert(item_at(pixels, width, a, b) == pixels[k]);
    }
    assert(twice =~= pixels);
}

} // verus!
