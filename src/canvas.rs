//! A minimal RGBA pixel buffer: four bytes per pixel, rows laid out one after
//! another, `width` pixels to a row.

use vstd::prelude::*;

verus! {

/// Position of byte `k` (0 = red .. 3 = alpha) of pixel `(x, y)` in a buffer
/// whose rows hold `width` pixels.
pub open spec fn byte_at(width: int, x: int, y: int, k: int) -> int {
    (y * width + x) * 4 + k
}

/// Two in-row pixel positions with in-pixel channels name the same byte only
/// when they are the same position and channel.
pub proof fn lemma_byte_at_injective(width: int, x1: int, y1: int, k1: int, x2: int, y2: int, k2: int)
    requires
        0 <= x1 < width,
        0 <= x2 < width,
        0 <= k1 < 4,
        0 <= k2 < 4,
        byte_at(width, x1, y1, k1) == byte_at(width, x2, y2, k2),
    ensures
        x1 == x2,
        y1 == y2,
        k1 == k2,
{
    let p1 = y1 * width + x1;
    let p2 = y2 * width + x2;
    assert(p1 == p2 && k1 == k2);
    if y1 < y2 {
        assert(y1 * width + width <= y2 * width) by (nonlinear_arith)
            requires
                y1 < y2,
                width > 0,
        ;
    } else if y2 < y1 {
        assert(y2 * width + width <= y1 * width) by (nonlinear_arith)
            requires
                y2 < y1,
                width > 0,
        ;
    }
}

/// Writes `color` into pixel `(x, y)`; every other byte keeps its value.
pub fn set_pixel(rgba: &mut Vec<u8>, width: u32, x: u32, y: u32, color: [u8; 4])
    requires
        x < width,
        byte_at(width as int, x as int, y as int, 4) <= old(rgba)@.len(),
    ensures
        final(rgba)@.len() == old(rgba)@.len(),
        forall|k: int|
            0 <= k < 4 ==> #[trigger] final(rgba)@[byte_at(width as int, x as int, y as int, k)]
                == color@[k],
        forall|i: int|
            0 <= i < old(rgba)@.len() && !(byte_at(width as int, x as int, y as int, 0) <= i
                < byte_at(width as int, x as int, y as int, 4)) ==> #[trigger] final(rgba)@[i]
                == old(rgba)@[i],
{
    let ghost start = byte_at(width as int, x as int, y as int, 0);
    assert((y as int) * (width as int) >= 0) by (nonlinear_arith)
        requires
            y >= 0,
            width >= 0,
    ;
    let len: usize = rgba.len();
    assert(start + 4 <= len);
    let row: usize = y as usize * width as usize;
    let index: usize = (row + x as usize) * 4;
    assert(index == start);
    rgba.set(index, color[0]);
    rgba.set(index + 1, color[1]);
    rgba.set(index + 2, color[2]);
    rgba.set(index + 3, color[3]);
}

} // verus!
