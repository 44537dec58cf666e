//! The tray icon: three rounded vertical bars, one per counter, over a faint
//! baseline, on an 18 x 18 RGBA canvas.

use vstd::prelude::*;
use crate::canvas::{byte_at, lemma_byte_at_injective, set_pixel};

verus! {

/// Width of one bar, in pixels.
pub const BAR_WIDTH: u32 = 4;

/// Row of the lowest pixel of every bar.
pub const BAR_BOTTOM: u32 = 15;

/// Height of the bar drawn for `count`: a step function that stops growing at
/// three, so that "three or more" all look alike.
pub open spec fn bar_height_of(count: int) -> int {
    if count == 0 {
        5
    } else if count == 1 {
        8
    } else if count == 2 {
        11
    } else {
        13
    }
}

/// Row of the highest pixel of the bar drawn for `count`.
pub open spec fn bar_top(count: int) -> int {
    BAR_BOTTOM + 1 - bar_height_of(count)
}

/// Pixel `(x, y)` is painted by the bar whose left column is `x_start`: it lies
/// in the bar's rectangle and is not one of the four corners, which stay clear
/// so that the bar looks rounded.
pub open spec fn in_bar(x_start: int, count: int, x: int, y: int) -> bool {
    let top = bar_top(count);
    &&& x_start <= x < x_start + BAR_WIDTH
    &&& top <= y <= BAR_BOTTOM
    &&& !((y == top || y == BAR_BOTTOM) && (x == x_start || x == x_start + BAR_WIDTH - 1))
}

/// Colour of a bar: the category's own colour when its counter is non-zero.
pub open spec fn bar_color(count: int, active: Seq<u8>, inactive: Seq<u8>) -> Seq<u8> {
    if count > 0 {
        active
    } else {
        inactive
    }
}

/// Height, in pixels, of the bar drawn for `count`.
pub fn bar_height(count: u32) -> (h: u32)
    ensures
        h == bar_height_of(count as int),
{
    match count {
        0 => 5,
        1 => 8,
        2 => 11,
        _ => 13,
    }
}

/// Every count from three up gives the bar the height it has for three.
pub proof fn lemma_bar_height_saturates(count: int)
    requires
        count >= 3,
    ensures
        bar_height_of(count) == bar_height_of(3),
{
}

/// Paints the bar for `count` with its left column at `x_start`; all other
/// pixels keep their bytes.
pub fn draw_bar(
    rgba: &mut Vec<u8>,
    width: u32,
    x_start: u32,
    count: u32,
    active_color: [u8; 4],
    inactive_color: [u8; 4],
)
    requires
        x_start + BAR_WIDTH <= width,
        byte_at(width as int, 0, BAR_BOTTOM + 1, 0) <= old(rgba)@.len(),
    ensures
        final(rgba)@.len() == old(rgba)@.len(),
        forall|x: int, y: int, k: int|
            0 <= x < width && 0 <= y && 0 <= k < 4 && byte_at(width as int, x, y, k) < old(
                rgba,
            )@.len() ==> #[trigger] final(rgba)@[byte_at(width as int, x, y, k)] == if in_bar(
                x_start as int,
                count as int,
                x,
                y,
            ) {
                bar_color(count as int, active_color@, inactive_color@)[k]
            } else {
                old(rgba)@[byte_at(width as int, x, y, k)]
            },
{
    let height = bar_height(count);
    let top: u32 = BAR_BOTTOM + 1 - height;
    let color = if count > 0 {
        active_color
    } else {
        inactive_color
    };
    let ghost original = rgba@;
    let ghost w = width as int;
    let ghost xs = x_start as int;
    let ghost c = count as int;
    let mut y: u32 = top;
    while y <= BAR_BOTTOM
        invariant
            top == bar_top(c),
            top <= y <= BAR_BOTTOM + 1,
            w == width,
            xs == x_start,
            c == count,
            color@ == bar_color(c, active_color@, inactive_color@),
            x_start + BAR_WIDTH <= width,
            byte_at(w, 0, BAR_BOTTOM + 1, 0) <= original.len(),
            rgba@.len() == original.len(),
            forall|px: int, py: int, k: int|
                0 <= px < w && 0 <= py && 0 <= k < 4 && byte_at(w, px, py, k) < original.len()
                    ==> #[trigger] rgba@[byte_at(w, px, py, k)] == if in_bar(xs, c, px, py) && py
                    < y {
                    color@[k]
                } else {
                    original[byte_at(w, px, py, k)]
                },
        decreases BAR_BOTTOM + 1 - y,
    {
        let mut x: u32 = x_start;
        while x < x_start + BAR_WIDTH
            invariant
                top == bar_top(c),
                top <= y <= BAR_BOTTOM,
                x_start <= x <= x_start + BAR_WIDTH,
                w == width,
                xs == x_start,
                c == count,
                color@ == bar_color(c, active_color@, inactive_color@),
                x_start + BAR_WIDTH <= width,
                byte_at(w, 0, BAR_BOTTOM + 1, 0) <= original.len(),
                rgba@.len() == original.len(),
                forall|px: int, py: int, k: int|
                    0 <= px < w && 0 <= py && 0 <= k < 4 && byte_at(w, px, py, k) < original.len()
                        ==> #[trigger] rgba@[byte_at(w, px, py, k)] == if in_bar(xs, c, px, py) && (
                    py < y || (py == y && px < x)) {
                        color@[k]
                    } else {
                        original[byte_at(w, px, py, k)]
                    },
            decreases x_start + BAR_WIDTH - x,
        {
            let is_corner = (y == top || y == BAR_BOTTOM) && (x == x_start || x == x_start
                + BAR_WIDTH - 1);
            if !is_corner {
                let ghost before = rgba@;
                assert(byte_at(w, x as int, y as int, 4) <= original.len()) by {
                    assert((y as int) * w + w <= 16 * w) by (nonlinear_arith)
                        requires
                            y <= BAR_BOTTOM,
                            w >= 0,
                    ;
                    assert(byte_at(w, 0, BAR_BOTTOM + 1, 0) == 64 * w);
                    assert(byte_at(w, x as int, y as int, 4) == ((y as int) * w + x) * 4 + 4);
                }
                set_pixel(rgba, width, x, y, color);
                assert forall|px: int, py: int, k: int|
                    0 <= px < w && 0 <= py && 0 <= k < 4 && byte_at(w, px, py, k)
                        < original.len() implies #[trigger] rgba@[byte_at(w, px, py, k)]
                    == if in_bar(xs, c, px, py) && (py < y || (py == y && px < x + 1)) {
                    color@[k]
                } else {
                    original[byte_at(w, px, py, k)]
                } by {
                    let b = byte_at(w, px, py, k);
                    let s = byte_at(w, x as int, y as int, 0);
                    if s <= b < s + 4 {
                        lemma_byte_at_injective(w, px, py, k, x as int, y as int, b - s);
                    }
                }
            }
            x = x + 1;
        }
        y = y + 1;
    }
}


/// Side of the square tray icon, in pixels.
pub const ICON_SIZE: u32 = 18;

/// Number of bytes in the icon's RGBA buffer.
pub const ICON_BYTES: usize = 1296;

/// Row of the baseline under the bars.
pub const BASELINE_ROW: u32 = 16;

/// Left columns of the conflict, failed-pipeline and review bars.
pub const CONFLICT_BAR_X: u32 = 1;

pub const FAILED_CI_BAR_X: u32 = 7;

pub const REVIEW_BAR_X: u32 = 13;

/// Amber: merge conflicts.
pub open spec fn conflict_color() -> Seq<u8> {
    seq![245u8, 158u8, 11u8, 255u8]
}

/// Red: failed pipelines.
pub open spec fn failed_ci_color() -> Seq<u8> {
    seq![239u8, 68u8, 68u8, 255u8]
}

/// Blue: reviews waiting.
pub open spec fn review_color() -> Seq<u8> {
    seq![14u8, 165u8, 233u8, 255u8]
}

/// Shared slate grey of a bar whose counter is zero.
pub open spec fn inactive_color() -> Seq<u8> {
    seq![148u8, 163u8, 184u8, 220u8]
}

/// Low-alpha grey of the baseline.
pub open spec fn baseline_color() -> Seq<u8> {
    seq![100u8, 116u8, 139u8, 120u8]
}

/// Fully transparent black.
pub open spec fn clear_color() -> Seq<u8> {
    seq![0u8, 0u8, 0u8, 0u8]
}

/// Pixel `(x, y)` belongs to the baseline: row 16, columns 1 to 16.
pub open spec fn on_baseline(x: int, y: int) -> bool {
    y == BASELINE_ROW && 1 <= x < ICON_SIZE - 1
}

/// Colour of pixel `(x, y)` of the icon for the three counters.
pub open spec fn icon_pixel(conflict: int, failed_ci: int, review: int, x: int, y: int) -> Seq<u8> {
    if on_baseline(x, y) {
        baseline_color()
    } else if in_bar(CONFLICT_BAR_X as int, conflict, x, y) {
        bar_color(conflict, conflict_color(), inactive_color())
    } else if in_bar(FAILED_CI_BAR_X as int, failed_ci, x, y) {
        bar_color(failed_ci, failed_ci_color(), inactive_color())
    } else if in_bar(REVIEW_BAR_X as int, review, x, y) {
        bar_color(review, review_color(), inactive_color())
    } else {
        clear_color()
    }
}

/// `rgba` is the 18 x 18 icon for the three counters, pixel by pixel.
pub open spec fn is_icon_of(rgba: Seq<u8>, conflict: int, failed_ci: int, review: int) -> bool {
    &&& rgba.len() == ICON_BYTES
    &&& forall|x: int, y: int, k: int|
        0 <= x < ICON_SIZE && 0 <= y < ICON_SIZE && 0 <= k < 4 ==> #[trigger] rgba[byte_at(
            ICON_SIZE as int,
            x,
            y,
            k,
        )] == icon_pixel(conflict, failed_ci, review, x, y)[k]
}

/// Renders the tray icon for the three counters as an 18 x 18 RGBA buffer.
pub fn create_tray_icon_image(conflict_count: u32, failed_ci_count: u32, review_pending_count: u32) -> (rgba: Vec<u8>)
    ensures
        is_icon_of(rgba@, conflict_count as int, failed_ci_count as int, review_pending_count as int),
{
    let width: u32 = ICON_SIZE;
    let mut rgba: Vec<u8> = vec![0u8; ICON_BYTES];
    let inactive: [u8; 4] = [148, 163, 184, 220];
    let conflict: [u8; 4] = [245, 158, 11, 255];
    let failed_ci: [u8; 4] = [239, 68, 68, 255];
    let review: [u8; 4] = [14, 165, 233, 255];
    let baseline: [u8; 4] = [100, 116, 139, 120];
    assert(inactive@ =~= inactive_color());
    assert(conflict@ =~= conflict_color());
    assert(failed_ci@ =~= failed_ci_color());
    assert(review@ =~= review_color());
    assert(baseline@ =~= baseline_color());
    let ghost blank = rgba@;
    assert(forall|i: int| 0 <= i < ICON_BYTES ==> #[trigger] blank[i] == 0u8);

    draw_bar(&mut rgba, width, CONFLICT_BAR_X, conflict_count, conflict, inactive);
    draw_bar(&mut rgba, width, FAILED_CI_BAR_X, failed_ci_count, failed_ci, inactive);
    draw_bar(&mut rgba, width, REVIEW_BAR_X, review_pending_count, review, inactive);
    let ghost bars = rgba@;
    let ghost w = ICON_SIZE as int;

    let mut x: u32 = 1;
    while x < ICON_SIZE - 1
        invariant
            1 <= x <= ICON_SIZE - 1,
            w == ICON_SIZE,
            width == ICON_SIZE,
            baseline@ == baseline_color(),
            rgba@.len() == ICON_BYTES,
            bars.len() == ICON_BYTES,
            forall|px: int, py: int, k: int|
                0 <= px < w && 0 <= py && 0 <= k < 4 && byte_at(w, px, py, k) < ICON_BYTES
                    ==> #[trigger] rgba@[byte_at(w, px, py, k)] == if py == BASELINE_ROW && 1
                    <= px < x {
                    baseline@[k]
                } else {
                    bars[byte_at(w, px, py, k)]
                },
        decreases ICON_SIZE - 1 - x,
    {
        set_pixel(&mut rgba, width, x, BASELINE_ROW, baseline);
        assert forall|px: int, py: int, k: int|
            0 <= px < w && 0 <= py && 0 <= k < 4 && byte_at(w, px, py, k)
                < ICON_BYTES implies #[trigger] rgba@[byte_at(w, px, py, k)] == if py
            == BASELINE_ROW && 1 <= px < x + 1 {
            baseline@[k]
        } else {
            bars[byte_at(w, px, py, k)]
        } by {
            let b = byte_at(w, px, py, k);
            let s = byte_at(w, x as int, BASELINE_ROW as int, 0);
            if s <= b < s + 4 {
                lemma_byte_at_injective(w, px, py, k, x as int, BASELINE_ROW as int, b - s);
            }
        }
        x = x + 1;
    }
    assert forall|px: int, py: int, k: int|
        0 <= px < ICON_SIZE && 0 <= py < ICON_SIZE && 0 <= k < 4 implies #[trigger] rgba@[byte_at(
        w,
        px,
        py,
        k,
    )] == icon_pixel(
        conflict_count as int,
        failed_ci_count as int,
        review_pending_count as int,
        px,
        py,
    )[k] by {
        assert(byte_at(w, px, py, k) < ICON_BYTES);
    }
    rgba
}


/// A counter as the icon sees it: everything from three up is three.
pub open spec fn clamp_count(count: int) -> int {
    if count >= 3 {
        3
    } else {
        count
    }
}

/// Every byte of the icon buffer is some channel of some pixel.
proof fn lemma_icon_byte_decomposes(i: int)
    requires
        0 <= i < ICON_BYTES,
    ensures
        ({
            let x = (i / 4) % (ICON_SIZE as int);
            let y = (i / 4) / (ICON_SIZE as int);
            &&& 0 <= x < ICON_SIZE
            &&& 0 <= y < ICON_SIZE
            &&& byte_at(ICON_SIZE as int, x, y, i % 4) == i
        }),
{
}

/// The icon is a function of the counters alone: two buffers that both
/// render the same counters are byte for byte the same.
pub proof fn lemma_icon_deterministic(a: Seq<u8>, b: Seq<u8>, conflict: int, failed_ci: int, review: int)
    requires
        is_icon_of(a, conflict, failed_ci, review),
        is_icon_of(b, conflict, failed_ci, review),
    ensures
        a == b,
{
    assert forall|i: int| 0 <= i < a.len() implies a[i] == b[i] by {
        lemma_icon_byte_decomposes(i);
        let x = (i / 4) % (ICON_SIZE as int);
        let y = (i / 4) / (ICON_SIZE as int);
        assert(a[byte_at(ICON_SIZE as int, x, y, i % 4)] == b[byte_at(ICON_SIZE as int, x, y, i % 4)]);
    }
    assert(a =~= b);
}

/// Counts above three draw exactly what three draws: the icon for any
/// counters equals the icon for the counters clamped at three.
pub proof fn lemma_icon_saturates(a: Seq<u8>, b: Seq<u8>, conflict: int, failed_ci: int, review: int)
    requires
        conflict >= 0,
        failed_ci >= 0,
        review >= 0,
        is_icon_of(a, conflict, failed_ci, review),
        is_icon_of(b, clamp_count(conflict), clamp_count(failed_ci), clamp_count(review)),
    ensures
        a == b,
{
    assert forall|x: int, y: int|
        icon_pixel(conflict, failed_ci, review, x, y) == #[trigger] icon_pixel(
            clamp_count(conflict),
            clamp_count(failed_ci),
            clamp_count(review),
            x,
            y,
        ) by {}
    lemma_icon_deterministic(a, b, conflict, failed_ci, review);
}

} // verus!
