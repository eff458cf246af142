use vstd::arithmetic::div_mod::lemma_fundamental_div_mod_converse;
use vstd::prelude::*;

verus! {

/// Number of pixels that one call of the iteration kernel computes.
pub const LANE_COUNT: u32 = 8;

/// The fill loop polls the cancel flag at every row position that is a
/// multiple of this many pixels.
pub const CANCEL_POLL_PIXELS: u32 = 32;

/// Hard cap on the iteration budget of a tile.
pub const MAX_ITER: u32 = 4500;

/// The fill loop stopped because its cancel flag was raised.
#[derive(Clone, Copy, Debug, PartialEq, Eq, Structural)]
pub struct Cancelled;

/// The stored pixel for an escape count: 0 for "never escaped within
/// `max_iter` iterations", else the 1-based escape iteration clamped to
/// `u16::MAX`.
pub open spec fn pixel_value(count: u32, max_iter: u32) -> u16 {
    if count >= max_iter {
        0
    } else if count + 1 >= u16::MAX {
        u16::MAX
    } else {
        (count + 1) as u16
    }
}

/// Pixel `i` of a buffer of packed little-endian 16-bit pixels.
pub open spec fn pixel_at(bytes: Seq<u8>, i: int) -> int {
    bytes[2 * i] + 256 * bytes[2 * i + 1]
}

/// `v` is a pixel value that the kernel can yield for pixel `i` of a tile
/// `width` pixels wide: the kernel, called for the lane block holding the
/// pixel, returned counts whose entry for that pixel maps to `v`.
pub open spec fn kernel_pixel<K: Fn(u32, u32) -> [u32; 8]>(
    kernel: K,
    width: u32,
    max_iter: u32,
    i: int,
    v: int,
) -> bool {
    let x = i % (width as int);
    let y = i / (width as int);
    exists|counts: [u32; 8]|
        #[trigger] kernel.ensures(((x - x % 8) as u32, y as u32), counts) && v == pixel_value(
            counts@[x % 8],
            max_iter,
        ) as int
}

/// The first `done` pixels of `bytes` hold kernel results.
pub open spec fn filled_prefix<K: Fn(u32, u32) -> [u32; 8]>(
    kernel: K,
    width: u32,
    max_iter: u32,
    bytes: Seq<u8>,
    done: int,
) -> bool {
    forall|i: int| 0 <= i < done ==> kernel_pixel(kernel, width, max_iter, i, #[trigger] pixel_at(bytes, i))
}

/// Every byte from index `from` on is the same in `a` and `b`.
pub open spec fn unchanged_from(a: Seq<u8>, b: Seq<u8>, from: int) -> bool {
    &&& a.len() == b.len()
    &&& forall|j: int| from <= j < a.len() ==> a[j] == b[j]
}

/// Maps an escape count to the stored pixel value.
pub fn pixel_from_count(count: u32, max_iter: u32) -> (r: u16)
    ensures
        r == pixel_value(count, max_iter),
{
    if count >= max_iter {
        0
    } else if count >= (u16::MAX - 1) as u32 {
        u16::MAX
    } else {
        (count + 1) as u16
    }
}

/// Writes `v` as pixel `i` (two little-endian bytes) and leaves every other
/// byte as it was.
fn store_pixel(out: &mut Vec<u8>, i: usize, v: u16)
    requires
        2 * i + 1 < old(out).len(),
    ensures
        final(out)@.len() == old(out)@.len(),
        pixel_at(final(out)@, i as int) == v,
        forall|j: int| 0 <= j < old(out)@.len() && j != 2 * i && j != 2 * i + 1 ==> final(out)@[j] == old(out)@[j],
{
    let lo: u8 = (v & 0xff) as u8;
    let hi: u8 = (v >> 8u16) as u8;
    assert(lo as u16 + 256u16 * (hi as u16) == v) by (bit_vector)
        requires
            lo == (v & 0xff) as u8,
            hi == (v >> 8u16) as u8,
    ;
    out[2 * i] = lo;
    out[2 * i + 1] = hi;
}

/// Fills a tile of `width` x `height` pixels, row by row, in blocks of
/// eight lanes.
///
/// `kernel(x0, y)` yields the escape counts of the eight pixels from column
/// `x0` of row `y` on; lanes past the row's end are ignored. The pixel at
/// column `x`, row `y` is written as `pixel_value` of its count at bytes
/// `2 * (y * width + x)` and the next one. Before each block that starts at
/// a column that is a multiple of `CANCEL_POLL_PIXELS` the loop asks
/// `cancelled()`; on `true` it returns `Err(Cancelled)` at once: what was
/// written by then is a prefix of finished pixels, and nothing after it is
/// touched.
pub fn fill_tile<K, C>(
    width: u32,
    height: u32,
    max_iter: u32,
    kernel: K,
    cancelled: C,
    out: &mut Vec<u8>,
) -> (r: Result<(), Cancelled>) where K: Fn(u32, u32) -> [u32; 8], C: Fn() -> bool
    requires
        old(out)@.len() == 2 * (width * height),
        forall|x: u32, y: u32| kernel.requires((x, y)),
        cancelled.requires(()),
    ensures
        final(out)@.len() == old(out)@.len(),
        r is Ok ==> filled_prefix(kernel, width, max_iter, final(out)@, width * height),
        r is Err ==> exists|done: int|
            0 <= done < width * height && filled_prefix(kernel, width, max_iter, final(out)@, done)
                && unchanged_from(final(out)@, old(out)@, 2 * done),
        (forall|b: bool| cancelled.ensures((), b) ==> !b) ==> r is Ok,
        (forall|b: bool| cancelled.ensures((), b) ==> b) && width > 0 && height > 0 ==> r is Err
            && final(out)@ == old(out)@,
{
    let ghost old_bytes = out@;
    let total: usize = out.len();
    let mut done: usize = 0;
    let mut y: u32 = 0;
    proof {
        assert(0 <= width * height) by (nonlinear_arith);
    }
    while y < height
        invariant
            forall|x: u32, yy: u32| kernel.requires((x, yy)),
            cancelled.requires(()),
            old_bytes == old(out)@,
            out@.len() == old_bytes.len(),
            old_bytes.len() == 2 * (width * height),
            y <= height,
            done == y * width,
            done <= width * height,
            filled_prefix(kernel, width, max_iter, out@, done as int),
            unchanged_from(out@, old_bytes, 2 * done),
            (forall|b: bool| cancelled.ensures((), b) ==> b) && width > 0 ==> y == 0,
            total == old_bytes.len(),
        decreases height - y,
    {
        proof {
            assert((y + 1) * width <= width * height) by (nonlinear_arith)
                requires
                    y < height,
            ;
            assert((y + 1) * width == y * width + width) by (nonlinear_arith);
        }
        let mut x0: u32 = 0;
        while x0 < width
            invariant
                forall|x: u32, yy: u32| kernel.requires((x, yy)),
                cancelled.requires(()),
                old_bytes == old(out)@,
                out@.len() == old_bytes.len(),
                old_bytes.len() == 2 * (width * height),
                y < height,
                x0 <= width,
                x0 % 8 == 0 || x0 == width,
                done == y * width + x0,
                (y + 1) * width <= width * height,
                (y + 1) * width == y * width + width,
                total == old_bytes.len(),
                filled_prefix(kernel, width, max_iter, out@, done as int),
                unchanged_from(out@, old_bytes, 2 * done),
                (forall|b: bool| cancelled.ensures((), b) ==> b) && width > 0 ==> y == 0 && x0 == 0,
            decreases width - x0,
        {
            if x0 % CANCEL_POLL_PIXELS == 0 {
                if cancelled() {
                    assert(0 <= done < width * height && filled_prefix(kernel, width, max_iter, out@, done as int)
                        && unchanged_from(out@, old(out)@, 2 * done));
                    return Err(Cancelled);
                }
            }
            let counts = kernel(x0, y);
            let n: u32 = if width - x0 < LANE_COUNT {
                width - x0
            } else {
                LANE_COUNT
            };
            let mut lane: u32 = 0;
            while lane < n
                invariant
                    old_bytes.len() == 2 * (width * height),
                    out@.len() == old_bytes.len(),
                    y < height,
                    x0 < width,
                    x0 % 8 == 0,
                    n <= 8,
                    x0 + n <= width,
                    lane <= n,
                    done == y * width + x0,
                    (y + 1) * width <= width * height,
                    (y + 1) * width == y * width + width,
                    total == old_bytes.len(),
                    kernel.ensures((x0, y), counts),
                    filled_prefix(kernel, width, max_iter, out@, done + lane),
                    unchanged_from(out@, old_bytes, 2 * (done + lane)),
                decreases n - lane,
            {
                let idx: usize = done + lane as usize;
                let v = pixel_from_count(counts[lane as usize], max_iter);
                let ghost before = out@;
                store_pixel(out, idx, v);
                proof {
                    lemma_fundamental_div_mod_converse(
                        idx as int,
                        width as int,
                        y as int,
                        (x0 + lane) as int,
                    );
                    let x = idx as int % (width as int);
                    assert(x == x0 + lane);
                    assert(idx as int / (width as int) == y);
                    assert(x % 8 == lane as int);
                    assert(x - x % 8 == x0 as int);
                    assert(((x - x % 8) as u32, (idx as int / (width as int)) as u32) == (x0, y));
                    assert(pixel_at(out@, idx as int) == pixel_value(counts@[x % 8], max_iter) as int);
                    assert(kernel_pixel(kernel, width, max_iter, idx as int, pixel_at(out@, idx as int)));
                    assert forall|i: int| 0 <= i < done + lane + 1 implies kernel_pixel(
                        kernel,
                        width,
                        max_iter,
                        i,
                        #[trigger] pixel_at(out@, i),
                    ) by {
                        if i < idx {
                            assert(pixel_at(out@, i) == pixel_at(before, i));
                        }
                    }
                }
                lane += 1;
            }
            done = done + n as usize;
            x0 = x0 + n;
        }
        proof {
            assert((y + 1) * width == y * width + width) by (nonlinear_arith);
        }
        y += 1;
    }
    proof {
        assert(done == width * height) by (nonlinear_arith)
            requires
                done == y * width,
                y == height,
        ;
    }
    Ok(())
}

} // verus!
