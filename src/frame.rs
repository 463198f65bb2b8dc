use vstd::prelude::*;
use vstd::arithmetic::div_mod::{
    lemma_fundamental_div_mod_converse_div,
    lemma_fundamental_div_mod_converse_mod,
};

verus! {

/// A colour ramp: `a` out of `n`, scaled to the range of one byte.
pub open spec fn ramp(a: int, n: int) -> int {
    a * 255 / n
}

pub open spec fn min_int(a: int, b: int) -> int {
    if a <= b { a } else { b }
}

/// The four bytes (blue, green, red, alpha) of the pixel at column `x` and
/// row `y` of a `width` by `height` frame whose corner handles are `handle`
/// pixels wide: black at the top left, white at the bottom right, and a
/// gradient everywhere else.
pub open spec fn pixel(width: int, height: int, handle: int, x: int, y: int) -> Seq<u8> {
    if x <= handle && y <= handle {
        seq![0u8, 0u8, 0u8, 255u8]
    } else if width - x <= handle && height - y <= handle {
        seq![255u8, 255u8, 255u8, 255u8]
    } else {
        let r = min_int(ramp(width - x, width), ramp(height - y, height));
        let g = min_int(ramp(x, width), ramp(height - y, height));
        let b = min_int(ramp(width - x, width), ramp(y, height));
        seq![b as u8, g as u8, r as u8, 255u8]
    }
}

/// The whole frame, row-major, four bytes per pixel.
pub open spec fn frame(width: int, height: int, handle: int) -> Seq<u8> {
    Seq::new(
        (width * height * 4) as nat,
        |i: int| pixel(width, height, handle, (i / 4) % width, (i / 4) / width)[i % 4],
    )
}

/// The frame is a function of its size and handle size alone: two frames
/// produced for the same arguments are byte for byte the same.
pub proof fn lemma_frame_deterministic(
    width: u32,
    height: u32,
    handle: u32,
    first: Seq<u8>,
    second: Seq<u8>,
)
    requires
        first == frame(width as int, height as int, handle as int),
        second == frame(width as int, height as int, handle as int),
    ensures
        first == second,
{
}

fn ramp_u64(a: u32, n: u32) -> (r: u64)
    requires
        0 < n,
        a <= n,
    ensures
        r == ramp(a as int, n as int),
{
    (a as u64 * 255) / n as u64
}

fn min_u64(a: u64, b: u64) -> (r: u64)
    ensures
        r == min_int(a as int, b as int),
{
    if a <= b { a } else { b }
}

/// The pixel at column `x`, row `y`, as (blue, green, red, alpha).
pub fn pixel_at(width: u32, height: u32, handle: u32, x: u32, y: u32) -> (r: (u8, u8, u8, u8))
    requires
        x < width,
        y < height,
    ensures
        seq![r.0, r.1, r.2, r.3] == pixel(width as int, height as int, handle as int, x as int, y as int),
{
    if x <= handle && y <= handle {
        (0, 0, 0, 255)
    } else if width - x <= handle && height - y <= handle {
        (255, 255, 255, 255)
    } else {
        let r = min_u64(ramp_u64(width - x, width), ramp_u64(height - y, height));
        let g = min_u64(ramp_u64(x, width), ramp_u64(height - y, height));
        let b = min_u64(ramp_u64(width - x, width), ramp_u64(y, height));
        (b as u8, g as u8, r as u8, 255)
    }
}

/// Produces the pixel content of a `width` by `height` frame whose corner
/// handles are `handle` pixels wide.
pub fn frame_content(width: u32, height: u32, handle: u32) -> (r: Vec<u8>)
    requires
        width * height * 4 <= usize::MAX,
    ensures
        r@ == frame(width as int, height as int, handle as int),
{
    let ghost w = width as int;
    let ghost h = height as int;
    let ghost hs = handle as int;
    let mut out: Vec<u8> = Vec::new();
    let mut y: u32 = 0;
    while y < height
        invariant
            w == width,
            h == height,
            hs == handle,
            y <= height,
            out@.len() == (y * w) * 4,
            forall|p: int, k: int|
                0 <= p < y * w && 0 <= k < 4 ==> #[trigger] out@[p * 4 + k] == pixel(w, h, hs, p % w, p / w)[k],
        decreases height - y,
    {
        let mut x: u32 = 0;
        while x < width
            invariant
                w == width,
                h == height,
                hs == handle,
                y < height,
                x <= width,
                out@.len() == (y * w + x) * 4,
                forall|p: int, k: int|
                    0 <= p < y * w + x && 0 <= k < 4 ==> #[trigger] out@[p * 4 + k] == pixel(w, h, hs, p % w, p / w)[k],
            decreases width - x,
        {
            let (b, g, r, a) = pixel_at(width, height, handle, x, y);
            let ghost before = out@;
            let ghost p0 = y * w + x;
            out.push(b);
            out.push(g);
            out.push(r);
            out.push(a);
            proof {
                lemma_fundamental_div_mod_converse_div(p0, w, y as int, x as int);
                lemma_fundamental_div_mod_converse_mod(p0, w, y as int, x as int);
                assert forall|p: int, k: int|
                    0 <= p < y * w + x + 1 && 0 <= k < 4 implies #[trigger] out@[p * 4 + k] == pixel(w, h, hs, p % w, p / w)[k] by {
                    if p < p0 {
                        assert(out@[p * 4 + k] == before[p * 4 + k]);
                    } else {
                        assert(p == p0);
                    }
                }
            }
            x = x + 1;
        }
        proof {
            assert(y * w + w == (y + 1) * w) by (nonlinear_arith);
        }
        y = y + 1;
    }
    proof {
        let f = frame(w, h, hs);
        assert(y == height);
        assert forall|i: int| 0 <= i < out@.len() implies out@[i] == f[i] by {
            let p = i / 4;
            let k = i % 4;
            assert(i == p * 4 + k);
            assert(out@[p * 4 + k] == pixel(w, h, hs, p % w, p / w)[k]);
        }
        assert(out@ =~= f);
    }
    out
}

/// Shared-memory layout of a buffer in 32-bit ARGB: four bytes per pixel,
/// rows `stride` bytes apart, `size` bytes in all.
#[derive(Clone, Copy, Debug, PartialEq, Eq, Structural)]
pub struct BufferLayout {
    pub width: i32,
    pub height: i32,
    pub stride: i32,
    pub size: i32,
}

/// The layout of a `width` by `height` buffer, or `None` where one of its
/// dimensions, its stride or its size does not fit the protocol's signed 32-bit integers.
pub fn buffer_layout(width: u32, height: u32) -> (r: Option<BufferLayout>)
    ensures
        r.is_some() <==> (width * 4 <= i32::MAX && height <= i32::MAX && width * height * 4 <= i32::MAX),
        r.is_some() ==> r.unwrap() == (BufferLayout {
            width: width as i32,
            height: height as i32,
            stride: (width * 4) as i32,
            size: (width * height * 4) as i32,
        }),
{
    if width > 536870911 || height > 2147483647 {
        return None;
    }
    assert(width * height <= 536870911 * 2147483647) by (nonlinear_arith)
        requires
            width <= 536870911,
            height <= 2147483647,
    ;
    let area: u64 = width as u64 * height as u64;
    if area > 536870911 {
        None
    } else {
        Some(BufferLayout {
            width: width as i32,
            height: height as i32,
            stride: (width * 4) as i32,
            size: (area * 4) as i32,
        })
    }
}

} // verus!
