use vstd::prelude::*;

verus! {

/// Pointer coordinates are fixed-point numbers with this many steps per pixel,
/// as the protocol carries them.
pub const FIXED_ONE: i64 = 256;

/// Where on the window a pointer position falls.
#[derive(Clone, Copy, Debug, PartialEq, Eq, Structural)]
pub enum Region {
    /// The square handle at the top-left corner: pressing there moves the window.
    MoveHandle,
    /// The square handle at the bottom-right corner: pressing there resizes it.
    ResizeHandle,
    /// Anywhere else.
    Body,
}

/// The region of a `width` by `height` window with `handle`-pixel corner
/// squares that the fixed-point position (`x`, `y`) falls in. The move handle
/// wins where the two squares overlap.
pub open spec fn region_of(width: int, height: int, handle: int, x: int, y: int) -> Region {
    if x <= handle * 256 && y <= handle * 256 {
        Region::MoveHandle
    } else if width * 256 - x <= handle * 256 && height * 256 - y <= handle * 256 {
        Region::ResizeHandle
    } else {
        Region::Body
    }
}

/// A fixed-point coordinate truncated toward zero to whole pixels.
pub open spec fn truncate_fixed(v: int) -> int {
    if v >= 0 {
        v / 256
    } else {
        -((-v) / 256)
    }
}

/// Hit-tests a pointer position against the two corner handles.
pub fn hit_region(width: u32, height: u32, handle: u32, x: i32, y: i32) -> (r: Region)
    ensures
        r == region_of(width as int, height as int, handle as int, x as int, y as int),
{
    let limit = handle as i64 * FIXED_ONE;
    if x as i64 <= limit && y as i64 <= limit {
        Region::MoveHandle
    } else if width as i64 * FIXED_ONE - x as i64 <= limit && height as i64 * FIXED_ONE - y as i64
        <= limit {
        Region::ResizeHandle
    } else {
        Region::Body
    }
}

/// The whole-pixel part of a fixed-point coordinate, truncated toward zero.
pub fn whole_pixels(v: i32) -> (r: i32)
    ensures
        r == truncate_fixed(v as int),
{
    let wide = v as i64;
    if wide >= 0 {
        (wide / FIXED_ONE) as i32
    } else {
        (-((-wide) / FIXED_ONE)) as i32
    }
}

} // verus!
