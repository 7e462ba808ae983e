use vstd::prelude::*;

use crate::screen::{Rect, spec_clamp_rect, clamp_rect};

verus! {

/// The RGBA pixel whose first byte is at `offset`.
pub open spec fn pixel_at_offset(pixels: Seq<u8>, offset: int) -> (u8, u8, u8, u8) {
    (pixels[offset], pixels[offset + 1], pixels[offset + 2], pixels[offset + 3])
}

/// Pixel `i` of a tightly packed RGBA buffer.
pub open spec fn pixel(pixels: Seq<u8>, i: int) -> (u8, u8, u8, u8) {
    pixel_at_offset(pixels, 4 * i)
}

/// How many of the first `n` pixels differ between `left` and `right`.
pub open spec fn spec_changed_pixels(left: Seq<u8>, right: Seq<u8>, n: nat) -> nat
    decreases n,
{
    if n == 0 {
        0
    } else {
        spec_changed_pixels(left, right, (n - 1) as nat) + if pixel(left, n - 1) != pixel(right, n - 1) {
            1nat
        } else {
            0nat
        }
    }
}

/// Whether the pixel of `left` at byte `left_offset` differs from the pixel of
/// `right` at byte `right_offset`.
fn pixels_differ(left: &[u8], left_offset: usize, right: &[u8], right_offset: usize) -> (r: bool)
    requires
        left_offset + 4 <= left@.len(),
        right_offset + 4 <= right@.len(),
    ensures
        r == (pixel_at_offset(left@, left_offset as int) != pixel_at_offset(
            right@,
            right_offset as int,
        )),
{
    left[left_offset] != right[right_offset] || left[left_offset + 1] != right[right_offset + 1]
        || left[left_offset + 2] != right[right_offset + 2] || left[left_offset + 3]
        != right[right_offset + 3]
}

/// Number of whole RGBA pixels that differ between two captures; `usize::MAX`
/// when the captures differ in length. Trailing bytes that do not form a whole
/// pixel are ignored.
pub fn changed_pixel_count(left: &[u8], right: &[u8]) -> (count: usize)
    ensures
        left@.len() != right@.len() ==> count == usize::MAX,
        left@.len() == right@.len() ==> count == spec_changed_pixels(
            left@,
            right@,
            left@.len() / 4,
        ),
{
    if left.len() != right.len() {
        return usize::MAX;
    }
    let n = left.len() / 4;
    let mut count: usize = 0;
    let mut i: usize = 0;
    while i < n
        invariant
            left@.len() == right@.len(),
            n == left@.len() / 4,
            i <= n,
            count <= i,
            count == spec_changed_pixels(left@, right@, i as nat),
        decreases n - i,
    {
        assert(4 * i + 4 <= left.len()) by (nonlinear_arith)
            requires
                i < n,
                n == left.len() / 4,
        ;
        if pixels_differ(left, 4 * i, right, 4 * i) {
            count = count + 1;
        }
        i = i + 1;
    }
    count
}

/// Whether a capture holds at least two whole pixels and not all of them equal
/// the first.
pub open spec fn spec_frame_has_non_uniform_content(pixels: Seq<u8>) -> bool {
    pixels.len() >= 8 && exists|i: int| 1 <= i < pixels.len() / 4 && #[trigger] pixel(pixels, i) != pixel(pixels, 0)
}

pub fn frame_has_non_uniform_content(pixels: &[u8]) -> (r: bool)
    ensures
        r == spec_frame_has_non_uniform_content(pixels@),
{
    if pixels.len() < 8 {
        return false;
    }
    let n = pixels.len() / 4;
    let mut i: usize = 1;
    while i < n
        invariant
            pixels@.len() >= 8,
            n == pixels@.len() / 4,
            1 <= i <= n,
            forall|j: int| 1 <= j < i ==> #[trigger] pixel(pixels@, j) == pixel(pixels@, 0),
        decreases n - i,
    {
        assert(4 * i + 4 <= pixels.len()) by (nonlinear_arith)
            requires
                i < n,
                n == pixels.len() / 4,
        ;
        if pixels_differ(pixels, 4 * i, pixels, 0) {
            assert(pixel(pixels@, i as int) != pixel(pixels@, 0));
            return true;
        }
        i = i + 1;
    }
    false
}

} // verus!

verus! {

/// Byte offset of pixel column `x` on row `y` of a buffer with `stride` bytes per row.
pub open spec fn row_offset(stride: int, x: int, y: int) -> int {
    y * stride + 4 * x
}

/// How many pixels of row `y`, columns `x0..x1`, differ between `left` and `right`.
pub open spec fn spec_changed_in_row(left: Seq<u8>, right: Seq<u8>, stride: int, y: int, x0: int, x1: int) -> nat
    decreases x1 - x0,
{
    if x1 <= x0 {
        0
    } else {
        spec_changed_in_row(left, right, stride, y, x0, x1 - 1) + if pixel_at_offset(
            left,
            row_offset(stride, x1 - 1, y),
        ) != pixel_at_offset(right, row_offset(stride, x1 - 1, y)) {
            1nat
        } else {
            0nat
        }
    }
}

/// How many pixels of rows `y0..y1`, columns `x0..x1`, differ between `left` and `right`.
pub open spec fn spec_changed_in_rows(
    left: Seq<u8>,
    right: Seq<u8>,
    stride: int,
    x0: int,
    x1: int,
    y0: int,
    y1: int,
) -> nat
    decreases y1 - y0,
{
    if y1 <= y0 {
        0
    } else {
        spec_changed_in_rows(left, right, stride, x0, x1, y0, y1 - 1) + spec_changed_in_row(
            left,
            right,
            stride,
            y1 - 1,
            x0,
            x1,
        )
    }
}

/// How many pixels of row `y`, columns `x0..x1`, differ from `base`.
pub open spec fn spec_varied_in_row(pixels: Seq<u8>, stride: int, base: (u8, u8, u8, u8), y: int, x0: int, x1: int) -> nat
    decreases x1 - x0,
{
    if x1 <= x0 {
        0
    } else {
        spec_varied_in_row(pixels, stride, base, y, x0, x1 - 1) + if pixel_at_offset(
            pixels,
            row_offset(stride, x1 - 1, y),
        ) != base {
            1nat
        } else {
            0nat
        }
    }
}

/// How many pixels of rows `y0..y1`, columns `x0..x1`, differ from `base`.
pub open spec fn spec_varied_in_rows(
    pixels: Seq<u8>,
    stride: int,
    base: (u8, u8, u8, u8),
    x0: int,
    x1: int,
    y0: int,
    y1: int,
) -> nat
    decreases y1 - y0,
{
    if y1 <= y0 {
        0
    } else {
        spec_varied_in_rows(pixels, stride, base, x0, x1, y0, y1 - 1) + spec_varied_in_row(
            pixels,
            stride,
            base,
            y1 - 1,
            x0,
            x1,
        )
    }
}

/// The last pixel that a scan of the clipped rectangle reads lies inside a
/// buffer of `len` bytes with `width` pixels per row.
pub open spec fn clipped_rect_in_buffer(rect: Rect, width: u32, height: u32, len: int) -> bool {
    match spec_clamp_rect(rect, width, height) {
        Some((x0, y0, x1, y1)) => (y1 - 1) * (4 * width) + 4 * x1 <= len,
        None => true,
    }
}

/// Number of pixels inside `rect` (clipped to the `width` x `height` frame)
/// that differ between two captures; `usize::MAX` when the captures differ in
/// length, and 0 when the clipped rectangle is empty.
pub fn changed_pixel_count_in_rect(left: &[u8], right: &[u8], width: u32, height: u32, rect: Rect) -> (changed: usize)
    requires
        rect.edges_fit(),
        width <= i32::MAX,
        height <= i32::MAX,
        4 * width <= usize::MAX,
        left@.len() == right@.len() ==> clipped_rect_in_buffer(rect, width, height, left@.len() as int),
    ensures
        left@.len() != right@.len() ==> changed == usize::MAX,
        left@.len() == right@.len() ==> changed == match spec_clamp_rect(rect, width, height) {
            Some((x0, y0, x1, y1)) => spec_changed_in_rows(
                left@,
                right@,
                4 * width,
                x0 as int,
                x1 as int,
                y0 as int,
                y1 as int,
            ),
            None => 0,
        },
{
    if left.len() != right.len() {
        return usize::MAX;
    }
    let clamped = clamp_rect(rect, width, height);
    let (x0, y0, x1, y1) = match clamped {
        Some(bounds) => bounds,
        None => {
            return 0;
        },
    };
    let stride: usize = width as usize * 4;
    let ghost len = left@.len() as int;
    let mut changed: usize = 0;
    let mut y: u32 = y0;
    while y < y1
        invariant
            left@.len() == right@.len(),
            len == left@.len(),
            len == left.len(),
            x0 < x1 <= width,
            y0 <= y <= y1,
            stride == 4 * width,
            (y1 - 1) * stride + 4 * x1 <= len,
            changed == spec_changed_in_rows(left@, right@, stride as int, x0 as int, x1 as int, y0 as int, y as int),
            changed <= y * width,
        decreases y1 - y,
    {
        let mut x: u32 = x0;
        assert(y * stride <= (y1 - 1) * stride) by (nonlinear_arith)
            requires
                y <= y1 - 1,
                0 <= stride,
        ;
        assert(y * stride == 4 * (y * width)) by (nonlinear_arith)
            requires
                stride == 4 * width,
        ;
        while x < x1
            invariant
                left@.len() == right@.len(),
                len == left@.len(),
                len == left.len(),
                x0 <= x <= x1 <= width,
                y0 <= y < y1,
                stride == 4 * width,
                y * stride + 4 * x1 <= len,
                y * stride == 4 * (y * width),
                changed == spec_changed_in_rows(left@, right@, stride as int, x0 as int, x1 as int, y0 as int, y as int)
                    + spec_changed_in_row(left@, right@, stride as int, y as int, x0 as int, x as int),
                changed <= y * width + x,
            decreases x1 - x,
        {
            let offset: usize = y as usize * stride + x as usize * 4;
            assert(offset == row_offset(stride as int, x as int, y as int));
            if pixels_differ(left, offset, right, offset) {
                changed = changed + 1;
            }
            x = x + 1;
        }
        assert((y + 1) * width == y * width + width) by (nonlinear_arith);
        y = y + 1;
    }
    changed
}

/// Number of pixels inside `rect` (clipped to the `width` x `height` frame)
/// that differ from the first pixel of the clipped rectangle; 0 when the buffer
/// is not exactly `width` x `height` RGBA pixels or the clipped rectangle is
/// empty.
pub fn pixel_variation_count_in_rect(width: u32, height: u32, pixels: &[u8], rect: Rect) -> (variation: usize)
    requires
        rect.edges_fit(),
        width <= i32::MAX,
        height <= i32::MAX,
        width * height * 4 <= usize::MAX,
    ensures
        pixels@.len() != width * height * 4 ==> variation == 0,
        pixels@.len() == width * height * 4 ==> variation == match spec_clamp_rect(rect, width, height) {
            Some((x0, y0, x1, y1)) => spec_varied_in_rows(
                pixels@,
                4 * width,
                pixel_at_offset(pixels@, row_offset(4 * width, x0 as int, y0 as int)),
                x0 as int,
                x1 as int,
                y0 as int,
                y1 as int,
            ),
            None => 0,
        },
{
    assert(width * height <= width * height * 4) by (nonlinear_arith);
    let expected: usize = width as usize * height as usize * 4;
    if pixels.len() != expected {
        return 0;
    }
    let (x0, y0, x1, y1) = match clamp_rect(rect, width, height) {
        Some(bounds) => bounds,
        None => {
            return 0;
        },
    };
    assert(width * 4 <= expected) by (nonlinear_arith)
        requires
            expected == width * height * 4,
            1 <= y1 <= height,
    ;
    let stride: usize = width as usize * 4;
    let ghost len = pixels@.len() as int;
    assert((y1 - 1) * stride + 4 * x1 <= len) by (nonlinear_arith)
        requires
            x1 <= width,
            1 <= y1 <= height,
            stride == 4 * width,
            len == width * height * 4,
    ;
    assert(y0 * stride <= (y1 - 1) * stride) by (nonlinear_arith)
        requires
            y0 <= y1 - 1,
            0 <= stride,
    ;
    let base_offset: usize = y0 as usize * stride + x0 as usize * 4;
    let ghost base = pixel_at_offset(pixels@, base_offset as int);
    let mut variation: usize = 0;
    let mut y: u32 = y0;
    while y < y1
        invariant
            len == pixels@.len(),
            len == pixels.len(),
            x0 < x1 <= width,
            y0 <= y <= y1,
            stride == 4 * width,
            (y1 - 1) * stride + 4 * x1 <= len,
            base_offset + 4 <= len,
            base == pixel_at_offset(pixels@, base_offset as int),
            variation == spec_varied_in_rows(pixels@, stride as int, base, x0 as int, x1 as int, y0 as int, y as int),
            variation <= y * width,
        decreases y1 - y,
    {
        let mut x: u32 = x0;
        assert(y * stride <= (y1 - 1) * stride) by (nonlinear_arith)
            requires
                y <= y1 - 1,
                0 <= stride,
        ;
        assert(y * stride == 4 * (y * width)) by (nonlinear_arith)
            requires
                stride == 4 * width,
        ;
        while x < x1
            invariant
                len == pixels@.len(),
                len == pixels.len(),
                x0 <= x <= x1 <= width,
                y0 <= y < y1,
                stride == 4 * width,
                y * stride + 4 * x1 <= len,
                y * stride == 4 * (y * width),
                base_offset + 4 <= len,
                base == pixel_at_offset(pixels@, base_offset as int),
                variation == spec_varied_in_rows(pixels@, stride as int, base, x0 as int, x1 as int, y0 as int, y as int)
                    + spec_varied_in_row(pixels@, stride as int, base, y as int, x0 as int, x as int),
                variation <= y * width + x,
            decreases x1 - x,
        {
            let offset: usize = y as usize * stride + x as usize * 4;
            assert(offset == row_offset(stride as int, x as int, y as int));
            if pixels_differ(pixels, offset, pixels, base_offset) {
                variation = variation + 1;
            }
            x = x + 1;
        }
        assert((y + 1) * width == y * width + width) by (nonlinear_arith);
        y = y + 1;
    }
    variation
}

} // verus!
