//! The two computations behind presenting a frame: resolving the indexed
//! frame image through its palette into the 24-bit RGB bytes of a streaming
//! texture row (at a caller-supplied pitch), and fitting the frame into the
//! current window by an integer scale with centering offsets.

use vstd::prelude::*;

use crate::image::Image;
use crate::image::Rgb24;

verus! {

/// The red byte of a packed `0x00RRGGBB` color.
pub open spec fn spec_red(color: Rgb24) -> u8 {
    ((color >> 16) & 0xff) as u8
}

/// The green byte of a packed `0x00RRGGBB` color.
pub open spec fn spec_green(color: Rgb24) -> u8 {
    ((color >> 8) & 0xff) as u8
}

/// The blue byte of a packed `0x00RRGGBB` color.
pub open spec fn spec_blue(color: Rgb24) -> u8 {
    (color & 0xff) as u8
}

/// Splits a packed color into its red, green and blue bytes, in that order.
pub fn unpack_rgb(color: Rgb24) -> (r: (u8, u8, u8))
    ensures
        r.0 == spec_red(color),
        r.1 == spec_green(color),
        r.2 == spec_blue(color),
{
    proof {
        assert(((color >> 16) & 0xff) < 256 && ((color >> 8) & 0xff) < 256 && (color & 0xff)
            < 256) by (bit_vector);
    }
    (((color >> 16) & 0xff) as u8, ((color >> 8) & 0xff) as u8, (color & 0xff) as u8)
}

/// The display color of pixel `(i, j)` of `screen`, resolved through its
/// palette.
pub open spec fn spec_pixel_color(screen: Image, i: int, j: int) -> Rgb24
    recommends
        screen.wf(),
        0 <= i < screen.height,
        0 <= j < screen.width,
{
    screen.palette.display_colors@[screen.data@[i]@[j] as int]
}

/// Pixel `(i, j)` of `screen` stands in `buf` as three bytes, red first,
/// at the pixel's offset in a row-major layout of row length `pitch`.
pub open spec fn spec_pixel_written(buf: Seq<u8>, pitch: int, screen: Image, i: int, j: int) -> bool
    recommends
        screen.wf(),
        0 <= i < screen.height,
        0 <= j < screen.width,
{
    &&& buf[i * pitch + 3 * j] == spec_red(spec_pixel_color(screen, i, j))
    &&& buf[i * pitch + 3 * j + 1] == spec_green(spec_pixel_color(screen, i, j))
    &&& buf[i * pitch + 3 * j + 2] == spec_blue(spec_pixel_color(screen, i, j))
}

/// Byte `b` of row `i` is the same in `post` as in `pre`: the renderer did
/// not touch it.
pub open spec fn spec_row_byte_preserved(
    pre: Seq<u8>,
    post: Seq<u8>,
    pitch: int,
    i: int,
    b: int,
) -> bool {
    post[i * pitch + b] == pre[i * pitch + b]
}

/// Resolves `screen` through its palette and writes it into `buffer` as
/// 24-bit RGB, three bytes per pixel, row `i` starting at byte `i * pitch`.
/// Every byte outside the written pixels — the tail of each row past
/// `3 * width`, and everything from `height * pitch` on — is left untouched.
pub fn fill_frame_buffer(buffer: &mut Vec<u8>, pitch: usize, screen: &Image)
    requires
        screen.wf(),
        3 * (screen.width as int) <= pitch as int,
        (screen.height as int) * (pitch as int) <= old(buffer)@.len(),
    ensures
        final(buffer)@.len() == old(buffer)@.len(),
        forall|i: int, j: int|
            0 <= i < screen.height && 0 <= j < screen.width ==> #[trigger] spec_pixel_written(
                final(buffer)@,
                pitch as int,
                *screen,
                i,
                j,
            ),
        forall|i: int, b: int|
            0 <= i < screen.height && 3 * (screen.width as int) <= b < pitch
                ==> #[trigger] spec_row_byte_preserved(
                old(buffer)@,
                final(buffer)@,
                pitch as int,
                i,
                b,
            ),
        forall|k: int|
            (screen.height as int) * (pitch as int) <= k < final(buffer)@.len()
                ==> final(buffer)@[k] == old(buffer)@[k],
{
    let width = screen.width as usize;
    let height = screen.height as usize;
    let buffer_len: usize = buffer.len();
    let mut i: usize = 0;
    let mut row_base: usize = 0;
    while i < height
        invariant
            screen.wf(),
            width == screen.width,
            height == screen.height,
            3 * (width as int) <= pitch as int,
            (height as int) * (pitch as int) <= old(buffer)@.len(),
            i <= height,
            row_base == (i as int) * (pitch as int),
            buffer@.len() == old(buffer)@.len(),
            buffer@.len() == buffer_len,
            forall|p: int, q: int|
                0 <= p < i && 0 <= q < width ==> #[trigger] spec_pixel_written(
                    buffer@,
                    pitch as int,
                    *screen,
                    p,
                    q,
                ),
            forall|p: int, b: int|
                0 <= p < i && 3 * (width as int) <= b < pitch ==> #[trigger] spec_row_byte_preserved(
                    old(buffer)@,
                    buffer@,
                    pitch as int,
                    p,
                    b,
                ),
            forall|k: int| row_base <= k < buffer@.len() ==> buffer@[k] == old(buffer)@[k],
        decreases height - i,
    {
        proof {
            assert((i as int) * (pitch as int) + pitch as int <= (height as int) * (pitch
                as int)) by (nonlinear_arith)
                requires
                    (i as int) < height as int,
                    0 <= pitch as int,
            ;
            assert((i as int + 1) * (pitch as int) == (i as int) * (pitch as int) + pitch
                as int) by (nonlinear_arith);
        }
        let row = &screen.data[i];
        let mut j: usize = 0;
        let mut off: usize = row_base;
        while j < width
            invariant
                screen.wf(),
                width == screen.width,
                height == screen.height,
                3 * (width as int) <= pitch as int,
                (height as int) * (pitch as int) <= old(buffer)@.len(),
                i < height,
                row_base == (i as int) * (pitch as int),
                row_base + pitch as int <= (height as int) * (pitch as int),
                row@ == screen.data@[i as int]@,
                j <= width,
                off == row_base + 3 * (j as int),
                buffer@.len() == old(buffer)@.len(),
                buffer@.len() == buffer_len,
                forall|p: int, q: int|
                    0 <= p < i && 0 <= q < width ==> #[trigger] spec_pixel_written(
                        buffer@,
                        pitch as int,
                        *screen,
                        p,
                        q,
                    ),
                forall|q: int|
                    0 <= q < j ==> spec_pixel_written(buffer@, pitch as int, *screen, i as int, q),
                forall|p: int, b: int|
                    0 <= p < i && 3 * (width as int) <= b < pitch
                        ==> #[trigger] spec_row_byte_preserved(
                        old(buffer)@,
                        buffer@,
                        pitch as int,
                        p,
                        b,
                    ),
                forall|k: int| off <= k < buffer@.len() ==> buffer@[k] == old(buffer)@[k],
            decreases width - j,
        {
            proof {
                assert(screen.data@[i as int]@[j as int] == row@[j as int]);
            }
            let color = screen.palette.display_color(row[j]);
            let (red, green, blue) = unpack_rgb(color);
            let ghost pre_writes = buffer@;
            buffer[off] = red;
            buffer[off + 1] = green;
            buffer[off + 2] = blue;
            proof {
                assert forall|p: int, q: int| 0 <= p < i && 0 <= q < width implies #[trigger]
                    spec_pixel_written(buffer@, pitch as int, *screen, p, q) by {
                    assert(p * (pitch as int) + 3 * q + 2 < (i as int) * (pitch as int))
                        by (nonlinear_arith)
                        requires
                            0 <= p < i as int,
                            0 <= q,
                            3 * q + 2 < pitch as int,
                            0 <= pitch as int,
                    ;
                    assert(spec_pixel_written(pre_writes, pitch as int, *screen, p, q));
                }
                assert forall|p: int, b: int|
                    0 <= p < i && 3 * (width as int) <= b < pitch implies #[trigger]
                    spec_row_byte_preserved(old(buffer)@, buffer@, pitch as int, p, b) by {
                    assert(p * (pitch as int) + b < (i as int) * (pitch as int))
                        by (nonlinear_arith)
                        requires
                            0 <= p < i as int,
                            0 <= b < pitch as int,
                            0 <= pitch as int,
                    ;
                    assert(spec_row_byte_preserved(old(buffer)@, pre_writes, pitch as int, p, b));
                }
                assert(spec_pixel_written(buffer@, pitch as int, *screen, i as int, j as int));
                assert forall|q: int| 0 <= q <= j implies spec_pixel_written(
                    buffer@,
                    pitch as int,
                    *screen,
                    i as int,
                    q,
                ) by {
                    if q < j {
                        assert(spec_pixel_written(pre_writes, pitch as int, *screen, i as int, q));
                    }
                }
            }
            off += 3;
            j += 1;
        }
        row_base += pitch;
        i += 1;
    }
}

/// How a frame of a given size fits into the current window: the integer
/// scale, the scaled frame size, and the offsets that center it.
pub struct ScreenFit {
    pub scale: u32,
    pub x: u32,
    pub y: u32,
    pub width: u32,
    pub height: u32,
}

/// The largest integer scale at which the frame still fits the window in
/// both directions: the smaller of the two per-axis quotients.
pub open spec fn spec_screen_scale(
    window_width: u32,
    window_height: u32,
    screen_width: u32,
    screen_height: u32,
) -> int
    recommends
        screen_width > 0,
        screen_height > 0,
{
    vstd::math::min(
        window_width as int / screen_width as int,
        window_height as int / screen_height as int,
    )
}

/// Fits a `screen_width` by `screen_height` frame into a `window_width` by
/// `window_height` window: scale by `min(window_width / screen_width,
/// window_height / screen_height)` and center what remains, so the scaled
/// frame never exceeds the window.
pub fn screen_fit(
    window_width: u32,
    window_height: u32,
    screen_width: u32,
    screen_height: u32,
) -> (r: ScreenFit)
    requires
        screen_width > 0,
        screen_height > 0,
    ensures
        r.scale == spec_screen_scale(window_width, window_height, screen_width, screen_height),
        r.width == screen_width * r.scale,
        r.height == screen_height * r.scale,
        r.width <= window_width,
        r.height <= window_height,
        r.x == (window_width - r.width) / 2,
        r.y == (window_height - r.height) / 2,
{
    let scale_x = window_width / screen_width;
    let scale_y = window_height / screen_height;
    let scale = if scale_x < scale_y {
        scale_x
    } else {
        scale_y
    };
    proof {
        assert((screen_width as int) * (scale as int) <= window_width as int) by (nonlinear_arith)
            requires
                0 < screen_width as int,
                0 <= scale as int,
                (scale as int) <= (window_width as int) / (screen_width as int),
        ;
        assert((screen_height as int) * (scale as int) <= window_height as int)
            by (nonlinear_arith)
            requires
                0 < screen_height as int,
                0 <= scale as int,
                (scale as int) <= (window_height as int) / (screen_height as int),
        ;
    }
    let width = screen_width * scale;
    let height = screen_height * scale;
    let x = (window_width - width) / 2;
    let y = (window_height - height) / 2;
    ScreenFit { scale, x, y, width, height }
}

} // verus!
