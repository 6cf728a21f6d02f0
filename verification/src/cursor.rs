//! Software cursor compositing.
//!
//! A capture backend that does not draw the cursor itself fetches the
//! current cursor image from the OS and blends it onto the captured buffer
//! in place. The cursor image arrives as packed 32-bit premultiplied-alpha
//! pixels; for each pixel of the overlap between the cursor rectangle and
//! the capture rectangle, an opaque cursor pixel overwrites the image's
//! colour channels, a transparent one leaves them alone, and anything in
//! between is alpha-blended. A cursor whose top-left corner lies outside
//! the capture rectangle is skipped entirely, so cursor absence can never
//! fail a capture.

use vstd::arithmetic::div_mod::{lemma_fundamental_div_mod, lemma_fundamental_div_mod_converse};
use vstd::prelude::*;

verus! {

/// Colour channel `k` (0, 1 or 2) of a packed 32-bit cursor pixel.
pub open spec fn spec_channel(p: u32, k: int) -> u8 {
    if k == 0 {
        (p & 0xFF) as u8
    } else if k == 1 {
        ((p >> 8) & 0xFF) as u8
    } else {
        ((p >> 16) & 0xFF) as u8
    }
}

/// Alpha channel of a packed 32-bit cursor pixel.
pub open spec fn spec_alpha(p: u32) -> u8 {
    ((p >> 24) & 0xFF) as u8
}

/// A premultiplied-alpha pixel: no colour channel exceeds the alpha.
pub open spec fn spec_premultiplied(p: u32) -> bool {
    spec_channel(p, 0) <= spec_alpha(p) && spec_channel(p, 1) <= spec_alpha(p) && spec_channel(
        p,
        2,
    ) <= spec_alpha(p)
}

/// One colour channel after blending a premultiplied cursor value over an
/// image value: full alpha overwrites, zero alpha keeps the image, and
/// anything in between adds the cursor value to the image value faded by
/// the remaining alpha (rounded to nearest).
pub open spec fn spec_blend(dst: u8, src: u8, alpha: u8) -> int {
    if alpha == 255 {
        src as int
    } else if alpha == 0 {
        dst as int
    } else {
        src + (dst * (255 - alpha) + 127) / 255
    }
}

/// The current cursor: a bitmap of packed premultiplied-alpha pixels.
#[derive(Debug, Clone)]
pub struct CursorImage {
    pub width: u32,
    pub height: u32,
    /// Row-major pixels, `width * height` of them.
    pub pixels: Vec<u32>,
}

impl CursorImage {
    /// The bitmap holds exactly one premultiplied pixel per cell.
    pub open spec fn wf(self) -> bool {
        &&& self.pixels@.len() == self.width as int * self.height as int
    }

    /// Every pixel of the bitmap is premultiplied.
    pub open spec fn premultiplied(self) -> bool {
        forall|i: int| 0 <= i < self.pixels@.len() ==> spec_premultiplied(#[trigger] self.pixels@[i])
    }
}

/// Whether the cursor's top-left corner lies inside the capture rectangle.
/// A cursor outside it (even partially, to the left or above) is skipped.
pub open spec fn spec_cursor_in_rect(
    win_x: int,
    win_y: int,
    win_w: int,
    win_h: int,
    cx: int,
    cy: int,
) -> bool {
    win_x <= cx < win_x + win_w && win_y <= cy < win_y + win_h
}

/// How many cursor columns (or rows) fall inside the capture rectangle:
/// the cursor extent, clipped at the rectangle's far edge.
pub open spec fn spec_overlap(extent: int, rect_lo: int, rect_size: int, pos: int) -> int {
    if pos + extent <= rect_lo + rect_size {
        extent
    } else {
        rect_lo + rect_size - pos
    }
}

/// Byte `k` of the image after the cursor has been blended over the pixels
/// whose cursor-relative row and column lie before row `r`, column `c` (in
/// row-major scan order). The overlap spans `ow` columns and `oh` rows,
/// with its top-left at image pixel (`rel_x`, `rel_y`). Alpha bytes
/// (channel 3) and pixels outside the overlap keep their image value.
pub open spec fn spec_blended_upto(
    old_img: Seq<u8>,
    win_w: int,
    cursor: CursorImage,
    rel_x: int,
    rel_y: int,
    ow: int,
    oh: int,
    r: int,
    c: int,
    k: int,
) -> int {
    let pix = k / 4;
    let chan = k % 4;
    let row = pix / win_w;
    let col = pix % win_w;
    if chan < 3 && rel_y <= row < rel_y + oh && rel_x <= col < rel_x + ow && (row - rel_y < r || (
    row - rel_y == r && col - rel_x < c)) {
        let cp = cursor.pixels@[(row - rel_y) * (cursor.width as int) + (col - rel_x)];
        spec_blend(old_img[k], spec_channel(cp, chan), spec_alpha(cp))
    } else {
        old_img[k] as int
    }
}

/// Byte `k` of the image after the whole overlap has been blended.
pub open spec fn spec_composited(
    old_img: Seq<u8>,
    win_w: int,
    cursor: CursorImage,
    rel_x: int,
    rel_y: int,
    ow: int,
    oh: int,
    k: int,
) -> int {
    spec_blended_upto(old_img, win_w, cursor, rel_x, rel_y, ow, oh, oh, 0, k)
}

proof fn lemma_column_step_preserves_other(
    old_img: Seq<u8>,
    win_w: int,
    cursor: CursorImage,
    rel_x: int,
    rel_y: int,
    ow: int,
    oh: int,
    r: int,
    c: int,
    k: int,
)
    requires
        0 < win_w,
        0 <= r < oh,
        0 <= c < ow,
        0 <= k,
        !(4 * ((rel_y + r) * win_w + (rel_x + c)) <= k < 4 * ((rel_y + r) * win_w + (rel_x + c))
            + 3),
    ensures
        spec_blended_upto(old_img, win_w, cursor, rel_x, rel_y, ow, oh, r, c + 1, k)
            == spec_blended_upto(old_img, win_w, cursor, rel_x, rel_y, ow, oh, r, c, k),
{
    lemma_fundamental_div_mod(k, 4);
    lemma_fundamental_div_mod(k / 4, win_w);
    let pix = k / 4;
    let chan = k % 4;
    let row = pix / win_w;
    let col = pix % win_w;
    if chan < 3 && row == rel_y + r && col == rel_x + c {
        assert(pix == win_w * row + col);
        assert(win_w * row == (rel_y + r) * win_w) by (nonlinear_arith)
            requires
                row == rel_y + r,
        ;
        assert(false);
    }
}

proof fn lemma_row_step(
    old_img: Seq<u8>,
    win_w: int,
    cursor: CursorImage,
    rel_x: int,
    rel_y: int,
    ow: int,
    oh: int,
    r: int,
    k: int,
)
    ensures
        spec_blended_upto(old_img, win_w, cursor, rel_x, rel_y, ow, oh, r, ow, k)
            == spec_blended_upto(old_img, win_w, cursor, rel_x, rel_y, ow, oh, r + 1, 0, k),
{
}

/// Blends the current cursor onto a captured 4-byte-per-pixel image in
/// place.
///
/// `(win_x, win_y, win_width, win_height)` is the capture rectangle in
/// screen coordinates and `(cursor_x, cursor_y)` the cursor's top-left
/// drawing position (hotspot already subtracted). When that position lies
/// outside the capture rectangle the image is left untouched; otherwise
/// every pixel of the overlap is blended according to [`spec_blend`], and
/// every other byte — alpha bytes included — keeps its value.
pub fn composite_cursor(
    img: &mut Vec<u8>,
    win_x: i32,
    win_y: i32,
    win_width: i32,
    win_height: i32,
    cursor: &CursorImage,
    cursor_x: i32,
    cursor_y: i32,
)
    requires
        cursor.wf(),
        cursor.premultiplied(),
        0 <= win_width,
        0 <= win_height,
        old(img)@.len() == 4 * (win_width as int) * (win_height as int),
        win_x + win_width <= i32::MAX,
        win_y + win_height <= i32::MAX,
    ensures
        final(img)@.len() == old(img)@.len(),
        !spec_cursor_in_rect(
            win_x as int,
            win_y as int,
            win_width as int,
            win_height as int,
            cursor_x as int,
            cursor_y as int,
        ) ==> final(img)@ == old(img)@,
        spec_cursor_in_rect(
            win_x as int,
            win_y as int,
            win_width as int,
            win_height as int,
            cursor_x as int,
            cursor_y as int,
        ) ==> forall|k: int|
            0 <= k < old(img)@.len() ==> final(img)@[k] == spec_composited(
                old(img)@,
                win_width as int,
                *cursor,
                cursor_x - win_x,
                cursor_y - win_y,
                spec_overlap(cursor.width as int, win_x as int, win_width as int, cursor_x as int),
                spec_overlap(
                    cursor.height as int,
                    win_y as int,
                    win_height as int,
                    cursor_y as int,
                ),
                k,
            ),
{
    if cursor_x >= win_x + win_width || cursor_y >= win_y + win_height || cursor_x < win_x
        || cursor_y < win_y {
        return ;
    }
    let ghost old_img = img@;

    let rel_x: usize = (cursor_x - win_x) as usize;
    let rel_y: usize = (cursor_y - win_y) as usize;
    let win_w: usize = win_width as usize;
    let win_h: usize = win_height as usize;
    let cursor_w: usize = cursor.width as usize;
    let cursor_h: usize = cursor.height as usize;
    let pixel_count: usize = cursor.pixels.len();
    let total_bytes: usize = img.len();

    let avail_w: usize = win_w - rel_x;
    let avail_h: usize = win_h - rel_y;
    let ow: usize = if cursor_w <= avail_w {
        cursor_w
    } else {
        avail_w
    };
    let oh: usize = if cursor_h <= avail_h {
        cursor_h
    } else {
        avail_h
    };

    proof {
        assert(ow == spec_overlap(
            cursor.width as int,
            win_x as int,
            win_width as int,
            cursor_x as int,
        ));
        assert(oh == spec_overlap(
            cursor.height as int,
            win_y as int,
            win_height as int,
            cursor_y as int,
        ));
    }

    let mut r: usize = 0;
    while r < oh
        invariant
            cursor.wf(),
            cursor.premultiplied(),
            cursor_w == cursor.width,
            cursor_h == cursor.height,
            pixel_count == cursor.pixels@.len(),
            ow <= cursor_w,
            oh <= cursor_h,
            ow <= win_w - rel_x,
            oh <= win_h - rel_y,
            0 < win_w,
            rel_x < win_w,
            rel_y < win_h,
            total_bytes == img@.len(),
            img@.len() == old_img.len(),
            old_img.len() == 4 * (win_w as int) * (win_h as int),
            r <= oh,
            forall|k: int|
                0 <= k < img@.len() ==> img@[k] == spec_blended_upto(
                    old_img,
                    win_w as int,
                    *cursor,
                    rel_x as int,
                    rel_y as int,
                    ow as int,
                    oh as int,
                    r as int,
                    0,
                    k,
                ),
        decreases oh - r,
    {
        let mut c: usize = 0;
        while c < ow
            invariant
                cursor.wf(),
                cursor.premultiplied(),
                cursor_w == cursor.width,
                cursor_h == cursor.height,
                pixel_count == cursor.pixels@.len(),
                ow <= cursor_w,
                oh <= cursor_h,
                ow <= win_w - rel_x,
                oh <= win_h - rel_y,
                0 < win_w,
                rel_x < win_w,
                rel_y < win_h,
                total_bytes == img@.len(),
                img@.len() == old_img.len(),
                old_img.len() == 4 * (win_w as int) * (win_h as int),
                r < oh,
                c <= ow,
                forall|k: int|
                    0 <= k < img@.len() ==> img@[k] == spec_blended_upto(
                        old_img,
                        win_w as int,
                        *cursor,
                        rel_x as int,
                        rel_y as int,
                        ow as int,
                        oh as int,
                        r as int,
                        c as int,
                        k,
                    ),
            decreases ow - c,
        {
            proof {
                assert(r * cursor_w + c < cursor_h * cursor_w && cursor_h * cursor_w == (
                cursor.width as int) * (cursor.height as int) && r * cursor_w + c == (r as int) * (
                cursor.width as int) + c) by (nonlinear_arith)
                    requires
                        r < oh,
                        oh <= cursor_h,
                        c < ow,
                        ow <= cursor_w,
                        cursor_w == cursor.width,
                        cursor_h == cursor.height,
                ;
            }
            let cp: u32 = cursor.pixels[r * cursor_w + c];
            proof {
                assert(cp >> 24 == (cp >> 24) & 0xFF && cp >> 24 <= 255 && cp & 0xFF <= 255 && (cp
                    >> 8) & 0xFF <= 255 && (cp >> 16) & 0xFF <= 255) by (bit_vector);
                assert(spec_premultiplied(cp));
            }
            let alpha: u32 = cp >> 24;

            let row: usize = rel_y + r;
            let col: usize = rel_x + c;
            proof {
                assert((row as int) * (win_w as int) + col < (win_h as int) * (win_w as int) && 0
                    <= (row as int) * (win_w as int) && 4 * ((row as int) * (win_w as int) + col)
                    + 3 < 4 * (win_w as int) * (win_h as int)) by (nonlinear_arith)
                    requires
                        row < win_h,
                        col < win_w,
                        0 < win_w,
                ;
            }
            let pix_index: usize = row * win_w + col;
            let base: usize = pix_index * 4;

            let ghost prev_img = img@;

            if alpha == 255 {
                img[base] = (cp & 0xFF) as u8;
                img[base + 1] = ((cp >> 8) & 0xFF) as u8;
                img[base + 2] = ((cp >> 16) & 0xFF) as u8;
            } else if alpha > 0 {
                let a2: u32 = 255 - alpha;
                let d0: u32 = img[base] as u32;
                let d1: u32 = img[base + 1] as u32;
                let d2: u32 = img[base + 2] as u32;
                proof {
                    assert(d0 * a2 <= 65025 && d1 * a2 <= 65025 && d2 * a2 <= 65025 && (d0 * a2
                        + 127) / 255 <= a2 && (d1 * a2 + 127) / 255 <= a2 && (d2 * a2 + 127) / 255
                        <= a2) by (nonlinear_arith)
                        requires
                            d0 <= 255,
                            d1 <= 255,
                            d2 <= 255,
                            0 <= a2 <= 255,
                    ;
                }
                img[base] = ((cp & 0xFF) + (d0 * a2 + 127) / 255) as u8;
                img[base + 1] = (((cp >> 8) & 0xFF) + (d1 * a2 + 127) / 255) as u8;
                img[base + 2] = (((cp >> 16) & 0xFF) + (d2 * a2 + 127) / 255) as u8;
            }

            proof {
                let wi = win_w as int;
                let pi = pix_index as int;
                let rxi = rel_x as int;
                let ryi = rel_y as int;
                let ri = r as int;
                let ci = c as int;
                let owi = ow as int;
                let ohi = oh as int;
                lemma_fundamental_div_mod_converse(4 * pi, 4, pi, 0);
                lemma_fundamental_div_mod_converse(4 * pi + 1, 4, pi, 1);
                lemma_fundamental_div_mod_converse(4 * pi + 2, 4, pi, 2);
                lemma_fundamental_div_mod_converse(pi, wi, ryi + ri, rxi + ci);
                assert(base == 4 * pi);
                assert forall|k: int| 0 <= k < img@.len() implies img@[k] == spec_blended_upto(
                    old_img,
                    wi,
                    *cursor,
                    rxi,
                    ryi,
                    owi,
                    ohi,
                    ri,
                    ci + 1,
                    k,
                ) by {
                    if 4 * pi <= k < 4 * pi + 3 {
                        assert(prev_img[k] == spec_blended_upto(
                            old_img,
                            wi,
                            *cursor,
                            rxi,
                            ryi,
                            owi,
                            ohi,
                            ri,
                            ci,
                            k,
                        ));
                        assert(prev_img[k] == old_img[k]);
                    } else {
                        lemma_column_step_preserves_other(
                            old_img,
                            wi,
                            *cursor,
                            rxi,
                            ryi,
                            owi,
                            ohi,
                            ri,
                            ci,
                            k,
                        );
                    }
                }
            }
            c += 1;
        }
        proof {
            assert forall|k: int| 0 <= k < img@.len() implies #[trigger] spec_blended_upto(
                old_img,
                win_w as int,
                *cursor,
                rel_x as int,
                rel_y as int,
                ow as int,
                oh as int,
                r as int,
                ow as int,
                k,
            ) == spec_blended_upto(
                old_img,
                win_w as int,
                *cursor,
                rel_x as int,
                rel_y as int,
                ow as int,
                oh as int,
                r as int + 1,
                0,
                k,
            ) by {
                lemma_row_step(
                    old_img,
                    win_w as int,
                    *cursor,
                    rel_x as int,
                    rel_y as int,
                    ow as int,
                    oh as int,
                    r as int,
                    k,
                );
            }
        }
        r += 1;
    }
}

} // verus!
