//! Bitmap fonts and glyph blitting.
//!
//! A font file starts with a four-byte header — two magic bytes, a mode
//! byte, and the glyph height — followed by 256 or 512 glyphs of one byte
//! per row, the leftmost pixel in the highest bit.  Drawing a glyph sets
//! exactly the framebuffer pixels under its set bits that fall inside the
//! visible area, and touches nothing else.

use vstd::prelude::*;

use crate::drawing::{color_value, fb_wf, set_pixel, spec_color_value, Color, FramebufferInfo};
use vstd::string::StringSliceAdditionalSpecFns;

verus! {

/// A decoded font: the glyph bitmaps and their dimensions.
#[derive(Debug)]
pub struct PsfFont {
    pub glyphs: Vec<u8>,
    pub glyph_height: usize,
    pub glyph_num: usize,
}

/// The glyph array covers every glyph the header promises.
pub open spec fn psf_font_wf(f: PsfFont) -> bool {
    &&& f.glyph_num == 256 || f.glyph_num == 512
    &&& f.glyph_num * f.glyph_height <= f.glyphs@.len()
}

/// The rows of the glyph for `ascii`.
pub open spec fn spec_glyph_of(f: PsfFont, ascii: u8) -> Seq<u8> {
    f.glyphs@.subrange(
        ascii * f.glyph_height,
        ascii * f.glyph_height + f.glyph_height,
    )
}

impl PsfFont {
    /// Decodes a font file: checks the two magic bytes, takes the glyph
    /// height from the header and the glyph count from the mode byte's low
    /// bit, and keeps the glyph bytes.  Rejects a file too short for the
    /// glyphs its header promises.
    pub fn from_bytes(data: &Vec<u8>) -> (r: Option<PsfFont>)
        ensures
            r is Some <==> (data@.len() >= 4 && data@[0] == 0x36 && data@[1] == 0x04 && ({
                let glyph_num: int = if data@[2] & 0x01 != 0 {
                    512
                } else {
                    256
                };
                data@.len() - 4 >= (data@[3] as int) * glyph_num
            })),
            r is Some ==> {
                let f = r->0;
                &&& f.glyphs@ == data@.subrange(4, data@.len() as int)
                &&& f.glyph_height == data@[3]
                &&& f.glyph_num == (if data@[2] & 0x01 != 0 {
                    512int
                } else {
                    256int
                })
                &&& psf_font_wf(f)
            },
    {
        if data.len() < 4 || data[0] != 0x36 || data[1] != 0x04 {
            return Option::None;
        }

        let mode = data[2];
        let glyph_height = data[3] as usize;
        let glyph_num: usize = if mode & 0x01 != 0 {
            512
        } else {
            256
        };

        let mut glyphs: Vec<u8> = Vec::new();
        let mut i: usize = 4;
        while i < data.len()
            invariant
                4 <= i <= data@.len(),
                glyphs@ == data@.subrange(4, i as int),
            decreases data@.len() - i,
        {
            glyphs.push(data[i]);
            proof {
                assert(glyphs@ =~= data@.subrange(4, i + 1));
            }
            i += 1;
        }
        proof {
            assert(glyphs@ =~= data@.subrange(4, data@.len() as int));
        }

        proof {
            assert(glyph_height * glyph_num == glyph_num * glyph_height) by (nonlinear_arith);
        }
        if glyphs.len() < glyph_height * glyph_num {
            return Option::None;
        }

        Some(PsfFont { glyphs, glyph_height, glyph_num })
    }

    /// The rows of the glyph for `ascii`: `glyph_height` consecutive bytes
    /// starting at `ascii * glyph_height`.
    pub fn glyph_for(&self, ascii: u8) -> (r: &[u8])
        requires
            psf_font_wf(*self),
        ensures
            r@ == spec_glyph_of(*self, ascii),
            r@.len() == self.glyph_height,
    {
        proof {
            assert((ascii as int + 1) * self.glyph_height <= self.glyph_num * self.glyph_height)
                by (nonlinear_arith)
                requires
                    0 <= ascii as int + 1 <= self.glyph_num,
                    0 <= self.glyph_height,
            ;
            assert((ascii as int + 1) * self.glyph_height == ascii * self.glyph_height
                + self.glyph_height) by (nonlinear_arith);
        }
        let _n: usize = self.glyphs.len();
        let index = ascii as usize;
        let start = index * self.glyph_height;
        let end = start + self.glyph_height;

        vstd::slice::slice_subrange(self.glyphs.as_slice(), start, end)
    }
}

/// Whether the pixel at column `col` (0 is leftmost) of a glyph row byte is
/// set: the row's bits from highest to lowest.
pub open spec fn glyph_bit(row_byte: u8, col: int) -> bool {
    row_byte & (0x80u8 >> (col as u8)) != 0
}

/// Whether blitting the glyph at `(x, y)` colors the pixel at index `i` of
/// a framebuffer with stride `ppsl` and visible size `w` by `h`: the pixel
/// lies in the glyph's box, inside the visible area, under a set bit.
pub open spec fn char_pixel_hit(
    ppsl: int,
    w: int,
    h: int,
    glyph: Seq<u8>,
    x: int,
    y: int,
    i: int,
) -> bool {
    let py = i / ppsl;
    let px = i % ppsl;
    &&& y <= py < y + glyph.len()
    &&& x <= px < x + 8
    &&& px < w
    &&& py < h
    &&& glyph_bit(glyph[py - y], px - x)
}

/// The pixels after blitting one glyph at `(x, y)`: the color under every
/// set, visible glyph bit, and the old pixel everywhere else.
pub open spec fn draw_char_spec(
    m: Seq<u32>,
    ppsl: int,
    w: int,
    h: int,
    glyph: Seq<u8>,
    x: int,
    y: int,
    c: u32,
) -> Seq<u32> {
    Seq::new(
        m.len(),
        |i: int|
            if char_pixel_hit(ppsl, w, h, glyph, x, y, i) {
                c
            } else {
                m[i]
            },
    )
}

/// Blits one glyph at `(x, y)`: colors exactly the visible pixels under the
/// glyph's set bits, touching no other pixel and no other field.
#[verifier::loop_isolation(false)]
#[verifier::rlimit(60)]
pub fn draw_char(fb: &mut FramebufferInfo, font: &PsfFont, ascii: u8, x: usize, y: usize, color: Color)
    requires
        fb_wf(*old(fb)),
        psf_font_wf(*font),
        x + 8 <= usize::MAX,
        y + font.glyph_height <= usize::MAX,
    ensures
        final(fb).buffer@ == draw_char_spec(
            old(fb).buffer@,
            old(fb).pixels_per_scan_line as int,
            old(fb).width as int,
            old(fb).height as int,
            spec_glyph_of(*font, ascii),
            x as int,
            y as int,
            spec_color_value(color),
        ),
        *final(fb) == (FramebufferInfo { buffer: final(fb).buffer, ..*old(fb) }),
{
    let glyph: &[u8] = font.glyph_for(ascii);
    let glyph_len: usize = glyph.len();
    let ppsl = fb.pixels_per_scan_line;
    let buf_len: usize = fb.buffer.len();
    let pixel = color_value(color);

    let ghost old_buf = old(fb).buffer@;
    let ghost g = glyph@;
    let ghost c = spec_color_value(color);
    let ghost width = old(fb).width as int;
    let ghost height = old(fb).height as int;

    let mut row: usize = 0;
    while row < glyph_len
        invariant
            0 <= row <= glyph_len,
            fb.pixels_per_scan_line == old(fb).pixels_per_scan_line,
            fb.size == old(fb).size,
            fb.width == old(fb).width,
            fb.height == old(fb).height,
            fb.buffer@.len() == old_buf.len(),
            forall|i: int|
                0 <= i < old_buf.len() ==> #[trigger] fb.buffer@[i] == (if char_pixel_hit(
                    ppsl as int,
                    width,
                    height,
                    g,
                    x as int,
                    y as int,
                    i,
                ) && (i / (ppsl as int) - y) * 8 + (i % (ppsl as int) - x) < row * 8 {
                    c
                } else {
                    old_buf[i]
                }),
        decreases glyph_len - row,
    {
        let byte = *vstd::slice::slice_index_get(glyph, row);
        let mut col: usize = 0;
        while col < 8
            invariant
                0 <= row < glyph_len,
                0 <= col <= 8,
                byte == g[row as int],
                fb.pixels_per_scan_line == old(fb).pixels_per_scan_line,
                fb.size == old(fb).size,
                fb.width == old(fb).width,
                fb.height == old(fb).height,
                fb.buffer@.len() == old_buf.len(),
                forall|i: int|
                    0 <= i < old_buf.len() ==> #[trigger] fb.buffer@[i] == (if char_pixel_hit(
                        ppsl as int,
                        width,
                        height,
                        g,
                        x as int,
                        y as int,
                        i,
                    ) && (i / (ppsl as int) - y) * 8 + (i % (ppsl as int) - x) < row * 8 + col {
                        c
                    } else {
                        old_buf[i]
                    }),
            decreases 8 - col,
        {
            let mask = 0x80u8 >> (col as u8);
            let px = x + col;
            let py = y + row;
            let visible = px < fb.width && py < fb.height;
            if byte & mask != 0 && visible {
                set_pixel(fb, px, py, pixel);
                proof {
                    assert(char_pixel_hit(
                        ppsl as int,
                        width,
                        height,
                        g,
                        x as int,
                        y as int,
                        py * (ppsl as int) + px,
                    ));
                }
            }
            proof {
                let n = row * 8 + col;
                assert forall|i: int| 0 <= i < old_buf.len() implies #[trigger] fb.buffer@[i] == (
                if char_pixel_hit(ppsl as int, width, height, g, x as int, y as int, i) && (i / (
                ppsl as int) - y) * 8 + (i % (ppsl as int) - x) < row * 8 + col + 1 {
                    c
                } else {
                    old_buf[i]
                }) by {
                    let py0 = i / (ppsl as int);
                    let px0 = i % (ppsl as int);
                    if char_pixel_hit(ppsl as int, width, height, g, x as int, y as int, i) && (
                    py0 - y) * 8 + (px0 - x) == n {
                        // The pixel with progress number n is exactly
                        // (x + col, y + row).
                        assert(py0 == y + row && px0 == x + col);
                        vstd::arithmetic::div_mod::lemma_fundamental_div_mod(i, ppsl as int);
                        assert(i == (ppsl as int) * py0 + px0);
                        assert((ppsl as int) * py0 == py0 * (ppsl as int)) by (nonlinear_arith);
                        assert(glyph_bit(g[row as int], col as int));
                        assert(i == py * (ppsl as int) + px);
                    }
                }
            }
            col += 1;
        }
        proof {
            i_row_step(row);
        }
        row += 1;
    }

    proof {
        let drawn = draw_char_spec(
            old_buf,
            ppsl as int,
            width,
            height,
            g,
            x as int,
            y as int,
            c,
        );
        assert forall|i: int| 0 <= i < old_buf.len() implies fb.buffer@[i] == drawn[i] by {
            if char_pixel_hit(ppsl as int, width, height, g, x as int, y as int, i) {
                assert((i / (ppsl as int) - y) * 8 + (i % (ppsl as int) - x) < glyph_len * 8)
                    by (nonlinear_arith)
                    requires
                        y <= i / (ppsl as int) < y + glyph_len,
                        x <= i % (ppsl as int) < x + 8,
                ;
            }
        }
        assert(fb.buffer@ =~= drawn);
    }
}

/// A marker for the end of one glyph row: eight columns make one row of
/// progress.
proof fn i_row_step(row: usize)
    ensures
        row * 8 + 8 == (row + 1) * 8,
{
}


/// The pixels and pen column after rendering the first `k` bytes of a
/// string whose leftmost column is `x`: each byte blits its glyph at the
/// current column and advances the pen by the glyph width, and a line feed
/// returns the pen to `x` without drawing.
pub open spec fn draw_string_state(
    m0: Seq<u32>,
    ppsl: int,
    w: int,
    h: int,
    f: PsfFont,
    bytes: Seq<u8>,
    x: int,
    y: int,
    c: u32,
    k: nat,
) -> (Seq<u32>, int)
    decreases k,
{
    if k == 0 {
        (m0, x)
    } else {
        let prev = draw_string_state(m0, ppsl, w, h, f, bytes, x, y, c, (k - 1) as nat);
        let b = bytes[k - 1];
        if b == 10 {
            (prev.0, x)
        } else {
            (draw_char_spec(prev.0, ppsl, w, h, spec_glyph_of(f, b), prev.1, y, c), prev.1 + 8)
        }
    }
}

/// Renders a string of glyphs left to right from `(x, y)`, eight columns
/// per glyph; a line-feed byte draws nothing and returns the pen to `x`.
#[verifier::loop_isolation(false)]
pub fn draw_string(
    fb: &mut FramebufferInfo,
    font: &PsfFont,
    text: &str,
    x: usize,
    y: usize,
    color: Color,
)
    requires
        fb_wf(*old(fb)),
        psf_font_wf(*font),
        x + 8 * text.spec_bytes().len() + 8 <= usize::MAX,
        y + font.glyph_height <= usize::MAX,
    ensures
        final(fb).buffer@ == draw_string_state(
            old(fb).buffer@,
            old(fb).pixels_per_scan_line as int,
            old(fb).width as int,
            old(fb).height as int,
            *font,
            text.spec_bytes(),
            x as int,
            y as int,
            spec_color_value(color),
            text.spec_bytes().len(),
        ).0,
        *final(fb) == (FramebufferInfo { buffer: final(fb).buffer, ..*old(fb) }),
{
    let bytes: &[u8] = text.as_bytes();
    let n: usize = bytes.len();
    let ghost bs = text.spec_bytes();
    let ghost ppsl = old(fb).pixels_per_scan_line as int;
    let ghost w = old(fb).width as int;
    let ghost h = old(fb).height as int;
    let ghost c = spec_color_value(color);
    let ghost old_buf = old(fb).buffer@;

    let mut x_offset: usize = x;
    let mut k: usize = 0;
    while k < n
        invariant
            0 <= k <= n,
            x_offset <= x + 8 * k,
            fb.pixels_per_scan_line == old(fb).pixels_per_scan_line,
            fb.size == old(fb).size,
            fb.width == old(fb).width,
            fb.height == old(fb).height,
            fb.buffer@ == draw_string_state(old_buf, ppsl, w, h, *font, bs, x as int, y as int, c, k as nat).0,
            x_offset as int == draw_string_state(old_buf, ppsl, w, h, *font, bs, x as int, y as int, c, k as nat).1,
        decreases n - k,
    {
        let byte = *vstd::slice::slice_index_get(bytes, k);
        if byte == 10 {
            x_offset = x;
        } else {
            proof {
                assert(fb.buffer@.len() == old_buf.len()) by {
                    lemma_draw_string_state_len(old_buf, ppsl, w, h, *font, bs, x as int, y as int, c, k as nat);
                }
            }
            draw_char(fb, font, byte, x_offset, y, color);
            x_offset += 8;
        }
        proof {
            assert(fb.buffer@ == draw_string_state(
                old_buf, ppsl, w, h, *font, bs, x as int, y as int, c, (k + 1) as nat).0
                && x_offset as int == draw_string_state(
                old_buf, ppsl, w, h, *font, bs, x as int, y as int, c, (k + 1) as nat).1);
        }
        k += 1;
    }
}

/// Rendering never changes the pixel count.
proof fn lemma_draw_string_state_len(
    m0: Seq<u32>,
    ppsl: int,
    w: int,
    h: int,
    f: PsfFont,
    bytes: Seq<u8>,
    x: int,
    y: int,
    c: u32,
    k: nat,
)
    ensures
        draw_string_state(m0, ppsl, w, h, f, bytes, x, y, c, k).0.len() == m0.len(),
    decreases k,
{
    if k > 0 {
        lemma_draw_string_state_len(m0, ppsl, w, h, f, bytes, x, y, c, (k - 1) as nat);
    }
}

/// Renders a string exactly as `draw_string` does; the raw variant writes
/// to a framebuffer that is not yet owned by the terminal state.
#[verifier::loop_isolation(false)]
pub fn draw_string_raw(
    fb: &mut FramebufferInfo,
    font: &PsfFont,
    text: &str,
    x: usize,
    y: usize,
    color: Color,
)
    requires
        fb_wf(*old(fb)),
        psf_font_wf(*font),
        x + 8 * text.spec_bytes().len() + 8 <= usize::MAX,
        y + font.glyph_height <= usize::MAX,
    ensures
        final(fb).buffer@ == draw_string_state(
            old(fb).buffer@,
            old(fb).pixels_per_scan_line as int,
            old(fb).width as int,
            old(fb).height as int,
            *font,
            text.spec_bytes(),
            x as int,
            y as int,
            spec_color_value(color),
            text.spec_bytes().len(),
        ).0,
        *final(fb) == (FramebufferInfo { buffer: final(fb).buffer, ..*old(fb) }),
{
    draw_string(fb, font, text, x, y, color)
}

} // verus!
