//! The pixel framebuffer and solid fills.
//!
//! The framebuffer is a row-major pixel array with a scan-line stride that
//! may exceed the visible width.  Here it owns its pixels as a vector; the
//! unverified front end maps the real video memory and copies the rows out.

use vstd::prelude::*;

verus! {

/// The fixed palette.
#[derive(Clone, Copy, Debug, PartialEq, Eq, Structural)]
pub enum Color {
    White,
    Black,
    Purple,
    LightBlue,
    Red,
}

/// The 32-bit pixel value of each palette entry.
pub open spec fn spec_color_value(c: Color) -> u32 {
    match c {
        Color::White => 0xffffff,
        Color::Black => 0x000000,
        Color::Purple => 0x8b2ef5,
        Color::LightBlue => 0x4cace3,
        Color::Red => 0xff0000,
    }
}

/// The 32-bit pixel value of a palette entry.
pub fn color_value(c: Color) -> (r: u32)
    ensures
        r == spec_color_value(c),
{
    match c {
        Color::White => 0xffffff,
        Color::Black => 0x000000,
        Color::Purple => 0x8b2ef5,
        Color::LightBlue => 0x4cace3,
        Color::Red => 0xff0000,
    }
}

/// The framebuffer: pixels in row-major order with `pixels_per_scan_line`
/// pixels per row, of which the first `width` are visible.
pub struct FramebufferInfo {
    pub buffer: Vec<u32>,
    /// Size of the underlying video memory in bytes.
    pub size: usize,
    pub width: usize,
    pub height: usize,
    pub pixels_per_scan_line: usize,
}

/// The visible rows and columns lie inside the pixel array.
pub open spec fn fb_wf(fb: FramebufferInfo) -> bool {
    &&& 0 < fb.pixels_per_scan_line
    &&& fb.width <= fb.pixels_per_scan_line
    &&& fb.height * fb.pixels_per_scan_line <= fb.buffer@.len()
}

/// The pixels with the top-left `w`-by-`h` rectangle set to `c` and all
/// else untouched.
pub open spec fn filled_area(m: Seq<u32>, ppsl: int, w: int, h: int, c: u32) -> Seq<u32> {
    Seq::new(
        m.len(),
        |i: int|
            if i / ppsl < h && i % ppsl < w {
                c
            } else {
                m[i]
            },
    )
}

impl FramebufferInfo {
    /// Paints the top-left `width`-by-`height` rectangle in one color,
    /// column by column, touching no pixel outside it.
    #[verifier::loop_isolation(false)]
    pub fn draw_area(&mut self, width: usize, height: usize, color: Color)
        requires
            fb_wf(*old(self)),
            width <= old(self).pixels_per_scan_line,
            height * old(self).pixels_per_scan_line <= old(self).buffer@.len(),
        ensures
            final(self).buffer@ == filled_area(
                old(self).buffer@,
                old(self).pixels_per_scan_line as int,
                width as int,
                height as int,
                spec_color_value(color),
            ),
            *final(self) == (FramebufferInfo { buffer: final(self).buffer, ..*old(self) }),
    {
        let ppsl = self.pixels_per_scan_line;
        let buf_len: usize = self.buffer.len();
        let ghost old_buf = old(self).buffer@;
        let ghost c = spec_color_value(color);
        let pixel = color_value(color);

        let mut x: usize = 0;
        while x < width
            invariant
                0 <= x <= width,
                self.pixels_per_scan_line == old(self).pixels_per_scan_line,
                self.size == old(self).size,
                self.width == old(self).width,
                self.height == old(self).height,
                self.buffer@.len() == old_buf.len(),
                forall|i: int|
                    0 <= i < old_buf.len() ==> #[trigger] self.buffer@[i] == (if i / (ppsl as int)
                        < height && i % (ppsl as int) < x {
                        c
                    } else {
                        old_buf[i]
                    }),
            decreases width - x,
        {
            let mut y: usize = 0;
            while y < height
                invariant
                    0 <= x < width,
                    0 <= y <= height,
                    self.pixels_per_scan_line == old(self).pixels_per_scan_line,
                    self.size == old(self).size,
                    self.width == old(self).width,
                    self.height == old(self).height,
                    self.buffer@.len() == old_buf.len(),
                    forall|i: int|
                        0 <= i < old_buf.len() ==> #[trigger] self.buffer@[i] == (if (i / (
                        ppsl as int) < height && i % (ppsl as int) < x) || (i / (ppsl as int) < y
                            && i % (ppsl as int) == x) {
                            c
                        } else {
                            old_buf[i]
                        }),
                decreases height - y,
            {
                proof {
                    assert(y * ppsl + x < (y + 1) * ppsl && (y + 1) * ppsl <= height * ppsl)
                        by (nonlinear_arith)
                        requires
                            0 <= y,
                            y + 1 <= height,
                            0 <= x < ppsl,
                    ;
                    assert(height * ppsl <= buf_len);
                }
                let index = y * ppsl + x;
                self.buffer[index] = pixel;
                proof {
                    vstd::arithmetic::div_mod::lemma_fundamental_div_mod_converse(
                        index as int,
                        ppsl as int,
                        y as int,
                        x as int,
                    );
                    assert forall|i: int| 0 <= i < old_buf.len() implies #[trigger] self.buffer@[i]
                        == (if (i / (ppsl as int) < height && i % (ppsl as int) < x) || (i / (
                        ppsl as int) < y + 1 && i % (ppsl as int) == x) {
                        c
                    } else {
                        old_buf[i]
                    }) by {
                        if i / (ppsl as int) == y && i % (ppsl as int) == x {
                            vstd::arithmetic::div_mod::lemma_fundamental_div_mod(
                                i,
                                ppsl as int,
                            );
                            assert(i == (ppsl as int) * (i / (ppsl as int)) + i % (ppsl as int));
                            assert(i == (ppsl as int) * (y as int) + (x as int));
                            assert((ppsl as int) * (y as int) == (y as int) * (ppsl as int))
                                by (nonlinear_arith);
                            assert(i == index);
                        }
                    }
                }
                y += 1;
            }
            x += 1;
        }
        proof {
            let filled = filled_area(old_buf, ppsl as int, width as int, height as int, c);
            assert forall|i: int| 0 <= i < old_buf.len() implies self.buffer@[i] == filled[i] by {}
            assert(self.buffer@ =~= filled);
        }
    }

    /// Paints the whole visible screen in one color.
    pub fn fill_screen(&mut self, color: Color)
        requires
            fb_wf(*old(self)),
        ensures
            final(self).buffer@ == filled_area(
                old(self).buffer@,
                old(self).pixels_per_scan_line as int,
                old(self).width as int,
                old(self).height as int,
                spec_color_value(color),
            ),
            *final(self) == (FramebufferInfo { buffer: final(self).buffer, ..*old(self) }),
    {
        let width = self.width;
        let height = self.height;
        self.draw_area(width, height, color);
    }
}


/// Writes one visible pixel.  The pixel index is the row times the stride
/// plus the column; the ensures also fixes that index's row and column so
/// callers can reason about which pixel changed.
pub fn set_pixel(fb: &mut FramebufferInfo, px: usize, py: usize, pixel: u32)
    requires
        fb_wf(*old(fb)),
        px < old(fb).width,
        py < old(fb).height,
    ensures
        ({
            let ppsl = old(fb).pixels_per_scan_line as int;
            let idx = py * ppsl + px;
            &&& final(fb).buffer@ == old(fb).buffer@.update(idx, pixel)
            &&& idx / ppsl == py
            &&& idx % ppsl == px
            &&& 0 <= idx < old(fb).buffer@.len()
        }),
        *final(fb) == (FramebufferInfo { buffer: final(fb).buffer, ..*old(fb) }),
{
    let ppsl = fb.pixels_per_scan_line;
    let buf_len: usize = fb.buffer.len();
    proof {
        assert(py * ppsl + px < (py + 1) * ppsl && (py + 1) * ppsl <= fb.height * ppsl)
            by (nonlinear_arith)
            requires
                0 <= py,
                py + 1 <= fb.height,
                0 <= px < ppsl,
        ;
        assert(fb.height * ppsl <= buf_len);
    }
    let index = py * ppsl + px;
    proof {
        vstd::arithmetic::div_mod::lemma_fundamental_div_mod_converse(
            index as int,
            ppsl as int,
            py as int,
            px as int,
        );
    }
    fb.buffer[index] = pixel;
}

} // verus!
