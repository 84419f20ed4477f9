//! The raw font-file header, as read before a font is decoded.

use vstd::prelude::*;

verus! {

/// The four header bytes of a font file: two magic bytes, the mode byte,
/// and the glyph height.
pub struct PSF1Header {
    pub magic: [u8; 2],
    pub mode: u8,
    pub glyph_height: u8,
}

impl PSF1Header {
    /// Reads the header from the first four bytes of a font file.
    pub fn init(data: &Vec<u8>) -> (r: Self)
        requires
            data.len() >= 4,
        ensures
            r.magic@ =~= data@.subrange(0, 2),
            r.mode == data@[2],
            r.glyph_height == data@[3],
    {
        let magic: [u8; 2] = [data[0], data[1]];
        let mode = data[2];
        let glyph_height = data[3];

        Self { magic, mode, glyph_height }
    }
}

/// A font file held together with its decoded header: the header, the glyph
/// count, and the glyph bytes.
pub struct PSFData {
    pub header: PSF1Header,
    pub glyph_count: usize,
    pub glyphs: Vec<u8>,
}

impl PSFData {
    /// Bundles a decoded header with the glyph bytes it describes.
    pub fn new(header: PSF1Header, count: usize, glyphs: Vec<u8>) -> (r: PSFData)
        ensures
            r.header == header,
            r.glyph_count == count,
            r.glyphs@ == glyphs@,
    {
        Self { header, glyph_count: count, glyphs }
    }
}

} // verus!
