use vstd::prelude::*;

verus! {

/// Four bytes of one color, in the order in which they are stored.
#[derive(Clone, Copy, PartialEq, Eq, Structural, Debug)]
pub struct ColorBytes {
    pub b0: u8,
    pub b1: u8,
    pub b2: u8,
    pub b3: u8,
}

/// The same color with the first and third byte exchanged: the host library's
/// red-first order becomes the native blue-first order, and back.
pub open spec fn swapped(c: ColorBytes) -> ColorBytes {
    ColorBytes { b0: c.b2, b1: c.b1, b2: c.b0, b3: c.b3 }
}

/// The native texel for the source pixel starting at byte `src`: a one-byte
/// pixel is an alpha value over opaque white, a four-byte pixel has its first
/// and third byte exchanged.
pub open spec fn source_texel(data: Seq<u8>, src: int, bpp: int) -> ColorBytes {
    if bpp == 1 {
        ColorBytes { b0: 255, b1: 255, b2: 255, b3: data[src] }
    } else {
        ColorBytes { b0: data[src + 2], b1: data[src + 1], b2: data[src], b3: data[src + 3] }
    }
}

pub fn swap_channels(c: ColorBytes) -> (r: ColorBytes)
    ensures
        r == swapped(c),
{
    ColorBytes { b0: c.b2, b1: c.b1, b2: c.b0, b3: c.b3 }
}

pub fn texel_from_source(data: &Vec<u8>, src: usize, bpp: usize) -> (r: ColorBytes)
    requires
        bpp == 1 || bpp == 4,
        src + bpp <= data@.len(),
    ensures
        r == source_texel(data@, src as int, bpp as int),
{
    let n = data.len();
    if bpp == 1 {
        ColorBytes { b0: 255, b1: 255, b2: 255, b3: data[src] }
    } else {
        assert(src + 3 < n);
        ColorBytes { b0: data[src + 2], b1: data[src + 1], b2: data[src], b3: data[src + 3] }
    }
}

} // verus!
